use vstd::prelude::*;
use crate::text::{join3, lower_of, lowercase, text_eq};

verus! {

#[derive(Debug, Clone, Copy, PartialEq, Eq, Structural)]
pub enum NamedKey {
    Enter,
    Escape,
    Tab,
    Space,
    Backspace,
}

/// A key as an input backend presses it: a named key or one character.
#[derive(Debug, Clone, Copy, PartialEq, Eq, Structural)]
pub enum KeySpec {
    Named(NamedKey),
    Char(char),
}

/// The named key whose lower-case name is `lower`, if any.
pub open spec fn named_key(lower: Seq<char>) -> Option<NamedKey> {
    if lower == "enter"@ {
        Some(NamedKey::Enter)
    } else if lower == "escape"@ || lower == "esc"@ {
        Some(NamedKey::Escape)
    } else if lower == "tab"@ {
        Some(NamedKey::Tab)
    } else if lower == "space"@ {
        Some(NamedKey::Space)
    } else if lower == "backspace"@ {
        Some(NamedKey::Backspace)
    } else {
        None
    }
}

/// How `raw` is pressed, given its lower-case form: a named key, else a single character;
/// `None` for anything else.
pub open spec fn key_spec_of(raw: Seq<char>, lower: Seq<char>) -> Option<KeySpec> {
    if raw.len() == 0 {
        None
    } else {
        match named_key(lower) {
            Some(k) => Some(KeySpec::Named(k)),
            None => if raw.len() == 1 {
                Some(KeySpec::Char(raw[0]))
            } else {
                None
            },
        }
    }
}

/// Reads a key name: Enter, Escape (or Esc), Tab, Space and Backspace in any case, or a single
/// character.
pub fn classify_key(raw: &str) -> (r: Result<KeySpec, String>)
    ensures
        match r {
            Ok(k) => key_spec_of(raw@, lower_of(raw@)) == Some(k),
            Err(m) => key_spec_of(raw@, lower_of(raw@)) is None && (raw@.len() == 0 ==> m@
                == "key cannot be empty"@),
        },
{
    let n = raw.unicode_len();
    if n == 0 {
        return Err(String::from_str("key cannot be empty"));
    }
    let lower = lowercase(raw);
    let l = lower.as_str();
    let named = if text_eq(l, "enter") {
        Some(NamedKey::Enter)
    } else if text_eq(l, "escape") || text_eq(l, "esc") {
        Some(NamedKey::Escape)
    } else if text_eq(l, "tab") {
        Some(NamedKey::Tab)
    } else if text_eq(l, "space") {
        Some(NamedKey::Space)
    } else if text_eq(l, "backspace") {
        Some(NamedKey::Backspace)
    } else {
        None
    };
    if let Some(k) = named {
        return Ok(KeySpec::Named(k));
    }
    if n == 1 {
        return Ok(KeySpec::Char(raw.get_char(0)));
    }
    Err(join3(
        "unsupported key '",
        raw,
        "': use Enter, Escape, Tab, Space, Backspace, or a single Unicode character",
    ))
}

} // verus!
