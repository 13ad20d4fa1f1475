use vstd::prelude::*;
use crate::soak::SoakConfig;
use crate::text::{join2, join3, text_eq};

verus! {

/// The value of a string of decimal digits.
pub open spec fn decimal_value(s: Seq<char>) -> nat
    decreases s.len(),
{
    if s.len() == 0 {
        0
    } else {
        decimal_value(s.drop_last()) * 10 + ((s.last() as u32) - ('0' as u32)) as nat
    }
}

pub open spec fn all_digits(s: Seq<char>) -> bool {
    forall|i: int| 0 <= i < s.len() ==> '0' <= #[trigger] s[i] && s[i] <= '9'
}

/// The number an unsigned integer parse reads from `s`, if at most `max`: an optional '+'
/// followed by one or more ASCII digits.
pub open spec fn unsigned_value(s: Seq<char>, max: nat) -> Option<nat> {
    let d = if s.len() > 0 && s[0] == '+' { s.drop_first() } else { s };
    if d.len() > 0 && all_digits(d) && decimal_value(d) <= max {
        Some(decimal_value(d))
    } else {
        None
    }
}

/// Relies on u64's FromStr: an optional '+' then ASCII digits, within range.
#[verifier::external_body]
fn parse_decimal_u64(s: &str) -> (r: Option<u64>)
    ensures
        match unsigned_value(s@, u64::MAX as nat) {
            Some(v) => r == Some(v as u64),
            None => r is None,
        },
{
    s.parse::<u64>().ok()
}

/// Relies on u32's FromStr: an optional '+' then ASCII digits, within range.
#[verifier::external_body]
fn parse_decimal_u32(s: &str) -> (r: Option<u32>)
    ensures
        match unsigned_value(s@, u32::MAX as nat) {
            Some(v) => r == Some(v as u32),
            None => r is None,
        },
{
    s.parse::<u32>().ok()
}

pub open spec fn invalid_number(value: Seq<char>, flag: Seq<char>) -> Seq<char> {
    "Invalid numeric value for "@ + flag + ": "@ + value
}

/// Reads a command-line value as a `u64`.
pub fn parse_u64(value: &str, flag: &str) -> (r: Result<u64, String>)
    ensures
        match unsigned_value(value@, u64::MAX as nat) {
            Some(v) => r == Ok::<u64, String>(v as u64),
            None => r matches Err(m) && m@ == invalid_number(value@, flag@),
        },
{
    match parse_decimal_u64(value) {
        Some(v) => Ok(v),
        None => {
            let mut m = join3("Invalid numeric value for ", flag, ": ");
            m.append(value);
            Err(m)
        },
    }
}

/// Reads a command-line value as a `u32`.
pub fn parse_u32(value: &str, flag: &str) -> (r: Result<u32, String>)
    ensures
        match unsigned_value(value@, u32::MAX as nat) {
            Some(v) => r == Ok::<u32, String>(v as u32),
            None => r matches Err(m) && m@ == invalid_number(value@, flag@),
        },
{
    match parse_decimal_u32(value) {
        Some(v) => Ok(v),
        None => {
            let mut m = join3("Invalid numeric value for ", flag, ": ");
            m.append(value);
            Err(m)
        },
    }
}

/// The configuration after one `flag value` pair, if the flag is known and the value reads.
pub open spec fn with_flag(cfg: SoakConfig, flag: Seq<char>, value: Seq<char>) -> Option<SoakConfig> {
    match unsigned_value(value, u64::MAX as nat) {
        None => None,
        Some(v) => if flag == "--ticks"@ {
            Some(SoakConfig { ticks: v as u64, ..cfg })
        } else if flag == "--interval-ms"@ {
            Some(SoakConfig { interval_ms: v as u64, ..cfg })
        } else if flag == "--check-interval-ms"@ {
            Some(SoakConfig { check_interval_ms: v as u64, ..cfg })
        } else if flag == "--cooldown-ms"@ {
            Some(SoakConfig { cooldown_ms: v as u64, ..cfg })
        } else if flag == "--max-runtime-ms"@ {
            Some(SoakConfig { max_runtime_ms: v as u64, ..cfg })
        } else {
            None
        },
    }
}

/// The configuration that `args[i..]`, read as `flag value` pairs, makes of `cfg`.
pub open spec fn with_flags(cfg: SoakConfig, args: Seq<Seq<char>>, i: int) -> Option<SoakConfig>
    decreases args.len() - i,
{
    if i < 0 || i >= args.len() {
        Some(cfg)
    } else if i + 1 >= args.len() {
        None
    } else {
        match with_flag(cfg, args[i], args[i + 1]) {
            Some(next) => with_flags(next, args, i + 2),
            None => None,
        }
    }
}

/// The default soak configuration.
pub open spec fn default_soak() -> SoakConfig {
    SoakConfig { ticks: 25000, interval_ms: 100, check_interval_ms: 100, cooldown_ms: 50, max_runtime_ms: 2000 }
}

pub open spec fn arg_texts(args: Seq<String>) -> Seq<Seq<char>> {
    args.map_values(|s: String| s@)
}

/// A soak configuration from `flag value` pairs over the defaults. Flags: `--ticks`,
/// `--interval-ms`, `--check-interval-ms`, `--cooldown-ms`, `--max-runtime-ms`.
pub fn soak_config_from_args(args: &[String]) -> (r: Result<SoakConfig, String>)
    ensures
        match with_flags(default_soak(), arg_texts(args@), 0) {
            Some(c) => r == Ok::<SoakConfig, String>(c),
            None => r is Err,
        },
{
    let ghost start = default_soak();
    let mut cfg = SoakConfig::default();
    let n = args.len();
    let mut i: usize = 0;
    while i < n
        invariant
            n == args@.len(),
            start == default_soak(),
            i <= n + 1,
            i < n ==> with_flags(start, arg_texts(args@), 0) == with_flags(cfg, arg_texts(args@), i as int),
            i >= n ==> with_flags(start, arg_texts(args@), 0) == Some(cfg),
        decreases n + 1 - i,
    {
        let flag = args[i].as_str();
        proof {
            assert(arg_texts(args@)[i as int] == flag@);
        }
        if i + 1 >= n {
            proof {
                assert(with_flags(cfg, arg_texts(args@), i as int) is None);
            }
            return Err(join2("Missing value for ", flag));
        }
        let value = args[i + 1].as_str();
        proof {
            assert(arg_texts(args@)[i + 1] == value@);
        }
        let v = match parse_u64(value, flag) {
            Ok(v) => v,
            Err(e) => {
                proof {
                    assert(with_flag(cfg, flag@, value@) is None);
                    assert(with_flags(cfg, arg_texts(args@), i as int) is None);
                }
                return Err(e);
            },
        };
        if text_eq(flag, "--ticks") {
            cfg.ticks = v;
        } else if text_eq(flag, "--interval-ms") {
            cfg.interval_ms = v;
        } else if text_eq(flag, "--check-interval-ms") {
            cfg.check_interval_ms = v;
        } else if text_eq(flag, "--cooldown-ms") {
            cfg.cooldown_ms = v;
        } else if text_eq(flag, "--max-runtime-ms") {
            cfg.max_runtime_ms = v;
        } else {
            return Err(join2("Unknown flag ", flag));
        }
        i = i + 2;
    }
    Ok(cfg)
}

} // verus!
