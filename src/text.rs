use vstd::prelude::*;

verus! {

/// Whether `t` occurs in `s`.
pub open spec fn occurs_in(t: Seq<char>, s: Seq<char>) -> bool {
    exists|i: int| 0 <= i && i + t.len() <= s.len() && #[trigger] s.subrange(i, i + t.len()) == t
}

/// Relies on str::contains with a string pattern: whether `t` is a substring of `s`.
#[verifier::external_body]
pub(crate) fn contains_text(s: &str, t: &str) -> (r: bool)
    ensures
        r == occurs_in(t@, s@),
{
    s.contains(t)
}

/// What str::to_uppercase returns for a text.
pub uninterp spec fn upper_of(s: Seq<char>) -> Seq<char>;

/// Relies on str::to_uppercase: the result depends on the characters alone.
#[verifier::external_body]
pub(crate) fn uppercase(s: &str) -> (r: String)
    ensures
        r@ == upper_of(s@),
{
    s.to_uppercase()
}

/// What str::to_lowercase returns for a text.
pub uninterp spec fn lower_of(s: Seq<char>) -> Seq<char>;

/// Relies on str::to_lowercase: the result depends on the characters alone.
#[verifier::external_body]
pub(crate) fn lowercase(s: &str) -> (r: String)
    ensures
        r@ == lower_of(s@),
{
    s.to_lowercase()
}

/// Whether regex::Regex::new accepts a pattern.
pub uninterp spec fn regex_compiles(pattern: Seq<char>) -> bool;

/// Whether the regex compiled from `pattern` matches somewhere in `text`.
pub uninterp spec fn regex_matches(pattern: Seq<char>, text: Seq<char>) -> bool;

/// Relies on regex::Regex::new: it succeeds exactly on valid patterns; the error's text is
/// whatever the crate renders.
#[verifier::external_body]
pub(crate) fn check_regex(pattern: &str) -> (r: Result<(), String>)
    ensures
        r is Ok <==> regex_compiles(pattern@),
{
    match regex::Regex::new(pattern) {
        Ok(_) => Ok(()),
        Err(e) => Err(e.to_string()),
    }
}

/// Relies on regex::Regex::is_match, on the regex compiled from a valid pattern.
#[verifier::external_body]
pub(crate) fn regex_is_match(pattern: &str, text: &str) -> (r: bool)
    requires
        regex_compiles(pattern@),
    ensures
        r == regex_matches(pattern@, text@),
{
    match regex::Regex::new(pattern) {
        Ok(re) => re.is_match(text),
        Err(_) => false,
    }
}

/// Whether two texts hold the same characters.
pub fn text_eq(a: &str, b: &str) -> (r: bool)
    ensures
        r == (a@ == b@),
{
    let x = String::from_str(a);
    let y = String::from_str(b);
    x == y
}

/// `a` followed by `b`.
pub fn join2(a: &str, b: &str) -> (r: String)
    ensures
        r@ == a@ + b@,
{
    let mut s = String::from_str(a);
    s.append(b);
    s
}

/// `a`, `b` and `c` in a row.
pub fn join3(a: &str, b: &str, c: &str) -> (r: String)
    ensures
        r@ == a@ + b@ + c@,
{
    let mut s = String::from_str(a);
    s.append(b);
    s.append(c);
    s
}

/// Decimal digits of a natural number, most significant first.
pub open spec fn digits(n: nat) -> Seq<char>
    decreases n,
{
    if n < 10 {
        seq![digit_char(n)]
    } else {
        digits(n / 10) + seq![digit_char(n % 10)]
    }
}

pub open spec fn digit_char(d: nat) -> char {
    if d == 0 { '0' }
    else if d == 1 { '1' }
    else if d == 2 { '2' }
    else if d == 3 { '3' }
    else if d == 4 { '4' }
    else if d == 5 { '5' }
    else if d == 6 { '6' }
    else if d == 7 { '7' }
    else if d == 8 { '8' }
    else { '9' }
}

fn digit_text(d: u64) -> (r: &'static str)
    requires
        d < 10,
    ensures
        r@ == seq![digit_char(d as nat)],
{
    proof {
        reveal_strlit("0");
        reveal_strlit("1");
        reveal_strlit("2");
        reveal_strlit("3");
        reveal_strlit("4");
        reveal_strlit("5");
        reveal_strlit("6");
        reveal_strlit("7");
        reveal_strlit("8");
        reveal_strlit("9");
    }
    if d == 0 { "0" }
    else if d == 1 { "1" }
    else if d == 2 { "2" }
    else if d == 3 { "3" }
    else if d == 4 { "4" }
    else if d == 5 { "5" }
    else if d == 6 { "6" }
    else if d == 7 { "7" }
    else if d == 8 { "8" }
    else { "9" }
}

/// The decimal text of `n`.
pub fn decimal_text(n: u64) -> (r: String)
    ensures
        r@ == digits(n as nat),
    decreases n,
{
    if n < 10 {
        String::from_str(digit_text(n))
    } else {
        let mut s = decimal_text(n / 10);
        s.append(digit_text(n % 10));
        s
    }
}

/// `width` digits of `n`, with leading zeros.
pub open spec fn padded_digits(n: nat, width: nat) -> Seq<char>
    decreases width,
{
    if width == 0 {
        Seq::empty()
    } else {
        padded_digits(n / 10, (width - 1) as nat) + seq![digit_char(n % 10)]
    }
}

/// `s` without its trailing '0' characters.
pub open spec fn trim_zeros(s: Seq<char>) -> Seq<char>
    decreases s.len(),
{
    if s.len() > 0 && s.last() == '0' {
        trim_zeros(s.drop_last())
    } else {
        s
    }
}

fn padded_text(n: u64, width: u64) -> (r: String)
    ensures
        r@ == padded_digits(n as nat, width as nat),
    decreases width,
{
    if width == 0 {
        String::new()
    } else {
        let mut s = padded_text(n / 10, width - 1);
        s.append(digit_text(n % 10));
        s
    }
}

fn trimmed(s: String) -> (r: String)
    ensures
        r@ == trim_zeros(s@),
    decreases s@.len(),
{
    let n = s.as_str().unicode_len();
    if n > 0 && s.as_str().get_char(n - 1) == '0' {
        let shorter = String::from_str(s.as_str().substring_char(0, n - 1));
        proof {
            assert(shorter@ == s@.drop_last());
        }
        trimmed(shorter)
    } else {
        s
    }
}

/// A value given in millionths, written as a shortest decimal: `100000` is "0.1",
/// `2000000` is "2".
pub open spec fn micros_text(m: nat) -> Seq<char> {
    if m % 1000000 == 0 {
        digits(m / 1000000)
    } else {
        digits(m / 1000000) + seq!['.'] + trim_zeros(padded_digits(m % 1000000, 6))
    }
}

pub fn render_micros(m: u64) -> (r: String)
    ensures
        r@ == micros_text(m as nat),
{
    let whole = decimal_text(m / 1000000);
    if m % 1000000 == 0 {
        whole
    } else {
        let frac = trimmed(padded_text(m % 1000000, 6));
        let mut s = whole;
        s.append(".");
        s.append(frac.as_str());
        proof {
            reveal_strlit(".");
        }
        s
    }
}

} // verus!
