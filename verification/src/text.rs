//! Small helpers for comparing and building strings, stated over the
//! character sequences that strings view as.
use vstd::prelude::*;
use vstd::string::{StrSliceExecFns, StringExecFns};

verus! {

/// The error that parsing a name into one of the library's enumerations
/// gives when no variant carries that name.
#[verifier::external_type_specification]
#[verifier::external_body]
pub struct ExParseError(strum::ParseError);

/// Builds `strum::ParseError::VariantNotFound`, the only variant of that
/// enumeration. Nothing is stated of the value: Verus sees the type as opaque.
#[verifier::external_body]
pub(crate) fn variant_not_found() -> strum::ParseError {
    strum::ParseError::VariantNotFound
}

/// Whether two string slices hold the same characters.
pub fn str_matches(s: &str, name: &str) -> (b: bool)
    ensures
        b == (s@ == name@),
{
    let n = s.unicode_len();
    let m = name.unicode_len();
    if n != m {
        return false;
    }
    let mut i: usize = 0;
    while i < n
        invariant
            n == s@.len(),
            m == name@.len(),
            n == m,
            i <= n,
            forall|j: int| 0 <= j < i ==> s@[j] == name@[j],
        decreases n - i,
    {
        if s.get_char(i) != name.get_char(i) {
            return false;
        }
        i = i + 1;
    }
    assert(s@ =~= name@);
    true
}


/// The decimal digit character for `d` (taken modulo 10).
pub open spec fn digit_char(d: int) -> char {
    let d = d % 10;
    if d == 0 {
        '0'
    } else if d == 1 {
        '1'
    } else if d == 2 {
        '2'
    } else if d == 3 {
        '3'
    } else if d == 4 {
        '4'
    } else if d == 5 {
        '5'
    } else if d == 6 {
        '6'
    } else if d == 7 {
        '7'
    } else if d == 8 {
        '8'
    } else {
        '9'
    }
}

/// The decimal representation of a natural number, without leading zeros.
pub open spec fn decimal(n: nat) -> Seq<char>
    decreases n,
{
    if n < 10 {
        seq![digit_char(n as int)]
    } else {
        decimal(n / 10).push(digit_char(n as int))
    }
}

/// The one-character string of the decimal digit `d`.
fn digit_str(d: u64) -> (s: &'static str)
    requires
        d < 10,
    ensures
        s@ == seq![digit_char(d as int)],
{
    proof {
        reveal_strlit("0");
        reveal_strlit("1");
        reveal_strlit("2");
        reveal_strlit("3");
        reveal_strlit("4");
        reveal_strlit("5");
        reveal_strlit("6");
        reveal_strlit("7");
        reveal_strlit("8");
        reveal_strlit("9");
    }
    let s = if d == 0 {
        "0"
    } else if d == 1 {
        "1"
    } else if d == 2 {
        "2"
    } else if d == 3 {
        "3"
    } else if d == 4 {
        "4"
    } else if d == 5 {
        "5"
    } else if d == 6 {
        "6"
    } else if d == 7 {
        "7"
    } else if d == 8 {
        "8"
    } else {
        "9"
    };
    assert(s@ =~= seq![digit_char(d as int)]);
    s
}

/// Appends the decimal representation of `n` to `s`.
pub fn push_decimal(s: &mut String, n: u64)
    ensures
        final(s)@ == old(s)@ + decimal(n as nat),
    decreases n,
{
    if n < 10 {
        s.append(digit_str(n));
    } else {
        push_decimal(s, n / 10);
        s.append(digit_str(n % 10));
        assert(decimal(n as nat) =~= decimal((n / 10) as nat).push(digit_char(n as int)));
        assert(digit_char(n as int) == digit_char((n % 10) as int));
    }
}

} // verus!
