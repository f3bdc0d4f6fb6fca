//! Decimal rendering of integers and the UTF-16 forms of service names.
use vstd::prelude::*;
use vstd::string::StringExecFns;

verus! {

/// The ASCII character of a decimal digit.
pub open spec fn digit_char(d: nat) -> char
    recommends
        d < 10,
{
    if d == 0 { '0' }
    else if d == 1 { '1' }
    else if d == 2 { '2' }
    else if d == 3 { '3' }
    else if d == 4 { '4' }
    else if d == 5 { '5' }
    else if d == 6 { '6' }
    else if d == 7 { '7' }
    else if d == 8 { '8' }
    else { '9' }
}

/// The decimal digits of `n`, most significant first, without leading zeros.
pub open spec fn decimal_of(n: nat) -> Seq<char>
    decreases n,
{
    if n < 10 {
        seq![digit_char(n)]
    } else {
        decimal_of(n / 10).push(digit_char(n % 10))
    }
}

/// The decimal text of a signed integer: a leading `-` for negative values.
pub open spec fn signed_decimal_of(n: int) -> Seq<char> {
    if n < 0 {
        seq!['-'] + decimal_of((-n) as nat)
    } else {
        decimal_of(n as nat)
    }
}

fn digit_str(d: u64) -> (r: &'static str)
    requires
        d < 10,
    ensures
        r@ == seq![digit_char(d as nat)],
{
    if d == 0 {
        proof { reveal_strlit("0"); }
        "0"
    } else if d == 1 {
        proof { reveal_strlit("1"); }
        "1"
    } else if d == 2 {
        proof { reveal_strlit("2"); }
        "2"
    } else if d == 3 {
        proof { reveal_strlit("3"); }
        "3"
    } else if d == 4 {
        proof { reveal_strlit("4"); }
        "4"
    } else if d == 5 {
        proof { reveal_strlit("5"); }
        "5"
    } else if d == 6 {
        proof { reveal_strlit("6"); }
        "6"
    } else if d == 7 {
        proof { reveal_strlit("7"); }
        "7"
    } else if d == 8 {
        proof { reveal_strlit("8"); }
        "8"
    } else {
        proof { reveal_strlit("9"); }
        "9"
    }
}

fn append_decimal(out: &mut String, n: u64)
    ensures
        final(out)@ == old(out)@ + decimal_of(n as nat),
    decreases n,
{
    if n < 10 {
        out.append(digit_str(n));
    } else {
        append_decimal(out, n / 10);
        out.append(digit_str(n % 10));
        proof {
            assert(final(out)@ =~= old(out)@ + decimal_of(n as nat));
        }
    }
}

/// Renders an unsigned integer in decimal.
pub fn decimal_u64(n: u64) -> (r: String)
    ensures
        r@ == decimal_of(n as nat),
{
    let mut out = String::new();
    append_decimal(&mut out, n);
    proof {
        assert(out@ =~= decimal_of(n as nat));
    }
    out
}

/// Renders a signed integer in decimal.
pub fn decimal_i64(n: i64) -> (r: String)
    ensures
        r@ == signed_decimal_of(n as int),
{
    if n < 0 {
        let mut out = String::from_str("-");
        proof { reveal_strlit("-"); }
        let m: u64 = if n == i64::MIN { 9223372036854775808u64 } else { (-n) as u64 };
        append_decimal(&mut out, m);
        out
    } else {
        decimal_u64(n as u64)
    }
}

/// The UTF-16 code units of one character.
pub open spec fn utf16_of_char(c: char) -> Seq<u16> {
    let v = c as u32;
    if v < 0x10000 {
        seq![v as u16]
    } else {
        let w = (v - 0x10000) as u32;
        seq![(0xD800 + w / 0x400) as u16, (0xDC00 + w % 0x400) as u16]
    }
}

/// The UTF-16 encoding of a character sequence.
pub open spec fn utf16_encode(s: Seq<char>) -> Seq<u16>
    decreases s.len(),
{
    if s.len() == 0 {
        Seq::empty()
    } else {
        utf16_encode(s.drop_last()) + utf16_of_char(s.last())
    }
}

/// Whether `s` holds a nul character anywhere but in its last position.
pub open spec fn has_interior_nul(s: Seq<char>) -> bool {
    s.len() > 0 && s.drop_last().contains('\0')
}

/// The nul-terminated UTF-16 units of `s`: a nul character at the end of `s`
/// is itself the terminator, otherwise one is appended.
pub open spec fn utf16_with_nul(s: Seq<char>) -> Seq<u16> {
    if s.len() > 0 && s.last() == '\0' {
        utf16_encode(s)
    } else {
        utf16_encode(s).push(0u16)
    }
}

/// Relies on widestring's `U16CString::from_str`, which encodes the text as
/// UTF-16 and refuses it exactly when a nul stands anywhere but in the final
/// position (a final nul is kept as the terminator, else one is added), and
/// on `into_vec_with_nul`, which hands out the units with the terminator.
#[verifier::external_body]
pub(crate) fn encode_wide_with_nul(s: &str) -> (r: Option<Vec<u16>>)
    ensures
        r is None <==> has_interior_nul(s@),
        r matches Some(v) ==> v@ == utf16_with_nul(s@),
{
    widestring::U16CString::from_str(s).ok().map(|w| w.into_vec_with_nul())
}

/// Relies on widestring's `U16String::from_vec` and `U16Str::to_string`: the
/// units decode when they are valid UTF-16, to the text whose encoding they
/// are, and are refused otherwise, with a description of the fault.
#[verifier::external_body]
pub(crate) fn decode_wide(units: &Vec<u16>) -> (r: Result<String, String>)
    ensures
        r matches Ok(s) ==> utf16_encode(s@) == units@,
        r is Err ==> forall|s: Seq<char>| utf16_encode(s) != units@,
{
    widestring::U16String::from_vec(units.clone()).to_string().map_err(|e| e.to_string())
}

} // verus!
