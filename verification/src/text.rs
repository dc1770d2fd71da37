//! Byte and string helpers: decimal rendering, byte-wise comparison and
//! prefix tests for `str`, and string building.

use vstd::prelude::*;
use vstd::string::StringSliceAdditionalSpecFns;

verus! {

/// ASCII decimal rendering of a natural number (no sign, no leading zeros).
pub open spec fn decimal_ascii(n: nat) -> Seq<u8>
    decreases n,
{
    if n < 10 {
        seq![(48 + n) as u8]
    } else {
        decimal_ascii(n / 10).push((48 + n % 10) as u8)
    }
}

/// The same rendering as characters.
pub open spec fn decimal_chars(n: nat) -> Seq<char> {
    decimal_ascii(n).map_values(|b: u8| b as char)
}

/// Appends the decimal rendering of `n` to `out`.
pub fn push_decimal_bytes(out: &mut Vec<u8>, n: u64)
    ensures
        final(out)@ == old(out)@ + decimal_ascii(n as nat),
    decreases n,
{
    if n >= 10 {
        push_decimal_bytes(out, n / 10);
    }
    let d: u8 = (n % 10) as u8;
    out.push(48u8 + d);
    proof {
        assert(old(out)@ + decimal_ascii(n as nat) =~= (if n >= 10 {
            old(out)@ + decimal_ascii((n / 10) as nat)
        } else {
            old(out)@
        }).push((48 + n % 10) as u8));
    }
}


/// Appends one character to a string.
#[verifier::external_body]
pub(crate) fn push_char(s: &mut String, c: char)
    ensures
        final(s)@ == old(s)@.push(c),
{
    s.push(c);
}

/// Appends the decimal rendering of `n` to `out`.
pub fn push_decimal_str(out: &mut String, n: u64)
    ensures
        final(out)@ == old(out)@ + decimal_chars(n as nat),
    decreases n,
{
    if n >= 10 {
        push_decimal_str(out, n / 10);
    }
    let d: u8 = (n % 10) as u8;
    let c: char = (48u8 + d) as char;
    push_char(out, c);
    proof {
        assert(old(out)@ + decimal_chars(n as nat) =~= (if n >= 10 {
            old(out)@ + decimal_chars((n / 10) as nat)
        } else {
            old(out)@
        }).push(((48 + n % 10) as u8) as char));
    }
}

/// Signed decimal rendering: a minus sign before the magnitude of a negative number.
pub open spec fn signed_decimal_chars(n: int) -> Seq<char> {
    if n < 0 {
        seq!['-'] + decimal_chars((-n) as nat)
    } else {
        decimal_chars(n as nat)
    }
}

/// Appends the signed decimal rendering of `n` to `out`.
pub fn push_signed_decimal_str(out: &mut String, n: i64)
    ensures
        final(out)@ == old(out)@ + signed_decimal_chars(n as int),
{
    if n < 0 {
        push_char(out, '-');
        let m: u64 = (-(n as i128)) as u64;
        push_decimal_str(out, m);
        assert(final(out)@ =~= old(out)@ + signed_decimal_chars(n as int));
    } else {
        push_decimal_str(out, n as u64);
    }
}

/// A string holding a copy of `s`.
pub fn string_of(s: &str) -> (res: String)
    ensures
        res@ == s@,
{
    s.to_owned()
}

/// Byte-wise equality of two string slices, which is equality of their texts.
pub fn str_eq(a: &str, b: &str) -> (res: bool)
    ensures
        res == (a@ == b@),
        res == (a.spec_bytes() == b.spec_bytes()),
{
    let x = a.as_bytes();
    let y = b.as_bytes();
    proof {
        vstd::utf8::encode_utf8_decode_utf8(a@);
        vstd::utf8::encode_utf8_decode_utf8(b@);
    }
    if x.len() != y.len() {
        return false;
    }
    let mut i: usize = 0;
    while i < x.len()
        invariant
            x@ == a.spec_bytes(),
            y@ == b.spec_bytes(),
            x@.len() == y@.len(),
            i <= x@.len(),
            forall|j: int| 0 <= j < i ==> x@[j] == y@[j],
        decreases x@.len() - i,
    {
        if x[i] != y[i] {
            return false;
        }
        i = i + 1;
    }
    assert(x@ =~= y@);
    true
}

/// Whether `p` is a byte prefix of `s`.
pub open spec fn bytes_prefix(p: Seq<u8>, s: Seq<u8>) -> bool {
    p.len() <= s.len() && s.subrange(0, p.len() as int) == p
}

/// Byte-prefix test on string slices.
pub fn str_starts_with(s: &str, p: &str) -> (res: bool)
    ensures
        res == bytes_prefix(p.spec_bytes(), s.spec_bytes()),
{
    let x = s.as_bytes();
    let y = p.as_bytes();
    if y.len() > x.len() {
        return false;
    }
    let mut i: usize = 0;
    while i < y.len()
        invariant
            x@ == s.spec_bytes(),
            y@ == p.spec_bytes(),
            y@.len() <= x@.len(),
            i <= y@.len(),
            forall|j: int| 0 <= j < i ==> x@[j] == y@[j],
        decreases y@.len() - i,
    {
        if x[i] != y[i] {
            assert(x@.subrange(0, y@.len() as int)[i as int] != y@[i as int]);
            return false;
        }
        i = i + 1;
    }
    assert(x@.subrange(0, y@.len() as int) =~= y@);
    true
}

} // verus!
