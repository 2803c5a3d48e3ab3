//! Decimal ASCII numbers: the formats of `atoi` and `itoa` and the trusted
//! calls into those crates.

use vstd::prelude::*;

verus! {

/// `b` is an ASCII decimal digit.
pub open spec fn is_digit(b: u8) -> bool {
    48 <= b <= 57
}

/// Number of ASCII digits at the front of `s`.
pub open spec fn digit_run(s: Seq<u8>) -> nat
    decreases s.len(),
{
    if s.len() > 0 && is_digit(s[0]) {
        1 + digit_run(s.drop_first())
    } else {
        0
    }
}

/// The value of a string of ASCII decimal digits.
pub open spec fn decimal_value(s: Seq<u8>) -> nat
    decreases s.len(),
{
    if s.len() == 0 {
        0
    } else {
        decimal_value(s.drop_last()) * 10 + (s.last() - 48) as nat
    }
}

/// What `atoi::<u32>` reads from `t`: an optional `+`/`-` sign, then the
/// longest run of ASCII digits. No sign and no digit reads as nothing; an
/// overflowing value reads as nothing; after `-` only a zero value reads
/// (as 0). Bytes after the digits are ignored.
pub open spec fn atoi_u32(t: Seq<u8>) -> Option<u32> {
    let signed = t.len() > 0 && (t[0] == 43 || t[0] == 45);
    let off: int = if signed { 1 } else { 0 };
    let d = digit_run(t.subrange(off, t.len() as int));
    let v = decimal_value(t.subrange(off, off + d));
    if off + d == 0 {
        None
    } else if signed && t[0] == 45 {
        if v == 0 {
            Some(0u32)
        } else {
            None
        }
    } else if v <= u32::MAX {
        Some(v as u32)
    } else {
        None
    }
}

/// The shortest ASCII decimal representation of `v`.
pub open spec fn decimal_bytes(v: nat) -> Seq<u8>
    decreases v,
{
    if v < 10 {
        seq![(48 + v) as u8]
    } else {
        decimal_bytes(v / 10).push((48 + v % 10) as u8)
    }
}

/// `atoi::atoi::<u32>`: parses an unsigned decimal number from the front of
/// `text` as described by [`atoi_u32`].
#[verifier::external_body]
pub(crate) fn atoi_u32_exec(text: &[u8]) -> (r: Option<u32>)
    ensures
        r == atoi_u32(text@),
{
    atoi::atoi::<u32>(text)
}

/// `itoa::Buffer::format` for `u64`: the shortest decimal representation of
/// `v`, as bytes.
#[verifier::external_body]
pub(crate) fn itoa_u64(v: u64) -> (r: Vec<u8>)
    ensures
        r@ == decimal_bytes(v as nat),
{
    itoa::Buffer::new().format(v).as_bytes().to_vec()
}

proof fn lemma_decimal_bytes_digits(v: nat)
    ensures
        decimal_bytes(v).len() >= 1,
        forall|i: int| 0 <= i < decimal_bytes(v).len() ==> is_digit(#[trigger] decimal_bytes(v)[i]),
        decimal_value(decimal_bytes(v)) == v,
    decreases v,
{
    if v >= 10 {
        lemma_decimal_bytes_digits(v / 10);
        let s = decimal_bytes(v);
        assert(s.drop_last() =~= decimal_bytes(v / 10));
        assert(s.last() == (48 + v % 10) as u8);
        assert(((48 + v % 10) as u8 - 48) as nat == v % 10);
        assert(v == (v / 10) * 10 + v % 10);
        assert(decimal_value(s) == decimal_value(s.drop_last()) * 10 + (s.last() - 48) as nat);
        assert forall|i: int| 0 <= i < s.len() implies is_digit(#[trigger] s[i]) by {
            if i < s.len() - 1 {
                assert(s[i] == decimal_bytes(v / 10)[i]);
            }
        }
    } else {
        let s = decimal_bytes(v);
        assert(s.drop_last() =~= Seq::<u8>::empty());
        assert(decimal_value(s) == decimal_value(s.drop_last()) * 10 + (s.last() - 48) as nat);
    }
}

proof fn lemma_digit_run_all(s: Seq<u8>)
    requires
        forall|i: int| 0 <= i < s.len() ==> is_digit(#[trigger] s[i]),
    ensures
        digit_run(s) == s.len(),
    decreases s.len(),
{
    if s.len() > 0 {
        assert forall|i: int| 0 <= i < s.drop_first().len() implies is_digit(#[trigger] s.drop_first()[i]) by {
            assert(s.drop_first()[i] == s[i + 1]);
        }
        lemma_digit_run_all(s.drop_first());
    }
}

/// Parsing the decimal representation of a number that fits `u32` gives the
/// number back.
pub proof fn lemma_atoi_itoa(v: nat)
    requires
        v <= u32::MAX,
    ensures
        atoi_u32(decimal_bytes(v)) == Some(v as u32),
{
    let t = decimal_bytes(v);
    lemma_decimal_bytes_digits(v);
    assert(is_digit(t[0]));
    assert(t.subrange(0, t.len() as int) =~= t);
    lemma_digit_run_all(t);
}

} // verus!
