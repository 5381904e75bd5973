//! Decimal rendering and parsing of small integers, and big-endian byte
//! encodings, as used by the wire framing.

use vstd::prelude::*;

verus! {

/// Decimal digits (ASCII) of `n`, most significant first, no leading zeros
/// (the single digit `0` for zero).
pub open spec fn dec_bytes(n: nat) -> Seq<u8>
    decreases n,
{
    if n < 10 {
        seq![(48 + n) as u8]
    } else {
        dec_bytes(n / 10).push((48 + n % 10) as u8)
    }
}

/// Numeric value of a run of ASCII digits, most significant first.
pub open spec fn dec_val(s: Seq<u8>) -> nat
    decreases s.len(),
{
    if s.len() == 0 {
        0
    } else {
        (dec_val(s.drop_last()) * 10 + (s.last() - 48)) as nat
    }
}

pub open spec fn is_digit(b: u8) -> bool {
    48 <= b <= 57
}

pub proof fn lemma_dec_bytes_digits(n: nat)
    ensures
        dec_bytes(n).len() >= 1,
        forall|i: int| 0 <= i < dec_bytes(n).len() ==> is_digit(#[trigger] dec_bytes(n)[i]),
        dec_bytes(n)[0] == 48 <==> n == 0,
    decreases n,
{
    if n >= 10 {
        lemma_dec_bytes_digits(n / 10);
    }
}

/// Rendering then reading a number gives the number back.
pub proof fn lemma_dec_roundtrip(n: nat)
    ensures
        dec_val(dec_bytes(n)) == n,
    decreases n,
{
    if n < 10 {
        assert(dec_bytes(n) =~= seq![(48 + n) as u8]);
        assert(dec_bytes(n).drop_last() =~= Seq::<u8>::empty());
        assert(dec_val(Seq::<u8>::empty()) == 0);
        assert(dec_val(dec_bytes(n)) == n);
    } else {
        lemma_dec_roundtrip(n / 10);
        let s = dec_bytes(n);
        assert(s == dec_bytes(n / 10).push((48 + n % 10) as u8));
        assert(s.drop_last() =~= dec_bytes(n / 10));
        assert(s.last() == (48 + n % 10) as u8);
        assert(s.last() - 48 == n % 10);
        assert(dec_val(s) == (dec_val(s.drop_last()) * 10 + (s.last() - 48)) as nat);
        assert(dec_val(s.drop_last()) == n / 10);
        assert((n / 10) * 10 + n % 10 == n);
        assert(dec_val(s) == n);
    }
}

/// A bound on the digit count: numbers below `10^k` take at most `k` digits.
pub proof fn lemma_dec_bytes_len(n: nat, k: nat)
    requires
        n < pow10(k),
        k >= 1,
    ensures
        dec_bytes(n).len() <= k,
    decreases n,
{
    if n >= 10 {
        lemma_dec_bytes_len(n / 10, (k - 1) as nat);
    }
}

pub open spec fn pow10(k: nat) -> nat
    decreases k,
{
    if k == 0 {
        1
    } else {
        10 * pow10((k - 1) as nat)
    }
}

/// Appends the decimal rendering of `n` to `out`.
pub fn push_dec_u16(out: &mut Vec<u8>, n: u16)
    ensures
        final(out)@ == old(out)@ + dec_bytes(n as nat),
    decreases n,
{
    if n < 10 {
        out.push((48 + n) as u8);
        assert(final(out)@ =~= old(out)@ + dec_bytes(n as nat));
    } else {
        push_dec_u16(out, n / 10);
        out.push((48 + n % 10) as u8);
        assert(final(out)@ =~= old(out)@ + dec_bytes(n as nat));
    }
}

/// Big-endian two-byte encoding of a 16-bit value.
pub open spec fn be16(n: u16) -> Seq<u8> {
    seq![(n / 256) as u8, (n % 256) as u8]
}

/// The value read back from a big-endian two-byte encoding.
pub open spec fn be16_val(hi: u8, lo: u8) -> u16 {
    (hi * 256 + lo) as u16
}

pub fn push_be16(out: &mut Vec<u8>, n: u16)
    ensures
        final(out)@ == old(out)@ + be16(n),
{
    out.push((n / 256) as u8);
    out.push((n % 256) as u8);
    assert(final(out)@ =~= old(out)@ + be16(n));
}

/// Reads a big-endian 16-bit value from two bytes.
pub fn read_be16(hi: u8, lo: u8) -> (r: u16)
    ensures
        r == be16_val(hi, lo),
{
    (hi as u16) * 256 + (lo as u16)
}

/// Big-endian four-byte encoding of a 16-bit port, as the bridge announces
/// the allocated port in its first frame.
pub open spec fn be32_of_u16(n: u16) -> Seq<u8> {
    seq![0u8, 0u8, (n / 256) as u8, (n % 256) as u8]
}

pub fn push_be32_of_u16(out: &mut Vec<u8>, n: u16)
    ensures
        final(out)@ == old(out)@ + be32_of_u16(n),
{
    out.push(0);
    out.push(0);
    out.push((n / 256) as u8);
    out.push((n % 256) as u8);
    assert(final(out)@ =~= old(out)@ + be32_of_u16(n));
}

} // verus!
