//! Unique raw-capture file names.
//!
//! Each capture is persisted under `<index>.tga`, where the index is a
//! monotonically increasing timestamp. Distinct indices give distinct names,
//! so two captures fired back to back — even within the same millisecond —
//! never collide on disk.

use vstd::prelude::*;
use vstd::arithmetic::div_mod::lemma_fundamental_div_mod;

verus! {

/// The ASCII decimal digits of `n`, most significant first.
pub open spec fn dec_digits(n: u128) -> Seq<u8>
    decreases n,
{
    if n < 10 {
        seq![(48 + n) as u8]
    } else {
        dec_digits(n / 10).push((48 + n % 10) as u8)
    }
}

/// The number a digit sequence denotes, read most significant first.
pub open spec fn dec_value(s: Seq<u8>) -> int
    decreases s.len(),
{
    if s.len() == 0 {
        0
    } else {
        dec_value(s.drop_last()) * 10 + (s.last() - 48)
    }
}

/// Reading the digits of `n` back gives `n`: decimal formatting loses
/// nothing.
pub proof fn lemma_dec_value_of_digits(n: u128)
    ensures
        dec_value(dec_digits(n)) == n,
    decreases n,
{
    if n < 10 {
        assert(dec_digits(n).drop_last() =~= Seq::<u8>::empty());
        assert(dec_value(dec_digits(n)) == dec_value(dec_digits(n).drop_last()) * 10 + (
        dec_digits(n).last() - 48));
    } else {
        lemma_dec_value_of_digits(n / 10);
        assert(dec_digits(n).drop_last() =~= dec_digits(n / 10));
        lemma_fundamental_div_mod(n as int, 10);
    }
}

/// Distinct numbers have distinct decimal digit strings.
pub proof fn lemma_dec_digits_injective(a: u128, b: u128)
    requires
        a != b,
    ensures
        dec_digits(a) != dec_digits(b),
{
    if dec_digits(a) == dec_digits(b) {
        lemma_dec_value_of_digits(a);
        lemma_dec_value_of_digits(b);
    }
}

/// The raw capture format's file extension, `.tga`.
pub open spec fn raw_extension() -> Seq<u8> {
    seq![46u8, 116u8, 103u8, 97u8]
}

/// The file name a capture with index `index` is persisted under:
/// its decimal digits followed by the raw extension.
pub open spec fn raw_name(index: u128) -> Seq<u8> {
    dec_digits(index) + raw_extension()
}

/// Captures with distinct indices are persisted under distinct file names,
/// so rapid repeated fires never overwrite one another.
pub proof fn lemma_raw_names_distinct(a: u128, b: u128)
    requires
        a != b,
    ensures
        raw_name(a) != raw_name(b),
{
    lemma_dec_digits_injective(a, b);
    if raw_name(a) == raw_name(b) {
        assert(dec_digits(a).len() == raw_name(a).len() - 4);
        assert forall|i: int| 0 <= i < dec_digits(a).len() implies dec_digits(a)[i] == dec_digits(
            b,
        )[i] by {
            assert(raw_name(a)[i] == dec_digits(a)[i]);
            assert(raw_name(b)[i] == dec_digits(b)[i]);
        }
        assert(dec_digits(a) =~= dec_digits(b));
    }
}

/// Appends the decimal digits of `n` to `out`, most significant first.
fn push_digits(n: u128, out: &mut Vec<u8>)
    ensures
        final(out)@ == old(out)@ + dec_digits(n),
    decreases n,
{
    if n < 10 {
        out.push(48 + n as u8);
        assert(out@ =~= old(out)@ + dec_digits(n));
    } else {
        push_digits(n / 10, out);
        out.push(48 + (n % 10) as u8);
        assert(out@ =~= old(out)@ + dec_digits(n));
    }
}

/// The file name for capture index `index`, as bytes: `<decimal digits>.tga`.
pub fn raw_file_name(index: u128) -> (r: Vec<u8>)
    ensures
        r@ == raw_name(index),
{
    let mut out: Vec<u8> = Vec::new();
    push_digits(index, &mut out);
    out.push(46);
    out.push(116);
    out.push(103);
    out.push(97);
    proof {
        assert(out@ =~= raw_name(index));
    }
    out
}

} // verus!
