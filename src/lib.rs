//! Two stateless primitives meant to be exported across a foreign-function
//! boundary: wrapping 32-bit addition and in-place reversal of a byte buffer.
//!
//! The boundary itself (turning a raw address and a length into a borrowed
//! slice) lives outside the verified library; everything here works on safe
//! Rust values and is proved against the contracts below.
use vstd::prelude::*;

verus! {

/// 2^32, the modulus of 32-bit two's-complement arithmetic.
pub open spec fn two_pow_32() -> int {
    0x1_0000_0000
}

/// The 32-bit two's-complement reading of the integer `x`: the unique value in
/// `[i32::MIN, i32::MAX]` that is congruent to `x` modulo 2^32.
pub open spec fn wrap_i32(x: int) -> int {
    let m = x % two_pow_32();
    if m > i32::MAX as int {
        m - two_pow_32()
    } else {
        m
    }
}

/// Adds two 32-bit signed integers with two's-complement wraparound.
///
/// Never fails: a sum outside the range of `i32` wraps modulo 2^32.
pub fn add(a: i32, b: i32) -> (r: i32)
    ensures
        r as int == wrap_i32(a as int + b as int),
{
    a.wrapping_add(b)
}

/// The bytes of `s` in reverse order: position `i` holds what `s` held at
/// `len - 1 - i`.
pub open spec fn reversed(s: Seq<u8>) -> Seq<u8> {
    Seq::new(s.len(), |i: int| s[s.len() - 1 - i])
}

/// Reverses the bytes of `buf` in place.
///
/// For every `i < len / 2` the bytes at `i` and `len - 1 - i` are exchanged,
/// in one pass and without allocating. An empty buffer is left untouched and
/// no element of it is read.
pub fn reverse(buf: &mut [u8])
    ensures
        final(buf)@ == reversed(old(buf)@),
{
    let n = buf.len();
    let mut i: usize = 0;
    while i < n / 2
        invariant
            n == buf@.len(),
            n == old(buf)@.len(),
            i <= n / 2,
            forall|k: int| 0 <= k < i ==> #[trigger] buf@[k] == old(buf)@[n - 1 - k],
            forall|k: int| 0 <= k < i ==> #[trigger] buf@[n - 1 - k] == old(buf)@[k],
            forall|k: int| i <= k < n - i ==> buf@[k] == old(buf)@[k],
        decreases n / 2 - i,
    {
        let j = n - 1 - i;
        let t = buf[i];
        buf[i] = buf[j];
        buf[j] = t;
        i = i + 1;
    }
    assert forall|k: int| 0 <= k < n implies buf@[k] == reversed(old(buf)@)[k] by {
        if k >= n - i {
            let m = n - 1 - k;
            assert(buf@[n - 1 - m] == old(buf)@[m]);
        }
    }
    assert(buf@ =~= reversed(old(buf)@));
}

/// Reversing twice gives back the original bytes, for buffers of every length.
pub proof fn lemma_reverse_involution(s: Seq<u8>)
    ensures
        reversed(reversed(s)) == s,
{
    assert(reversed(reversed(s)) =~= s);
}

/// A buffer of at most one byte (in particular an empty one) is its own
/// reversal, so `reverse` leaves it as it was.
pub proof fn lemma_reverse_short_unchanged(s: Seq<u8>)
    requires
        s.len() <= 1,
    ensures
        reversed(s) == s,
{
    assert(reversed(s) =~= s);
}

} // verus!
