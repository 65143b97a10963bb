//! The three bitmask operations: `fill`, `set` and `invert`.
//!
//! The masks are modelled with `pow2`: `fill(n)` is `2^n - 1`, `set(n)`
//! is `2^(n-1)` (bit positions are 1-indexed from the least significant
//! bit, with 0 meaning "no bit"), and `invert(n, w)` clears bit `n` out
//! of a filled mask of width `w`.

use vstd::arithmetic::power2::{lemma2_to64, pow2};
use vstd::bits::{lemma_usize_pow2_no_overflow, lemma_usize_shl_is_mul};
use vstd::prelude::*;

verus! {

/// Mask whose `count` low bits are one and whose other bits are zero.
pub open spec fn fill_spec(count: usize) -> usize
    recommends
        count < usize::BITS,
{
    (pow2(count as nat) - 1) as usize
}

/// Mask with exactly bit `count` set, 1-indexed from the least
/// significant bit; `count == 0` means no bit at all.
pub open spec fn set_spec(count: usize) -> usize
    recommends
        count <= usize::BITS,
{
    if count == 0 {
        0
    } else {
        pow2((count - 1) as nat) as usize
    }
}

/// `fill_spec(width)` with bit `count` (1-indexed) flipped off;
/// `count == 0` is the no-op sentinel and yields the empty mask.
pub open spec fn invert_spec(count: usize, width: usize) -> usize
    recommends
        count <= usize::BITS,
        count > 0 ==> width < usize::BITS,
{
    if count == 0 {
        0
    } else {
        fill_spec(width) ^ set_spec(count)
    }
}

/// A left shift of 1 by `e` is exactly `pow2(e)`, which fits in `usize`.
proof fn lemma_one_shl_is_pow2(e: usize)
    requires
        e < usize::BITS,
    ensures
        1usize << e == pow2(e as nat),
        0 < pow2(e as nat) < usize::MAX,
{
    lemma_usize_pow2_no_overflow(e as nat);
    lemma_usize_shl_is_mul(1usize, e);
}

/// Fill a mask with `count` low ones, like `0b1111` for `count == 4`.
pub fn fill(count: usize) -> (r: usize)
    requires
        count < usize::BITS,
    ensures
        r == fill_spec(count),
        r == pow2(count as nat) - 1,
{
    if count == 0 {
        proof {
            lemma2_to64();
        }
        0
    } else {
        proof {
            lemma_one_shl_is_pow2(count);
        }
        (1usize << count) - 1
    }
}

/// A mask with a single bit set: bit `count`, 1-indexed from the least
/// significant bit. `count == 0` gives the empty mask.
pub fn set(count: usize) -> (r: usize)
    requires
        count <= usize::BITS,
    ensures
        r == set_spec(count),
        count > 0 ==> r == pow2((count - 1) as nat),
        count == 0 ==> r == 0,
{
    if count == 0 {
        return 0;
    }
    proof {
        lemma_one_shl_is_pow2((count - 1) as usize);
    }
    1usize << (count - 1)
}

/// The inverse of setting bit `count` within a filled mask of `width`
/// bits: every bit of the filled mask stays one except bit `count`.
/// `count == 0` gives the empty mask, mirroring `set`.
pub fn invert(count: usize, width: usize) -> (r: usize)
    requires
        count <= usize::BITS,
        count > 0 ==> width < usize::BITS,
    ensures
        r == invert_spec(count, width),
        count == 0 ==> r == 0,
{
    if count == 0 {
        return 0;
    }
    proof {
        lemma_one_shl_is_pow2((count - 1) as usize);
    }
    fill(width) ^ (1usize << (count - 1))
}

/// Law: re-setting the bit that `invert` cleared restores the filled
/// mask. For every width and every bit position strictly inside it,
/// `invert(count, width) | set(count) == fill(width)`.
pub proof fn lemma_invert_or_set_is_fill(count: usize, width: usize)
    requires
        1 <= count < width,
        width < usize::BITS,
    ensures
        invert_spec(count, width) | set_spec(count) == fill_spec(width),
{
    let c = (count - 1) as usize;
    lemma_one_shl_is_pow2(c);
    lemma_one_shl_is_pow2(width);
    let m = fill_spec(width);
    let b = set_spec(count);
    assert(m == ((1usize << width) - 1) as usize);
    assert(b == 1usize << c);
    assert((m ^ b) | b == m) by (bit_vector)
        requires
            m == ((1usize << width) - 1) as usize,
            b == 1usize << c,
            c < width,
    ;
}

} // verus!
