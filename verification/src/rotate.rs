//! Rotation of every lane of a vector by a constant distance, with fast
//! paths for the distances 16 and 8 where the target can shuffle.

use vstd::prelude::*;
use crate::lane::rotr;
use crate::vector::{U32x4, bytes_of, halves_of, lanes_of_bytes, lanes_of_halves};
use crate::vector::{lanes_or, lanes_shl, lanes_shr, shuffled};

verus! {

/// What the target offers, fixed when the program is built.
#[derive(Clone, Copy, Debug, PartialEq, Eq)]
pub struct Capabilities {
    /// Whether the specialized paths may be taken at all.
    pub specialized: bool,
    /// Whether the target can permute the sixteen bytes of a vector.
    pub wide_byte_shuffle: bool,
    /// Whether the target can permute or reverse 16-bit lanes.
    pub narrow_shuffle: bool,
}

/// Byte permutation that swaps the two halves of every 32-bit lane.
pub const SWAP_HALVES_BYTES: [u8; 16] = [2, 3, 0, 1, 6, 7, 4, 5, 10, 11, 8, 9, 14, 15, 12, 13];

/// Permutation of 16-bit lanes that swaps each adjacent pair.
pub const SWAP_HALVES: [u8; 8] = [1, 0, 3, 2, 5, 4, 7, 6];

/// Byte permutation that moves every byte of a 32-bit lane one place
/// down, the lowest byte going to the top.
pub const CYCLE_BYTES: [u8; 16] = [1, 2, 3, 0, 5, 6, 7, 4, 9, 10, 11, 8, 13, 14, 15, 12];

/// Every lane of `v` rotated right by `n` bits.
pub open spec fn rotated(v: Seq<u32>, n: u32) -> Seq<u32> {
    Seq::new(v.len(), |i: int| rotr(v[i], n))
}

/// What the two shifts and the or compute.
pub open spec fn rotated_by_shifts(v: Seq<u32>, n: u32) -> Seq<u32> {
    lanes_or(lanes_shr(v, n), lanes_shl(v, (32 - n) as u32))
}

/// What the byte shuffle for the distance 16 computes.
pub open spec fn halves_swapped_by_bytes(v: Seq<u32>) -> Seq<u32> {
    lanes_of_bytes(shuffled(bytes_of(v), SWAP_HALVES_BYTES@))
}

/// What the shuffle of 16-bit lanes for the distance 16 computes.
pub open spec fn halves_swapped(v: Seq<u32>) -> Seq<u32> {
    lanes_of_halves(shuffled(halves_of(v), SWAP_HALVES@))
}

/// What the byte shuffle for the distance 8 computes.
pub open spec fn bytes_cycled(v: Seq<u32>) -> Seq<u32> {
    lanes_of_bytes(shuffled(bytes_of(v), CYCLE_BYTES@))
}

/// The path taken for the distance 16 under `caps`, applied to `v`.
pub open spec fn rotated_16_with(caps: Capabilities, v: Seq<u32>) -> Seq<u32> {
    if caps.wide_byte_shuffle {
        halves_swapped_by_bytes(v)
    } else if caps.narrow_shuffle {
        halves_swapped(v)
    } else {
        rotated_by_shifts(v, 16)
    }
}

/// The path taken for the distance 8 under `caps`, applied to `v`.
pub open spec fn rotated_8_with(caps: Capabilities, v: Seq<u32>) -> Seq<u32> {
    if caps.wide_byte_shuffle {
        bytes_cycled(v)
    } else {
        rotated_by_shifts(v, 8)
    }
}

/// The path taken for the distance `n` under `caps`, applied to `v`:
/// shifts where the specialized paths are switched off or `n` is neither
/// 16 nor 8, else the path for that distance.
pub open spec fn rotated_with(caps: Capabilities, v: Seq<u32>, n: u32) -> Seq<u32> {
    if !caps.specialized {
        rotated_by_shifts(v, n)
    } else if n == 16 {
        rotated_16_with(caps, v)
    } else if n == 8 {
        rotated_8_with(caps, v)
    } else {
        rotated_by_shifts(v, n)
    }
}

proof fn lemma_swap_halves_bytes(x: u32)
    ensures
        (((x >> 16) as u8) as u32) | ((((x >> 24) as u8) as u32) << 8) | (((x as u8) as u32) << 16)
            | ((((x >> 8) as u8) as u32) << 24) == (x >> 16) | (x << 16),
{
    assert((((x >> 16) as u8) as u32) | ((((x >> 24) as u8) as u32) << 8) | (((x as u8) as u32)
        << 16) | ((((x >> 8) as u8) as u32) << 24) == (x >> 16) | (x << 16)) by (bit_vector);
}

proof fn lemma_swap_halves(x: u32)
    ensures
        (((x >> 16) as u16) as u32) | (((x as u16) as u32) << 16) == (x >> 16) | (x << 16),
{
    assert((((x >> 16) as u16) as u32) | (((x as u16) as u32) << 16) == (x >> 16) | (x << 16))
        by (bit_vector);
}

proof fn lemma_cycle_bytes(x: u32)
    ensures
        (((x >> 8) as u8) as u32) | ((((x >> 16) as u8) as u32) << 8) | ((((x >> 24) as u8) as u32)
            << 16) | (((x as u8) as u32) << 24) == (x >> 8) | (x << 24),
{
    assert((((x >> 8) as u8) as u32) | ((((x >> 16) as u8) as u32) << 8) | ((((x >> 24) as u8)
        as u32) << 16) | (((x as u8) as u32) << 24) == (x >> 8) | (x << 24)) by (bit_vector);
}

/// Shifting right by `n`, shifting left by `32 - n` and joining the two
/// with or is the rotation by `n`.
pub proof fn lemma_shifts_rotate(v: Seq<u32>, n: u32)
    requires
        1 <= n <= 31,
    ensures
        rotated_by_shifts(v, n) == rotated(v, n),
{
    assert(rotated_by_shifts(v, n) =~= rotated(v, n));
}

/// Swapping the halves of every lane by a byte shuffle is the rotation
/// by 16.
pub proof fn lemma_byte_shuffle_rotates_16(v: Seq<u32>)
    requires
        v.len() == 4,
    ensures
        halves_swapped_by_bytes(v) == rotated(v, 16),
{
    let s = shuffled(bytes_of(v), SWAP_HALVES_BYTES@);
    assert forall|j: int| 0 <= j < 4 implies lanes_of_bytes(s)[j] == rotr(v[j], 16) by {
        lemma_swap_halves_bytes(v[j]);
    }
    assert(lanes_of_bytes(s) =~= rotated(v, 16));
}

/// Swapping each adjacent pair of 16-bit lanes is the rotation by 16.
pub proof fn lemma_half_shuffle_rotates_16(v: Seq<u32>)
    requires
        v.len() == 4,
    ensures
        halves_swapped(v) == rotated(v, 16),
{
    let s = shuffled(halves_of(v), SWAP_HALVES@);
    assert forall|j: int| 0 <= j < 4 implies lanes_of_halves(s)[j] == rotr(v[j], 16) by {
        lemma_swap_halves(v[j]);
    }
    assert(lanes_of_halves(s) =~= rotated(v, 16));
}

/// Moving the bytes of every lane one place down is the rotation by 8.
pub proof fn lemma_byte_shuffle_rotates_8(v: Seq<u32>)
    requires
        v.len() == 4,
    ensures
        bytes_cycled(v) == rotated(v, 8),
{
    let s = shuffled(bytes_of(v), CYCLE_BYTES@);
    assert forall|j: int| 0 <= j < 4 implies lanes_of_bytes(s)[j] == rotr(v[j], 8) by {
        lemma_cycle_bytes(v[j]);
    }
    assert(lanes_of_bytes(s) =~= rotated(v, 8));
}

/// Rotates every lane right by `n` bits with two shifts and an or. This
/// works on every target and for every distance.
#[inline(always)]
pub fn rotate_right_any(vec: U32x4, n: u32) -> (r: U32x4)
    requires
        1 <= n <= 31,
    ensures
        r@ == rotated_by_shifts(vec@, n),
        r@ == rotated(vec@, n),
{
    proof {
        lemma_shifts_rotate(vec@, n);
    }
    vec.shr(n).or(vec.shl(32 - n))
}

/// Rotates every lane right by 16 bits, by the fastest means that `caps`
/// offers: a byte shuffle, else a shuffle of 16-bit lanes, else shifts.
#[inline(always)]
pub fn rotate_right_16(caps: Capabilities, vec: U32x4) -> (r: U32x4)
    ensures
        r@ == rotated_16_with(caps, vec@),
        r@ == rotated(vec@, 16),
{
    if caps.wide_byte_shuffle {
        proof {
            lemma_byte_shuffle_rotates_16(vec@);
        }
        vec.to_bytes().shuffle(&SWAP_HALVES_BYTES).to_lanes()
    } else if caps.narrow_shuffle {
        proof {
            lemma_half_shuffle_rotates_16(vec@);
        }
        vec.to_halves().shuffle(&SWAP_HALVES).to_lanes()
    } else {
        rotate_right_any(vec, 16)
    }
}

/// Rotates every lane right by 8 bits, by the fastest means that `caps`
/// offers: a byte shuffle, else shifts.
#[inline(always)]
pub fn rotate_right_8(caps: Capabilities, vec: U32x4) -> (r: U32x4)
    ensures
        r@ == rotated_8_with(caps, vec@),
        r@ == rotated(vec@, 8),
{
    if caps.wide_byte_shuffle {
        proof {
            lemma_byte_shuffle_rotates_8(vec@);
        }
        vec.to_bytes().shuffle(&CYCLE_BYTES).to_lanes()
    } else {
        rotate_right_any(vec, 8)
    }
}

/// Rotates every lane of `vec` right by `n` bits. Whatever `caps` says,
/// the result is the same: lane `i` of it is
/// `(vec[i] >> n) | (vec[i] << (32 - n))`.
///
/// The distances 0 and 32 are not served: the caller keeps `n` between 1
/// and 31. A caller that passes constants for `caps` and `n` leaves the
/// compiler a single path once the call is inlined.
#[inline(always)]
pub fn rotate_right_const(caps: Capabilities, vec: U32x4, n: u32) -> (r: U32x4)
    requires
        1 <= n <= 31,
    ensures
        r@ == rotated_with(caps, vec@, n),
        r@ == rotated(vec@, n),
        r@.len() == 4,
        forall|i: int| 0 <= i < 4 ==> r@[i] == (vec@[i] >> n) | (vec@[i] << ((32 - n) as u32)),
{
    if !caps.specialized {
        rotate_right_any(vec, n)
    } else if n == 16 {
        rotate_right_16(caps, vec)
    } else if n == 8 {
        rotate_right_8(caps, vec)
    } else {
        rotate_right_any(vec, n)
    }
}

} // verus!
