//! What holds of rotations taken together: they compose by adding their
//! distances, each has an inverse, and no lane touches another.

use vstd::prelude::*;
use crate::lane::rotr;
use crate::rotate::{Capabilities, rotated, rotated_with};
use crate::rotate::{lemma_byte_shuffle_rotates_16, lemma_byte_shuffle_rotates_8};
use crate::rotate::{lemma_half_shuffle_rotates_16, lemma_shifts_rotate};

verus! {

/// `v` rotated right by one bit, `k` times over.
pub open spec fn rotated_once_times(v: Seq<u32>, k: nat) -> Seq<u32>
    decreases k,
{
    if k == 0 {
        v
    } else {
        rotated(rotated_once_times(v, (k - 1) as nat), 1)
    }
}

/// Whatever the target offers, the path taken computes the rotation that
/// the shifts compute: lane `i` of it is `v[i]` rotated right by `n`.
pub proof fn lemma_every_path_rotates(caps: Capabilities, v: Seq<u32>, n: u32)
    requires
        v.len() == 4,
        1 <= n <= 31,
    ensures
        rotated_with(caps, v, n) == rotated(v, n),
{
    lemma_shifts_rotate(v, n);
    lemma_byte_shuffle_rotates_16(v);
    lemma_half_shuffle_rotates_16(v);
    lemma_byte_shuffle_rotates_8(v);
}

/// Two targets that offer different things compute the same vector.
pub proof fn lemma_paths_agree(c1: Capabilities, c2: Capabilities, v: Seq<u32>, n: u32)
    requires
        v.len() == 4,
        1 <= n <= 31,
    ensures
        rotated_with(c1, v, n) == rotated_with(c2, v, n),
{
    lemma_every_path_rotates(c1, v, n);
    lemma_every_path_rotates(c2, v, n);
}

/// Joining the two shifted parts of a lane with xor gives the same value
/// as joining them with or: no bit is set in both.
pub proof fn lemma_or_is_xor(x: u32, n: u32)
    requires
        1 <= n <= 31,
    ensures
        (x >> n) ^ (x << ((32 - n) as u32)) == rotr(x, n),
{
    assert((x >> n) ^ (x << ((32 - n) as u32)) == (x >> n) | (x << ((32 - n) as u32)))
        by (bit_vector)
        requires
            1 <= n <= 31,
    ;
}

/// Rotating a lane by `a` and then by `b` is rotating it by `a + b`
/// reduced modulo 32, where that is a distance between 1 and 31.
pub proof fn lemma_rotr_compose(x: u32, a: u32, b: u32)
    requires
        1 <= a <= 31,
        1 <= b <= 31,
        (a + b) % 32 != 0,
    ensures
        rotr(rotr(x, a), b) == rotr(x, ((a + b) % 32) as u32),
{
    if a + b < 32 {
        let c: u32 = (a + b) as u32;
        assert(rotr(rotr(x, a), b) == rotr(x, c)) by (bit_vector)
            requires
                1 <= a <= 31,
                1 <= b <= 31,
                c == a + b,
                c <= 31,
        ;
    } else {
        let c: u32 = (a + b - 32) as u32;
        assert(rotr(rotr(x, a), b) == rotr(x, c)) by (bit_vector)
            requires
                1 <= a <= 31,
                1 <= b <= 31,
                c + 32 == a + b,
                1 <= c,
        ;
    }
}

/// Rotating a lane by `n` and then by `32 - n` gives the lane back.
pub proof fn lemma_rotr_inverse(x: u32, n: u32)
    requires
        1 <= n <= 31,
    ensures
        rotr(rotr(x, n), (32 - n) as u32) == x,
{
    let m: u32 = (32 - n) as u32;
    assert(rotr(rotr(x, n), m) == x) by (bit_vector)
        requires
            1 <= n <= 31,
            m == 32 - n,
    ;
}

/// Rotating a vector by `a` and then by `b` is rotating it by `a + b`
/// reduced modulo 32, where that is a distance between 1 and 31.
pub proof fn lemma_rotate_compose(v: Seq<u32>, a: u32, b: u32)
    requires
        1 <= a <= 31,
        1 <= b <= 31,
        (a + b) % 32 != 0,
    ensures
        rotated(rotated(v, a), b) == rotated(v, ((a + b) % 32) as u32),
{
    let c: u32 = ((a + b) % 32) as u32;
    assert forall|i: int| 0 <= i < v.len() implies rotated(rotated(v, a), b)[i] == rotated(
        v,
        c,
    )[i] by {
        lemma_rotr_compose(v[i], a, b);
    }
    assert(rotated(rotated(v, a), b) =~= rotated(v, c));
}

/// Rotating a vector by `n` and then by `32 - n` gives the vector back:
/// every rotation is a bijection.
pub proof fn lemma_rotate_inverse(v: Seq<u32>, n: u32)
    requires
        1 <= n <= 31,
    ensures
        rotated(rotated(v, n), (32 - n) as u32) == v,
{
    let m: u32 = (32 - n) as u32;
    assert forall|i: int| 0 <= i < v.len() implies rotated(rotated(v, n), m)[i] == v[i] by {
        lemma_rotr_inverse(v[i], n);
    }
    assert(rotated(rotated(v, n), m) =~= v);
}

/// Rotating by one bit `k` times over, for `k` between 1 and 31, is one
/// rotation by `k` bits.
pub proof fn lemma_repeated_rotation(v: Seq<u32>, k: nat)
    requires
        1 <= k <= 31,
    ensures
        rotated_once_times(v, k) == rotated(v, k as u32),
    decreases k,
{
    if k == 1 {
        assert(rotated_once_times(v, 0) == v);
    } else {
        lemma_repeated_rotation(v, (k - 1) as nat);
        lemma_rotate_compose(v, (k - 1) as u32, 1);
    }
}

/// Rotating by one bit 32 times over gives the vector back.
pub proof fn lemma_full_cycle(v: Seq<u32>)
    ensures
        rotated_once_times(v, 32) == v,
{
    lemma_repeated_rotation(v, 31);
    lemma_rotate_inverse(v, 31);
}

/// A lane of the result depends on the same lane of the input and on
/// nothing else: two vectors that agree in lane `i` still agree there
/// once rotated.
pub proof fn lemma_lanes_independent(v: Seq<u32>, w: Seq<u32>, n: u32, i: int)
    requires
        0 <= i < v.len(),
        0 <= i < w.len(),
        v[i] == w[i],
    ensures
        rotated(v, n)[i] == rotated(w, n)[i],
        rotated(v, n)[i] == rotr(v[i], n),
{
}

/// A lane that is zero stays zero, whatever the other lanes hold.
pub proof fn lemma_zero_lane_stays_zero(v: Seq<u32>, n: u32, i: int)
    requires
        1 <= n <= 31,
        0 <= i < v.len(),
        v[i] == 0,
    ensures
        rotated(v, n)[i] == 0,
{
    assert(rotr(0u32, n) == 0) by (bit_vector)
        requires
            1 <= n <= 31,
    ;
}

} // verus!
