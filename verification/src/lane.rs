//! The scalar model: what rotating one 32-bit lane means, and how a lane
//! is laid out in memory as bytes and as 16-bit halves (little-endian).

use vstd::prelude::*;

verus! {

/// The value of `x` with its bits moved `n` places towards the low end, the
/// bits that leave the low end coming back in at the high end. Both shifts
/// are logical. Meant for `1 <= n <= 31`.
pub open spec fn rotr(x: u32, n: u32) -> u32 {
    (x >> n) | (x << ((32 - n) as u32))
}

/// The four bytes of a lane, least significant first.
pub open spec fn le_bytes(x: u32) -> Seq<u8> {
    seq![x as u8, (x >> 8) as u8, (x >> 16) as u8, (x >> 24) as u8]
}

/// The lane whose bytes, least significant first, are `b[0] .. b[3]`.
pub open spec fn from_le_bytes(b: Seq<u8>) -> u32 {
    (b[0] as u32) | ((b[1] as u32) << 8) | ((b[2] as u32) << 16) | ((b[3] as u32) << 24)
}

/// The two 16-bit halves of a lane, low half first.
pub open spec fn le_halves(x: u32) -> Seq<u16> {
    seq![x as u16, (x >> 16) as u16]
}

/// The lane whose halves, low half first, are `h[0]` and `h[1]`.
pub open spec fn from_le_halves(h: Seq<u16>) -> u32 {
    (h[0] as u32) | ((h[1] as u32) << 16)
}

/// Splits a lane into its bytes, least significant first.
pub fn lane_to_bytes(x: u32) -> (b: [u8; 4])
    ensures
        b@ == le_bytes(x),
{
    let b = [
        #[verifier::truncate] (x as u8),
        #[verifier::truncate] ((x >> 8) as u8),
        #[verifier::truncate] ((x >> 16) as u8),
        #[verifier::truncate] ((x >> 24) as u8),
    ];
    assert(b@ =~= le_bytes(x));
    b
}

/// Joins four bytes, least significant first, into a lane.
pub fn lane_from_bytes(b: [u8; 4]) -> (x: u32)
    ensures
        x == from_le_bytes(b@),
{
    (b[0] as u32) | ((b[1] as u32) << 8) | ((b[2] as u32) << 16) | ((b[3] as u32) << 24)
}

/// Splits a lane into its halves, low half first.
pub fn lane_to_halves(x: u32) -> (h: [u16; 2])
    ensures
        h@ == le_halves(x),
{
    let h = [#[verifier::truncate] (x as u16), #[verifier::truncate] ((x >> 16) as u16)];
    assert(h@ =~= le_halves(x));
    h
}

/// Joins two halves, low half first, into a lane.
pub fn lane_from_halves(h: [u16; 2]) -> (x: u32)
    ensures
        x == from_le_halves(h@),
{
    (h[0] as u32) | ((h[1] as u32) << 16)
}

} // verus!
