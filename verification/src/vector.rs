//! Vectors of four 32-bit lanes and their views as sixteen bytes or as
//! eight 16-bit lanes.

use vstd::prelude::*;
use crate::lane::{le_bytes, from_le_bytes, le_halves, from_le_halves};
use crate::lane::{lane_to_bytes, lane_from_bytes, lane_to_halves, lane_from_halves};

verus! {

/// Four independent unsigned 32-bit lanes.
#[derive(Clone, Copy, Debug, PartialEq, Eq)]
pub struct U32x4 {
    pub lanes: [u32; 4],
}

/// Sixteen bytes: the memory image of a `U32x4`.
#[derive(Clone, Copy, Debug, PartialEq, Eq)]
pub struct U8x16 {
    pub bytes: [u8; 16],
}

/// Eight 16-bit lanes: the memory image of a `U32x4`, taken by halves.
#[derive(Clone, Copy, Debug, PartialEq, Eq)]
pub struct U16x8 {
    pub halves: [u16; 8],
}

impl View for U32x4 {
    type V = Seq<u32>;

    open spec fn view(&self) -> Seq<u32> {
        self.lanes@
    }
}

impl View for U8x16 {
    type V = Seq<u8>;

    open spec fn view(&self) -> Seq<u8> {
        self.bytes@
    }
}

impl View for U16x8 {
    type V = Seq<u16>;

    open spec fn view(&self) -> Seq<u16> {
        self.halves@
    }
}

/// Each lane shifted right by `n` bits, zeros coming in at the top.
pub open spec fn lanes_shr(v: Seq<u32>, n: u32) -> Seq<u32> {
    Seq::new(v.len(), |i: int| v[i] >> n)
}

/// Each lane shifted left by `n` bits, zeros coming in at the bottom.
pub open spec fn lanes_shl(v: Seq<u32>, n: u32) -> Seq<u32> {
    Seq::new(v.len(), |i: int| v[i] << n)
}

/// The bitwise or of `a` and `b`, lane by lane.
pub open spec fn lanes_or(a: Seq<u32>, b: Seq<u32>) -> Seq<u32> {
    Seq::new(a.len(), |i: int| a[i] | b[i])
}

/// The memory image of the lanes `v` as bytes: lane `i` fills bytes
/// `4 * i .. 4 * i + 4`, least significant byte first.
pub open spec fn bytes_of(v: Seq<u32>) -> Seq<u8> {
    Seq::new(4 * v.len(), |i: int| le_bytes(v[i / 4])[i % 4])
}

/// The lanes whose memory image is `b`.
pub open spec fn lanes_of_bytes(b: Seq<u8>) -> Seq<u32> {
    Seq::new(b.len() / 4, |j: int| from_le_bytes(b.subrange(4 * j, 4 * j + 4)))
}

/// The memory image of the lanes `v` as 16-bit lanes: lane `i` fills
/// halves `2 * i` and `2 * i + 1`, low half first.
pub open spec fn halves_of(v: Seq<u32>) -> Seq<u16> {
    Seq::new(2 * v.len(), |i: int| le_halves(v[i / 2])[i % 2])
}

/// The lanes whose memory image, taken by halves, is `h`.
pub open spec fn lanes_of_halves(h: Seq<u16>) -> Seq<u32> {
    Seq::new(h.len() / 2, |j: int| from_le_halves(h.subrange(2 * j, 2 * j + 2)))
}

/// The sequence whose element `i` is element `table[i]` of `src`.
pub open spec fn shuffled<T>(src: Seq<T>, table: Seq<u8>) -> Seq<T> {
    Seq::new(table.len(), |i: int| src[table[i] as int])
}

/// Every entry of `table` names a position below `n`.
pub open spec fn table_within(table: Seq<u8>, n: int) -> bool {
    forall|i: int| 0 <= i < table.len() ==> (#[trigger] table[i]) < n
}

/// Reading lanes as bytes and the bytes as lanes again changes nothing.
pub proof fn lemma_bytes_round_trip(v: Seq<u32>)
    ensures
        lanes_of_bytes(bytes_of(v)) == v,
{
    let b = bytes_of(v);
    assert forall|j: int| 0 <= j < v.len() implies lanes_of_bytes(b)[j] == v[j] by {
        let x = v[j];
        assert(((x as u8) as u32) | ((((x >> 8) as u8) as u32) << 8) | ((((x >> 16) as u8) as u32)
            << 16) | ((((x >> 24) as u8) as u32) << 24) == x) by (bit_vector);
    }
    assert(lanes_of_bytes(b) =~= v);
}

/// Reading lanes as halves and the halves as lanes again changes nothing.
pub proof fn lemma_halves_round_trip(v: Seq<u32>)
    ensures
        lanes_of_halves(halves_of(v)) == v,
{
    let h = halves_of(v);
    assert forall|j: int| 0 <= j < v.len() implies lanes_of_halves(h)[j] == v[j] by {
        let x = v[j];
        assert(((x as u16) as u32) | ((((x >> 16) as u16) as u32) << 16) == x) by (bit_vector);
    }
    assert(lanes_of_halves(h) =~= v);
}

impl U32x4 {
    /// The vector with lanes `a`, `b`, `c`, `d`, in that order.
    pub fn new(a: u32, b: u32, c: u32, d: u32) -> (v: U32x4)
        ensures
            v@ == seq![a, b, c, d],
    {
        let v = U32x4 { lanes: [a, b, c, d] };
        assert(v@ =~= seq![a, b, c, d]);
        v
    }

    /// Shifts every lane right by `n` bits.
    pub fn shr(self, n: u32) -> (r: U32x4)
        requires
            n < 32,
        ensures
            r@ == lanes_shr(self@, n),
    {
        let l = self.lanes;
        let r = U32x4 { lanes: [l[0] >> n, l[1] >> n, l[2] >> n, l[3] >> n] };
        assert(r@ =~= lanes_shr(self@, n));
        r
    }

    /// Shifts every lane left by `n` bits.
    pub fn shl(self, n: u32) -> (r: U32x4)
        requires
            n < 32,
        ensures
            r@ == lanes_shl(self@, n),
    {
        let l = self.lanes;
        let r = U32x4 { lanes: [l[0] << n, l[1] << n, l[2] << n, l[3] << n] };
        assert(r@ =~= lanes_shl(self@, n));
        r
    }

    /// The bitwise or with `other`, lane by lane.
    pub fn or(self, other: U32x4) -> (r: U32x4)
        ensures
            r@ == lanes_or(self@, other@),
    {
        let a = self.lanes;
        let b = other.lanes;
        let r = U32x4 { lanes: [a[0] | b[0], a[1] | b[1], a[2] | b[2], a[3] | b[3]] };
        assert(r@ =~= lanes_or(self@, other@));
        r
    }

    /// Reads the vector's memory image as sixteen bytes.
    pub fn to_bytes(self) -> (r: U8x16)
        ensures
            r@ == bytes_of(self@),
    {
        let l = self.lanes;
        let a = lane_to_bytes(l[0]);
        let b = lane_to_bytes(l[1]);
        let c = lane_to_bytes(l[2]);
        let d = lane_to_bytes(l[3]);
        let r = U8x16 {
            bytes: [
                a[0], a[1], a[2], a[3],
                b[0], b[1], b[2], b[3],
                c[0], c[1], c[2], c[3],
                d[0], d[1], d[2], d[3],
            ],
        };
        assert(r@ =~= bytes_of(self@));
        r
    }

    /// Reads the vector's memory image as eight 16-bit lanes.
    pub fn to_halves(self) -> (r: U16x8)
        ensures
            r@ == halves_of(self@),
    {
        let l = self.lanes;
        let a = lane_to_halves(l[0]);
        let b = lane_to_halves(l[1]);
        let c = lane_to_halves(l[2]);
        let d = lane_to_halves(l[3]);
        let r = U16x8 { halves: [a[0], a[1], b[0], b[1], c[0], c[1], d[0], d[1]] };
        assert(r@ =~= halves_of(self@));
        r
    }
}

impl U8x16 {
    /// Reads sixteen bytes as the memory image of four 32-bit lanes.
    pub fn to_lanes(self) -> (r: U32x4)
        ensures
            r@ == lanes_of_bytes(self@),
    {
        let b = self.bytes;
        let r = U32x4 {
            lanes: [
                lane_from_bytes([b[0], b[1], b[2], b[3]]),
                lane_from_bytes([b[4], b[5], b[6], b[7]]),
                lane_from_bytes([b[8], b[9], b[10], b[11]]),
                lane_from_bytes([b[12], b[13], b[14], b[15]]),
            ],
        };
        assert(r@ =~= lanes_of_bytes(self@)) by {
            assert([b[0], b[1], b[2], b[3]]@ =~= self@.subrange(0, 4));
            assert([b[4], b[5], b[6], b[7]]@ =~= self@.subrange(4, 8));
            assert([b[8], b[9], b[10], b[11]]@ =~= self@.subrange(8, 12));
            assert([b[12], b[13], b[14], b[15]]@ =~= self@.subrange(12, 16));
        }
        r
    }

    /// Reorders the bytes: byte `i` of the result is byte `table[i]` of
    /// `self`.
    pub fn shuffle(self, table: &[u8; 16]) -> (r: U8x16)
        requires
            table_within(table@, 16),
        ensures
            r@ == shuffled(self@, table@),
    {
        let mut out = [0u8; 16];
        let mut i: usize = 0;
        while i < 16
            invariant
                i <= 16,
                table_within(table@, 16),
                forall|k: int| 0 <= k < i ==> out@[k] == self@[table@[k] as int],
            decreases 16 - i,
        {
            let t = table[i];
            out[i] = self.bytes[t as usize];
            i += 1;
        }
        let r = U8x16 { bytes: out };
        assert(r@ =~= shuffled(self@, table@));
        r
    }
}

impl U16x8 {
    /// Reads eight 16-bit lanes as the memory image of four 32-bit lanes.
    pub fn to_lanes(self) -> (r: U32x4)
        ensures
            r@ == lanes_of_halves(self@),
    {
        let h = self.halves;
        let r = U32x4 {
            lanes: [
                lane_from_halves([h[0], h[1]]),
                lane_from_halves([h[2], h[3]]),
                lane_from_halves([h[4], h[5]]),
                lane_from_halves([h[6], h[7]]),
            ],
        };
        assert(r@ =~= lanes_of_halves(self@)) by {
            assert([h[0], h[1]]@ =~= self@.subrange(0, 2));
            assert([h[2], h[3]]@ =~= self@.subrange(2, 4));
            assert([h[4], h[5]]@ =~= self@.subrange(4, 6));
            assert([h[6], h[7]]@ =~= self@.subrange(6, 8));
        }
        r
    }

    /// Reorders the 16-bit lanes: lane `i` of the result is lane
    /// `table[i]` of `self`.
    pub fn shuffle(self, table: &[u8; 8]) -> (r: U16x8)
        requires
            table_within(table@, 8),
        ensures
            r@ == shuffled(self@, table@),
    {
        let mut out = [0u16; 8];
        let mut i: usize = 0;
        while i < 8
            invariant
                i <= 8,
                table_within(table@, 8),
                forall|k: int| 0 <= k < i ==> out@[k] == self@[table@[k] as int],
            decreases 8 - i,
        {
            let t = table[i];
            out[i] = self.halves[t as usize];
            i += 1;
        }
        let r = U16x8 { halves: out };
        assert(r@ =~= shuffled(self@, table@));
        r
    }
}

} // verus!
