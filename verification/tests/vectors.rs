use lane_rotate::lane::{lane_from_bytes, lane_from_halves, lane_to_bytes, lane_to_halves};
use lane_rotate::rotate::{CYCLE_BYTES, SWAP_HALVES, SWAP_HALVES_BYTES};
use lane_rotate::vector::{U16x8, U32x4, U8x16};

#[test]
fn new_keeps_the_order_of_the_lanes() {
    let v = U32x4::new(1, 2, 3, 4);
    assert_eq!(v.lanes, [1, 2, 3, 4]);
}

#[test]
fn shifts_act_on_every_lane() {
    let v = U32x4::new(0x8000_0001, 0x0000_00F0, 0xFFFF_FFFF, 0);
    assert_eq!(v.shr(4).lanes, [0x0800_0000, 0x0000_000F, 0x0FFF_FFFF, 0]);
    assert_eq!(v.shl(4).lanes, [0x0000_0010, 0x0000_0F00, 0xFFFF_FFF0, 0]);
    assert_eq!(v.shr(0).lanes, v.lanes);
    assert_eq!(v.shl(31).lanes, [0x8000_0000, 0, 0x8000_0000, 0]);
}

#[test]
fn or_joins_lane_by_lane() {
    let a = U32x4::new(0xF0F0_0000, 0x0000_0001, 0, 0xFFFF_FFFF);
    let b = U32x4::new(0x0F0F_0000, 0x0000_0001, 0, 0x0000_0000);
    assert_eq!(a.or(b).lanes, [0xFFFF_0000, 0x0000_0001, 0, 0xFFFF_FFFF]);
}

#[test]
fn a_lane_splits_low_byte_first() {
    assert_eq!(lane_to_bytes(0x1122_3344), [0x44, 0x33, 0x22, 0x11]);
    assert_eq!(lane_from_bytes([0x44, 0x33, 0x22, 0x11]), 0x1122_3344);
    assert_eq!(lane_to_bytes(0x1122_3344), 0x1122_3344u32.to_le_bytes());
    assert_eq!(lane_to_halves(0x1122_3344), [0x3344, 0x1122]);
    assert_eq!(lane_from_halves([0x3344, 0x1122]), 0x1122_3344);
}

#[test]
fn the_memory_image_is_little_endian() {
    let v = U32x4::new(0x0302_0100, 0x0706_0504, 0x0B0A_0908, 0x0F0E_0D0C);
    assert_eq!(v.to_bytes().bytes, [0, 1, 2, 3, 4, 5, 6, 7, 8, 9, 10, 11, 12, 13, 14, 15]);
    assert_eq!(
        v.to_halves().halves,
        [0x0100, 0x0302, 0x0504, 0x0706, 0x0908, 0x0B0A, 0x0D0C, 0x0F0E]
    );
}

#[test]
fn reading_back_gives_the_same_lanes() {
    let v = U32x4::new(0x0123_4567, 0x89AB_CDEF, 0x8000_0001, 0xDEAD_BEEF);
    assert_eq!(v.to_bytes().to_lanes(), v);
    assert_eq!(v.to_halves().to_lanes(), v);
}

#[test]
fn bytes_read_as_lanes() {
    let b = U8x16 { bytes: [0, 1, 2, 3, 4, 5, 6, 7, 8, 9, 10, 11, 12, 13, 14, 15] };
    assert_eq!(b.to_lanes().lanes, [0x0302_0100, 0x0706_0504, 0x0B0A_0908, 0x0F0E_0D0C]);
    let h = U16x8 { halves: [1, 2, 3, 4, 5, 6, 7, 8] };
    assert_eq!(
        h.to_lanes().lanes,
        [0x0002_0001, 0x0004_0003, 0x0006_0005, 0x0008_0007]
    );
}

#[test]
fn a_shuffle_picks_by_the_table() {
    let b = U8x16 {
        bytes: [10, 11, 12, 13, 14, 15, 16, 17, 18, 19, 20, 21, 22, 23, 24, 25],
    };
    let reversed: [u8; 16] = [15, 14, 13, 12, 11, 10, 9, 8, 7, 6, 5, 4, 3, 2, 1, 0];
    assert_eq!(
        b.shuffle(&reversed).bytes,
        [25, 24, 23, 22, 21, 20, 19, 18, 17, 16, 15, 14, 13, 12, 11, 10]
    );
    let first: [u8; 16] = [0; 16];
    assert_eq!(b.shuffle(&first).bytes, [10; 16]);
    assert_eq!(
        b.shuffle(&SWAP_HALVES_BYTES).bytes,
        [12, 13, 10, 11, 16, 17, 14, 15, 20, 21, 18, 19, 24, 25, 22, 23]
    );
    assert_eq!(
        b.shuffle(&CYCLE_BYTES).bytes,
        [11, 12, 13, 10, 15, 16, 17, 14, 19, 20, 21, 18, 23, 24, 25, 22]
    );
    let h = U16x8 { halves: [100, 101, 102, 103, 104, 105, 106, 107] };
    assert_eq!(h.shuffle(&SWAP_HALVES).halves, [101, 100, 103, 102, 105, 104, 107, 106]);
    let same: [u8; 8] = [7, 7, 0, 0, 3, 3, 5, 5];
    assert_eq!(h.shuffle(&same).halves, [107, 107, 100, 100, 103, 103, 105, 105]);
}

#[test]
fn the_tables_repeat_one_pattern_per_lane() {
    for lane in 0..4usize {
        for k in 0..4usize {
            let base = (4 * lane) as u8;
            assert_eq!(SWAP_HALVES_BYTES[4 * lane + k], base + [2u8, 3, 0, 1][k]);
            assert_eq!(CYCLE_BYTES[4 * lane + k], base + [1u8, 2, 3, 0][k]);
        }
        assert_eq!(SWAP_HALVES[2 * lane], (2 * lane + 1) as u8);
        assert_eq!(SWAP_HALVES[2 * lane + 1], (2 * lane) as u8);
    }
}
