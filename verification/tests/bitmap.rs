use rustfs::bitmap::{Bitmap, Bits};
use rustfs::block::Block;
use rustfs::byte::Byte;

#[test]
fn test_allocate() {
    let mut bitmap: Bitmap<u64> = Bitmap::new(Byte::new(1));
    assert_eq!(Some(0), bitmap.allocate());
    assert_eq!(Some(1), bitmap.allocate());
    assert_eq!(Some(2), bitmap.allocate());
    assert_eq!(Some(3), bitmap.allocate());
    assert_eq!(Some(4), bitmap.allocate());
    assert_eq!(Some(5), bitmap.allocate());
    assert_eq!(Some(6), bitmap.allocate());
    assert_eq!(Some(7), bitmap.allocate());
    assert_eq!(None, bitmap.allocate());

    bitmap.free(4);
    assert_eq!(Some(4), bitmap.allocate());
}

#[test]
fn test_set_high() {
    assert_eq!(0b1000_0000, Bits::set_high(0, 0));
    assert_eq!(0b0100_0000, Bits::set_high(0, 1));
    assert_eq!(0b0010_0000, Bits::set_high(0, 2));
    assert_eq!(0b0001_0000, Bits::set_high(0, 3));
    assert_eq!(0b0000_1000, Bits::set_high(0, 4));
    assert_eq!(0b0000_0100, Bits::set_high(0, 5));
    assert_eq!(0b0000_0010, Bits::set_high(0, 6));
    assert_eq!(0b0000_0001, Bits::set_high(0, 7));
}

#[test]
fn test_set_low() {
    assert_eq!(0b0111_1111, Bits::set_low(0xFF, 0));
    assert_eq!(0b1011_1111, Bits::set_low(0xFF, 1));
    assert_eq!(0b1101_1111, Bits::set_low(0xFF, 2));
    assert_eq!(0b1110_1111, Bits::set_low(0xFF, 3));
    assert_eq!(0b1111_0111, Bits::set_low(0xFF, 4));
    assert_eq!(0b1111_1011, Bits::set_low(0xFF, 5));
    assert_eq!(0b1111_1101, Bits::set_low(0xFF, 6));
    assert_eq!(0b1111_1110, Bits::set_low(0xFF, 7));
}

#[test]
fn test_is_zero() {
    assert!(Bits::is_zero(0b0000_0000, 0));
    assert!(Bits::is_zero(0b0000_0000, 1));
    assert!(Bits::is_zero(0b0000_0000, 2));
    assert!(Bits::is_zero(0b0000_0000, 3));
    assert!(Bits::is_zero(0b0000_0000, 4));
    assert!(Bits::is_zero(0b0000_0000, 5));
    assert!(Bits::is_zero(0b0000_0000, 6));
    assert!(Bits::is_zero(0b0000_0000, 7));

    assert!(!Bits::is_zero(0b1111_1111, 0));
    assert!(!Bits::is_zero(0b1111_1111, 1));
    assert!(!Bits::is_zero(0b1111_1111, 2));
    assert!(!Bits::is_zero(0b1111_1111, 3));
    assert!(!Bits::is_zero(0b1111_1111, 4));
    assert!(!Bits::is_zero(0b1111_1111, 5));
    assert!(!Bits::is_zero(0b1111_1111, 6));
    assert!(!Bits::is_zero(0b1111_1111, 7));
}

#[test]
fn test_first_zero() {
    assert_eq!(Some(0), Bits::first_zero(0b0000_0000));
    assert_eq!(Some(1), Bits::first_zero(0b1000_0000));
}

#[test]
fn first_zero_of_a_full_byte_is_none() {
    assert_eq!(None, Bits::first_zero(0b1111_1111));
    assert_eq!(Some(7), Bits::first_zero(0b1111_1110));
    assert_eq!(Some(3), Bits::first_zero(0b1110_1111));
}

#[test]
fn allocations_come_out_in_order_across_bytes() {
    let mut bitmap: Bitmap<Block> = Bitmap::new(Byte::new(3));
    for wanted in 0..24u64 {
        assert_eq!(Some(Block::new(wanted)), bitmap.allocate());
    }
    assert_eq!(None, bitmap.allocate());
    assert_eq!(None, bitmap.allocate());
}

#[test]
fn a_freed_slot_is_allocated_next() {
    let mut bitmap: Bitmap<u64> = Bitmap::new(Byte::new(2));
    for wanted in 0..12u64 {
        assert_eq!(Some(wanted), bitmap.allocate());
    }
    bitmap.free(9);
    bitmap.free(3);
    assert_eq!(Some(3), bitmap.allocate());
    assert_eq!(Some(9), bitmap.allocate());
    assert_eq!(Some(12), bitmap.allocate());
}

#[test]
fn freeing_a_free_slot_changes_nothing() {
    let mut bitmap: Bitmap<u64> = Bitmap::new(Byte::new(1));
    bitmap.free(5);
    assert_eq!(Some(0), bitmap.allocate());
    bitmap.free(0);
    bitmap.free(0);
    assert_eq!(Some(0), bitmap.allocate());
    assert_eq!(Some(1), bitmap.allocate());
}

#[test]
fn a_bitmap_without_bytes_has_no_slots() {
    let mut bitmap: Bitmap<u64> = Bitmap::new(Byte::new(0));
    assert_eq!(None, bitmap.allocate());
}

#[test]
fn slots_by_their_numbers() {
    let mut bitmap: Bitmap<Block> = Bitmap::new(Byte::new(2));
    assert_eq!(16, bitmap.slots());
    for wanted in 0..16u64 {
        assert_eq!(Some(wanted), bitmap.allocate_slot());
    }
    assert_eq!(None, bitmap.allocate_slot());
    bitmap.free_slot(11);
    bitmap.free_slot(2);
    assert_eq!(Some(Block::new(2)), bitmap.allocate());
    assert_eq!(Some(11), bitmap.allocate_slot());
    assert_eq!(None, bitmap.allocate());
    bitmap.free(Block::new(15));
    assert_eq!(Some(15), bitmap.allocate_slot());
}
