use pups2::bits::{Bits, SignExtend};
use pups2::emotion_engine::cpu::register::Register;
use pups2::enum_set::EnumSet;
use pups2::bytes::Bytes;
use pups2::fifo::Fifo;
use pups2::fix::Fix;

#[test]
fn bits_extracts_a_field() {
    assert_eq!(0xABCDu16.bits(4, 8), 0xC);
    assert_eq!(0xDEAD_BEEFu32.bits(16, 32), 0xDEAD);
    assert_eq!(0x0123_4567_89AB_CDEFu64.bits(60, 64), 0x0);
    assert_eq!(0x0123_4567_89AB_CDEFu64.bits(0, 4), 0xF);
    assert_eq!((1u128 << 100).bits(100, 101), 1);
}

#[test]
fn bit_reads_one_bit() {
    assert!(0b100u32.bit(2));
    assert!(!0b100u32.bit(1));
    assert!(0x8000u16.bit(15));
    assert!((1u128 << 127).bit(127));
}

#[test]
fn set_bits_replaces_only_the_field() {
    let mut x = 0xFFFF_FFFFu32;
    x.set_bits(8, 16, 0x12);
    assert_eq!(x, 0xFFFF_12FF);
    let mut y = 0u64;
    y.set_bits(60, 64, 0xFF);
    assert_eq!(y, 0xF000_0000_0000_0000);
    let mut z = 0xFFFFu16;
    z.set_bits(4, 8, 3);
    assert_eq!(z, 0xFF3F);
    assert_eq!(z.bits(4, 8), 3);
    let mut w = 0u128;
    w.set_bits(64, 72, 0x1AB);
    assert_eq!(w.bits(64, 72), 0xAB);
    assert_eq!(w, 0xABu128 << 64);
}

#[test]
fn set_bit_sets_and_clears() {
    let mut x = 0u16;
    x.set_bit(3, true);
    assert_eq!(x, 8);
    x.set_bit(3, false);
    assert_eq!(x, 0);
}

#[test]
fn mask_covers_the_range() {
    assert_eq!(u32::mask(4, 8), 0xF0);
    assert_eq!(u128::mask(64, 128), 0xFFFF_FFFF_FFFF_FFFF_0000_0000_0000_0000);
}

#[test]
fn sign_extension_copies_the_sign_bit() {
    let c: u32 = 0xFFFEu16.sign_extend();
    assert_eq!(c, 0xFFFF_FFFE);
    let d: u64 = 0x8000_0000u32.sign_extend();
    assert_eq!(d, 0xFFFF_FFFF_8000_0000);
    let e: u64 = (-2i32).sign_extend();
    assert_eq!(e, 0xFFFF_FFFF_FFFF_FFFE);
    let f: u64 = (-1i8).sign_extend();
    assert_eq!(f, u64::MAX);
    let g: u32 = (-3i16).sign_extend();
    assert_eq!(g, 0xFFFF_FFFD);
    let h: u64 = 5i16.sign_extend();
    assert_eq!(h, 5);
}

#[test]
fn bytes_are_little_endian() {
    assert_eq!(u32::from_bytes(&[0x78, 0x56, 0x34, 0x12]), 0x1234_5678);
    assert_eq!(0xBEEFu16.to_bytes(), vec![0xEF, 0xBE]);
    assert_eq!(<u64 as Bytes>::size(), 8);
    assert_eq!(<u128 as Bytes>::size(), 16);
}

#[test]
fn bytes_roundtrip() {
    let value = 0x0011_2233_4455_6677_8899_AABB_CCDD_EEFFu128;
    assert_eq!(u128::from_bytes(&value.to_bytes()), value);
    let bytes = [1u8, 2, 3, 4, 5, 6, 7, 8];
    assert_eq!(u64::from_bytes(&bytes).to_bytes(), bytes.to_vec());
}

#[test]
fn fifo_keeps_order() {
    let mut fifo: Fifo<u32> = Fifo::with_capacity(3);
    assert!(fifo.is_empty());
    fifo.push_back(1);
    fifo.push_back(2);
    fifo.push_front(0);
    assert!(fifo.is_full());
    assert_eq!(fifo.len(), 3);
    assert_eq!(fifo.iter(), vec![0, 1, 2]);
    assert_eq!(fifo.index(1), 1);
    assert_eq!(fifo.front(), Some(0));
    assert_eq!(fifo.pop_front(), Some(0));
    assert_eq!(fifo.pop_back(), Some(2));
    fifo.push_back(3);
    fifo.push_back(4);
    assert_eq!(fifo.iter(), vec![1, 3, 4]);
    fifo.set(2, 9);
    assert_eq!(fifo.iter(), vec![1, 3, 9]);
    fifo.clear();
    assert_eq!(fifo.pop_front(), None);
    assert_eq!(fifo.pop_back(), None);
    assert_eq!(fifo.front(), None);
}

#[test]
fn fifo_wraps_around() {
    let mut fifo: Fifo<u8> = Fifo::with_capacity(2);
    for i in 0..10u8 {
        fifo.push_back(i);
        assert_eq!(fifo.pop_front(), Some(i));
    }
    assert!(fifo.is_empty());
}

#[test]
fn fix_rounds_to_nearest() {
    let x = Fix::<u16, 4>::from_raw(0x38);
    assert_eq!(x.floor(), 3);
    assert_eq!(x.round(), 4);
    assert_eq!(x.ceil(), 4);
    let y = Fix::<u16, 4>::from_raw(0x37);
    assert_eq!(y.floor(), 3);
    assert_eq!(y.round(), 3);
    assert_eq!(y.ceil(), 4);
    let z = Fix::<u16, 4>::from_integer(5);
    assert_eq!(z.raw(), 0x50);
    assert_eq!(z.floor(), 5);
    assert_eq!(z.round(), 5);
    assert_eq!(z.ceil(), 5);
}

#[test]
fn enum_set_inserts_and_removes() {
    let mut set: EnumSet<Register> = EnumSet::new();
    assert!(set.is_empty());
    set.insert(Register::Hi);
    set.insert(Register::A0);
    set.insert(Register::A0);
    assert!(set.contains(Register::Hi));
    assert!(set.contains(Register::A0));
    assert!(!set.contains(Register::Zero));
    assert_eq!(set.len(), 2);
    assert_eq!(set.iter(), vec![Register::A0, Register::Hi]);
    set.remove(Register::Hi);
    assert!(!set.contains(Register::Hi));
    assert_eq!(set.len(), 1);
    set.remove(Register::A0);
    assert!(set.is_empty());
}

#[test]
fn fix_arithmetic() {
    let two = Fix::<u16, 4>::from_integer(2);
    let three = Fix::<u16, 4>::from_integer(3);
    assert_eq!((two + three).raw(), 0x50);
    assert_eq!((three - two).raw(), 0x10);
    assert_eq!((two * three).raw(), 0x60);
    assert_eq!((Fix::<u16, 4>::from_integer(6) / three).raw(), 0x20);
    assert_eq!((Fix::<u16, 4>::from_raw(1) << 4).raw(), 0x10);
    assert_eq!((Fix::<u16, 4>::from_raw(0x30) >> 4).raw(), 0x3);
}
