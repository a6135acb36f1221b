use e6502::hardware::cpu::Flag;
use e6502::types::Addr;
use e6502::types::Bit;
use e6502::types::Byte;

#[test]
fn addresses_are_made_of_two_bytes() {
    assert_eq!(Addr::new(Byte(0x12), Byte(0x34)), Addr(0x1234));
    assert_eq!(Addr(0x1234).high(), Byte(0x12));
    assert_eq!(Addr(0x1234).low(), Byte(0x34));
    assert_eq!(Addr::new(Byte(0xff), Byte(0xff)), Addr(0xffff));
    assert_eq!(Addr::new(Byte(0), Byte(0)), Addr(0));
    for w in [0u16, 1, 0xff, 0x100, 0x7fff, 0x8000, 0xfffe, 0xffff] {
        assert_eq!(Addr::new(Addr(w).high(), Addr(w).low()), Addr(w));
    }
    assert_eq!(Addr(0xffff).offset(1), Addr(0));
    assert_eq!(Addr(0x00ff).offset(1), Addr(0x0100));
}

#[test]
fn byte_arithmetic_wraps() {
    assert_eq!(Byte(0xff) + Byte(0x01), Byte(0x00));
    assert_eq!(Byte(0x00) - Byte(0x01), Byte(0xff));
    assert_eq!(Byte(0x80) + 0x80u8, Byte(0x00));
    assert_eq!(Byte(0x00) - 1u8, Byte(0xff));
    assert_eq!(Byte(0xff) + Bit(true), Byte(0x00));
    assert_eq!(Byte(0xff) + Bit(false), Byte(0xff));
    assert_eq!(Byte(0x00) - Bit(true), Byte(0xff));
    assert_eq!(Bit(true) + Byte(1), Byte(2));
    assert_eq!(Byte(3) + Byte(4), Byte(7));
}

#[test]
fn byte_bit_operations() {
    assert_eq!(Byte(0b1100) & Byte(0b1010), Byte(0b1000));
    assert_eq!(Byte(0b1100) | Byte(0b1010), Byte(0b1110));
    assert_eq!(Byte(0b1100) ^ Byte(0b1010), Byte(0b0110));
    assert_eq!(Byte(0b1100) ^ 0b1010u8, Byte(0b0110));
    assert_eq!(Byte(0b1100) | 0b1010u8, Byte(0b1110));
    assert_eq!(Byte(0b1100) & 0b1010u8, 0b1000u8);
    assert_eq!(!Byte(0x0f), Byte(0xf0));
    assert_eq!(Byte(0x81) << 1, Byte(0x02));
    assert_eq!(Byte(0x81) >> 1, Byte(0x40));
    assert_eq!(Byte(0x01) << 7, Byte(0x80));
}

#[test]
fn status_bytes_and_flags() {
    assert_eq!(Byte(0x01) & Flag::Carry, Bit(true));
    assert_eq!(Byte(0x00) & Flag::Carry, Bit(false));
    assert_eq!(Byte(0x80) & Flag::Negative, Bit(true));
    assert_eq!(Byte(0x40) & Flag::Negative, Bit(false));
    // Reserved always reads as set
    assert_eq!(Byte(0x00) & Flag::Reserved, Bit(true));
    assert_eq!(Byte(0x00) | Flag::Break, Byte(0x10));
    assert_eq!(Byte(0x01) | Flag::Reserved, Byte(0x21));
    assert_eq!(!Flag::Break, Byte(0xef));
    assert_eq!(!Flag::Carry, Byte(0xfe));
    assert_eq!(Bit(true) << Flag::Overflow, Byte(0x40));
    assert_eq!(Bit(false) << Flag::Overflow, Byte(0x00));
    let masks = [
        (Flag::Carry, 0, 0x01),
        (Flag::Zero, 1, 0x02),
        (Flag::InterruptDisable, 2, 0x04),
        (Flag::DecimalMode, 3, 0x08),
        (Flag::Break, 4, 0x10),
        (Flag::Reserved, 5, 0x20),
        (Flag::Overflow, 6, 0x40),
        (Flag::Negative, 7, 0x80),
    ];
    for (flag, index, mask) in masks {
        assert_eq!(flag.bit_index(), index);
        assert_eq!(flag.bit_mask(), mask);
    }
}

#[test]
fn bits() {
    assert_eq!(Bit(true) & Bit(false), Bit(false));
    assert_eq!(Bit(true) & Bit(true), Bit(true));
    assert_eq!(Bit(true) ^ Bit(true), Bit(false));
    assert_eq!(Bit(true) ^ Bit(false), Bit(true));
    assert_eq!(!Bit(true), Bit(false));
    assert_eq!(Bit::from(Byte(0)), Bit(false));
    assert_eq!(Bit::from(Byte(2)), Bit(true));
}

#[test]
fn address_arithmetic_wraps() {
    assert_eq!(Addr(0xffff) + Addr(0x0002), Addr(0x0001));
    assert_eq!(Addr(0x0000) - Addr(0x0001), Addr(0xffff));
    assert_eq!(Addr(0x00ff) + Byte(0x01), Addr(0x0100));
    assert_eq!(Addr(0xffff) + 1u8, Addr(0x0000));
    assert_eq!(Addr(0x0000) - 1u8, Addr(0xffff));
    assert_eq!(Addr(0x1200) | Byte(0x34), Addr(0x1234));
    assert_eq!(Addr(0x1234) & 0x00ffu16, Addr(0x0034));
    assert_eq!(Addr(0x0012) << 8, Addr(0x1200));
    assert_eq!(Addr(0x1234) >> 8, Addr(0x0012));
}

#[test]
fn conversions() {
    assert_eq!(Byte::from(7u8), Byte(7));
    assert_eq!(Byte::from(Addr(0x1234)), Byte(0x34));
    assert_eq!(Addr::from(0x1234u16), Addr(0x1234));
    assert_eq!(Addr::from(0x12u8), Addr(0x0012));
    assert_eq!(Addr::from(Byte(0x12)), Addr(0x0012));
}

#[test]
fn compound_assignments() {
    let mut b = Byte(0xff);
    b += 2;
    assert_eq!(b, Byte(0x01));
    b -= 2;
    assert_eq!(b, Byte(0xff));
    b &= Byte(0x0f);
    assert_eq!(b, Byte(0x0f));
    b |= Byte(0x30);
    assert_eq!(b, Byte(0x3f));
    b ^= Byte(0xff);
    assert_eq!(b, Byte(0xc0));
    b |= Flag::Carry;
    assert_eq!(b, Byte(0xc1));
    b &= 0xf0u8;
    assert_eq!(b, Byte(0xc0));
    b |= Bit(true);
    assert_eq!(b, Byte(0xc1));
    b |= Bit(false);
    assert_eq!(b, Byte(0xc1));
    b >>= 1;
    assert_eq!(b, Byte(0x60));
    b <<= 2;
    assert_eq!(b, Byte(0x80));
    let mut a = Addr(0xffff);
    a += 2;
    assert_eq!(a, Addr(0x0001));
}

#[test]
fn numbers_inside() {
    assert_eq!(*Byte(7), 7u8);
    assert_eq!(*Addr(0x1234), 0x1234u16);
    assert_eq!(usize::from(Addr(0xffff)), 0xffffusize);
}
