//! The three value types of the machine: an 8-bit byte, a 16-bit address and
//! a single bit. All arithmetic on them wraps.

use vstd::prelude::*;
use std::ops::Add;
use std::ops::AddAssign;
use std::ops::BitAnd;
use std::ops::BitAndAssign;
use std::ops::BitOr;
use std::ops::BitOrAssign;
use std::ops::BitXor;
use std::ops::BitXorAssign;
use std::ops::Deref;
use std::ops::Not;
use std::ops::Shl;
use std::ops::ShlAssign;
use std::ops::Shr;
use std::ops::ShrAssign;
use std::ops::Sub;
use std::ops::SubAssign;
use vstd::std_specs::convert::FromSpecImpl;
use vstd::std_specs::ops::AddSpecImpl;
use vstd::std_specs::ops::BitAndSpecImpl;
use vstd::std_specs::ops::BitOrSpecImpl;
use vstd::std_specs::ops::BitXorSpecImpl;
use vstd::std_specs::ops::NotSpecImpl;
use vstd::std_specs::ops::ShlSpecImpl;
use vstd::std_specs::ops::ShrSpecImpl;
use vstd::std_specs::ops::SubSpecImpl;
use crate::hardware::cpu::model::flag_set;
use crate::hardware::cpu::Flag;

verus! {

/// An unsigned 8-bit value. Arithmetic wraps modulo 256.
#[derive(Clone, Copy, Debug, PartialEq, Eq, PartialOrd, Hash, Structural)]
pub struct Byte(pub u8);

/// An unsigned 16-bit bus address. Arithmetic wraps modulo 65536.
#[derive(Clone, Copy, Debug, PartialEq, Eq, PartialOrd, Hash, Structural)]
pub struct Addr(pub u16);

/// A single carry or flag bit.
#[derive(Clone, Copy, Debug, PartialEq, Eq, PartialOrd, Structural)]
pub struct Bit(pub bool);

/// The 16-bit word with the given high and low bytes.
pub open spec fn word(high: u8, low: u8) -> u16 {
    (high * 256 + low) as u16
}

/// The high byte of a 16-bit word.
pub open spec fn high_byte(w: u16) -> u8 {
    (w / 256) as u8
}

/// The low byte of a 16-bit word.
pub open spec fn low_byte(w: u16) -> u8 {
    (w % 256) as u8
}

/// `n` reduced to 8 bits, wrapping.
pub open spec fn wrap8(n: int) -> u8 {
    (n % 256) as u8
}

/// `n` reduced to 16 bits, wrapping.
pub open spec fn wrap16(n: int) -> u16 {
    (n % 65536) as u16
}

/// A word is put together again from its two bytes.
pub proof fn lemma_word_of_bytes(w: u16)
    ensures
        word(high_byte(w), low_byte(w)) == w,
{
}

/// The bytes of an assembled word are the bytes it was assembled from.
pub proof fn lemma_bytes_of_word(high: u8, low: u8)
    ensures
        high_byte(word(high, low)) == high,
        low_byte(word(high, low)) == low,
{
}

/// Arithmetic assembly of a word agrees with shifting and or-ing.
pub proof fn lemma_word_is_shift_or(high: u8, low: u8)
    ensures
        word(high, low) == ((high as u16) << 8) | (low as u16),
{
    assert((high as u16) * 256 + (low as u16) == ((high as u16) << 8) | (low as u16))
        by (bit_vector);
}

impl Addr {
    /// Assembles an address from its high and low bytes.
    pub fn new(high: Byte, low: Byte) -> (r: Addr)
        ensures
            r.0 == word(high.0, low.0),
            r.0 == ((high.0 as u16) << 8) | (low.0 as u16),
    {
        proof {
            lemma_word_is_shift_or(high.0, low.0);
        }
        Addr((high.0 as u16) * 256 + (low.0 as u16))
    }

    /// The high byte of the address.
    pub fn high(&self) -> (r: Byte)
        ensures
            r.0 == high_byte(self.0),
    {
        Byte((self.0 / 256) as u8)
    }

    /// The low byte of the address.
    pub fn low(&self) -> (r: Byte)
        ensures
            r.0 == low_byte(self.0),
    {
        Byte((self.0 % 256) as u8)
    }

    /// The address `n` places further on, wrapping at the end of the address
    /// space.
    pub fn offset(self, n: u16) -> (r: Addr)
        ensures
            r.0 == wrap16(self.0 + n),
    {
        Addr(self.0.wrapping_add(n))
    }
}

/// The sum of two bytes, modulo 256.
impl Add<Byte> for Byte {
    type Output = Byte;

    fn add(self, rhs: Byte) -> (r: Byte) {
        Byte(self.0.wrapping_add(rhs.0))
    }
}

impl AddSpecImpl<Byte> for Byte {
    open spec fn obeys_add_spec() -> bool {
        true
    }

    open spec fn add_req(self, rhs: Byte) -> bool {
        true
    }

    open spec fn add_spec(self, rhs: Byte) -> Byte {
        Byte(wrap8(self.0 + rhs.0))
    }
}

/// The difference of two bytes, modulo 256.
impl Sub<Byte> for Byte {
    type Output = Byte;

    fn sub(self, rhs: Byte) -> (r: Byte) {
        Byte(self.0.wrapping_sub(rhs.0))
    }
}

impl SubSpecImpl<Byte> for Byte {
    open spec fn obeys_sub_spec() -> bool {
        true
    }

    open spec fn sub_req(self, rhs: Byte) -> bool {
        true
    }

    open spec fn sub_spec(self, rhs: Byte) -> Byte {
        Byte(wrap8(self.0 - rhs.0))
    }
}

/// A byte and a number added, modulo 256.
impl Add<u8> for Byte {
    type Output = Byte;

    fn add(self, rhs: u8) -> (r: Byte) {
        Byte(self.0.wrapping_add(rhs))
    }
}

impl AddSpecImpl<u8> for Byte {
    open spec fn obeys_add_spec() -> bool {
        true
    }

    open spec fn add_req(self, rhs: u8) -> bool {
        true
    }

    open spec fn add_spec(self, rhs: u8) -> Byte {
        Byte(wrap8(self.0 + rhs))
    }
}

/// A number taken from a byte, modulo 256.
impl Sub<u8> for Byte {
    type Output = Byte;

    fn sub(self, rhs: u8) -> (r: Byte) {
        Byte(self.0.wrapping_sub(rhs))
    }
}

impl SubSpecImpl<u8> for Byte {
    open spec fn obeys_sub_spec() -> bool {
        true
    }

    open spec fn sub_req(self, rhs: u8) -> bool {
        true
    }

    open spec fn sub_spec(self, rhs: u8) -> Byte {
        Byte(wrap8(self.0 - rhs))
    }
}

/// A byte and a carry bit added, modulo 256.
impl Add<Bit> for Byte {
    type Output = Byte;

    fn add(self, rhs: Bit) -> (r: Byte) {
        Byte(self.0.wrapping_add(if rhs.0 { 1 } else { 0 }))
    }
}

impl AddSpecImpl<Bit> for Byte {
    open spec fn obeys_add_spec() -> bool {
        true
    }

    open spec fn add_req(self, rhs: Bit) -> bool {
        true
    }

    open spec fn add_spec(self, rhs: Bit) -> Byte {
        Byte(wrap8(self.0 + (if rhs.0 { 1int } else { 0int })))
    }
}

/// A borrow bit taken from a byte, modulo 256.
impl Sub<Bit> for Byte {
    type Output = Byte;

    fn sub(self, rhs: Bit) -> (r: Byte) {
        Byte(self.0.wrapping_sub(if rhs.0 { 1 } else { 0 }))
    }
}

impl SubSpecImpl<Bit> for Byte {
    open spec fn obeys_sub_spec() -> bool {
        true
    }

    open spec fn sub_req(self, rhs: Bit) -> bool {
        true
    }

    open spec fn sub_spec(self, rhs: Bit) -> Byte {
        Byte(wrap8(self.0 - (if rhs.0 { 1int } else { 0int })))
    }
}

/// Two bytes and-ed bit by bit.
impl BitAnd<Byte> for Byte {
    type Output = Byte;

    fn bitand(self, rhs: Byte) -> (r: Byte) {
        Byte(self.0 & rhs.0)
    }
}

impl BitAndSpecImpl<Byte> for Byte {
    open spec fn obeys_bitand_spec() -> bool {
        true
    }

    open spec fn bitand_req(self, rhs: Byte) -> bool {
        true
    }

    open spec fn bitand_spec(self, rhs: Byte) -> Byte {
        Byte(self.0 & rhs.0)
    }
}

/// Two bytes or-ed bit by bit.
impl BitOr<Byte> for Byte {
    type Output = Byte;

    fn bitor(self, rhs: Byte) -> (r: Byte) {
        Byte(self.0 | rhs.0)
    }
}

impl BitOrSpecImpl<Byte> for Byte {
    open spec fn obeys_bitor_spec() -> bool {
        true
    }

    open spec fn bitor_req(self, rhs: Byte) -> bool {
        true
    }

    open spec fn bitor_spec(self, rhs: Byte) -> Byte {
        Byte(self.0 | rhs.0)
    }
}

/// Two bytes exclusive-or-ed bit by bit.
impl BitXor<Byte> for Byte {
    type Output = Byte;

    fn bitxor(self, rhs: Byte) -> (r: Byte) {
        Byte(self.0 ^ rhs.0)
    }
}

impl BitXorSpecImpl<Byte> for Byte {
    open spec fn obeys_bitxor_spec() -> bool {
        true
    }

    open spec fn bitxor_req(self, rhs: Byte) -> bool {
        true
    }

    open spec fn bitxor_spec(self, rhs: Byte) -> Byte {
        Byte(self.0 ^ rhs.0)
    }
}

/// A byte and a number exclusive-or-ed bit by bit.
impl BitXor<u8> for Byte {
    type Output = Byte;

    fn bitxor(self, rhs: u8) -> (r: Byte) {
        Byte(self.0 ^ rhs)
    }
}

impl BitXorSpecImpl<u8> for Byte {
    open spec fn obeys_bitxor_spec() -> bool {
        true
    }

    open spec fn bitxor_req(self, rhs: u8) -> bool {
        true
    }

    open spec fn bitxor_spec(self, rhs: u8) -> Byte {
        Byte(self.0 ^ rhs)
    }
}

/// A byte and a number or-ed bit by bit.
impl BitOr<u8> for Byte {
    type Output = Byte;

    fn bitor(self, rhs: u8) -> (r: Byte) {
        Byte(self.0 | rhs)
    }
}

impl BitOrSpecImpl<u8> for Byte {
    open spec fn obeys_bitor_spec() -> bool {
        true
    }

    open spec fn bitor_req(self, rhs: u8) -> bool {
        true
    }

    open spec fn bitor_spec(self, rhs: u8) -> Byte {
        Byte(self.0 | rhs)
    }
}

/// A byte and a number and-ed bit by bit.
impl BitAnd<u8> for Byte {
    type Output = u8;

    fn bitand(self, rhs: u8) -> (r: u8) {
        self.0 & rhs
    }
}

impl BitAndSpecImpl<u8> for Byte {
    open spec fn obeys_bitand_spec() -> bool {
        true
    }

    open spec fn bitand_req(self, rhs: u8) -> bool {
        true
    }

    open spec fn bitand_spec(self, rhs: u8) -> u8 {
        self.0 & rhs
    }
}

/// The test of a status byte against a flag: whether the flag reads as set.
/// Reserved always does.
impl BitAnd<Flag> for Byte {
    type Output = Bit;

    fn bitand(self, rhs: Flag) -> (r: Bit) {
        match rhs {
            Flag::Reserved => Bit(true),
            _ => Bit(self.0 & rhs.bit_mask() != 0),
        }
    }
}

impl BitAndSpecImpl<Flag> for Byte {
    open spec fn obeys_bitand_spec() -> bool {
        true
    }

    open spec fn bitand_req(self, rhs: Flag) -> bool {
        true
    }

    open spec fn bitand_spec(self, rhs: Flag) -> Bit {
        Bit(flag_set(self.0, rhs))
    }
}

/// The byte with the bit of a flag set in it.
impl BitOr<Flag> for Byte {
    type Output = Byte;

    fn bitor(self, rhs: Flag) -> (r: Byte) {
        Byte(self.0 | rhs.bit_mask())
    }
}

impl BitOrSpecImpl<Flag> for Byte {
    open spec fn obeys_bitor_spec() -> bool {
        true
    }

    open spec fn bitor_req(self, rhs: Flag) -> bool {
        true
    }

    open spec fn bitor_spec(self, rhs: Flag) -> Byte {
        Byte(self.0 | rhs.mask())
    }
}

/// A byte shifted left by less than eight places.
impl Shl<u8> for Byte {
    type Output = Byte;

    fn shl(self, rhs: u8) -> (r: Byte) {
        Byte(self.0 << rhs)
    }
}

impl ShlSpecImpl<u8> for Byte {
    open spec fn obeys_shl_spec() -> bool {
        true
    }

    open spec fn shl_req(self, rhs: u8) -> bool {
        rhs < 8
    }

    open spec fn shl_spec(self, rhs: u8) -> Byte {
        Byte(self.0 << rhs)
    }
}

/// A byte shifted right by less than eight places.
impl Shr<u8> for Byte {
    type Output = Byte;

    fn shr(self, rhs: u8) -> (r: Byte) {
        Byte(self.0 >> rhs)
    }
}

impl ShrSpecImpl<u8> for Byte {
    open spec fn obeys_shr_spec() -> bool {
        true
    }

    open spec fn shr_req(self, rhs: u8) -> bool {
        rhs < 8
    }

    open spec fn shr_spec(self, rhs: u8) -> Byte {
        Byte(self.0 >> rhs)
    }
}

/// The complement of a byte.
impl Not for Byte {
    type Output = Byte;

    fn not(self) -> (r: Byte) {
        Byte(!self.0)
    }
}

impl NotSpecImpl for Byte {
    open spec fn obeys_not_spec() -> bool {
        true
    }

    open spec fn not_req(self) -> bool {
        true
    }

    open spec fn not_spec(self) -> Byte {
        Byte(!self.0)
    }
}

/// Whether both bits are set.
impl BitAnd<Bit> for Bit {
    type Output = Bit;

    fn bitand(self, rhs: Bit) -> (r: Bit) {
        Bit(self.0 && rhs.0)
    }
}

impl BitAndSpecImpl<Bit> for Bit {
    open spec fn obeys_bitand_spec() -> bool {
        true
    }

    open spec fn bitand_req(self, rhs: Bit) -> bool {
        true
    }

    open spec fn bitand_spec(self, rhs: Bit) -> Bit {
        Bit(self.0 && rhs.0)
    }
}

/// Whether exactly one of two bits is set.
impl BitXor<Bit> for Bit {
    type Output = Bit;

    fn bitxor(self, rhs: Bit) -> (r: Bit) {
        Bit(self.0 != rhs.0)
    }
}

impl BitXorSpecImpl<Bit> for Bit {
    open spec fn obeys_bitxor_spec() -> bool {
        true
    }

    open spec fn bitxor_req(self, rhs: Bit) -> bool {
        true
    }

    open spec fn bitxor_spec(self, rhs: Bit) -> Bit {
        Bit(self.0 != rhs.0)
    }
}

/// The other bit.
impl Not for Bit {
    type Output = Bit;

    fn not(self) -> (r: Bit) {
        Bit(!self.0)
    }
}

impl NotSpecImpl for Bit {
    open spec fn obeys_not_spec() -> bool {
        true
    }

    open spec fn not_req(self) -> bool {
        true
    }

    open spec fn not_spec(self) -> Bit {
        Bit(!self.0)
    }
}

/// The bit moved to the place of a flag in a status byte.
impl Shl<Flag> for Bit {
    type Output = Byte;

    fn shl(self, rhs: Flag) -> (r: Byte) {
        if self.0 {
            Byte(rhs.bit_mask())
        } else {
            Byte(0)
        }
    }
}

impl ShlSpecImpl<Flag> for Bit {
    open spec fn obeys_shl_spec() -> bool {
        true
    }

    open spec fn shl_req(self, rhs: Flag) -> bool {
        true
    }

    open spec fn shl_spec(self, rhs: Flag) -> Byte {
        Byte(if self.0 { rhs.mask() } else { 0u8 })
    }
}

/// A carry bit and a byte added, modulo 256.
impl Add<Byte> for Bit {
    type Output = Byte;

    fn add(self, rhs: Byte) -> (r: Byte) {
        Byte(rhs.0.wrapping_add(if self.0 { 1 } else { 0 }))
    }
}

impl AddSpecImpl<Byte> for Bit {
    open spec fn obeys_add_spec() -> bool {
        true
    }

    open spec fn add_req(self, rhs: Byte) -> bool {
        true
    }

    open spec fn add_spec(self, rhs: Byte) -> Byte {
        Byte(wrap8(rhs.0 + (if self.0 { 1int } else { 0int })))
    }
}

/// The byte in which every bit but the flag's is set.
impl Not for Flag {
    type Output = Byte;

    fn not(self) -> (r: Byte) {
        Byte(!self.bit_mask())
    }
}

impl NotSpecImpl for Flag {
    open spec fn obeys_not_spec() -> bool {
        true
    }

    open spec fn not_req(self) -> bool {
        true
    }

    open spec fn not_spec(self) -> Byte {
        Byte(!self.mask())
    }
}

/// The sum of two addresses, modulo 65536.
impl Add<Addr> for Addr {
    type Output = Addr;

    fn add(self, rhs: Addr) -> (r: Addr) {
        Addr(self.0.wrapping_add(rhs.0))
    }
}

impl AddSpecImpl<Addr> for Addr {
    open spec fn obeys_add_spec() -> bool {
        true
    }

    open spec fn add_req(self, rhs: Addr) -> bool {
        true
    }

    open spec fn add_spec(self, rhs: Addr) -> Addr {
        Addr(wrap16(self.0 + rhs.0))
    }
}

/// The difference of two addresses, modulo 65536.
impl Sub<Addr> for Addr {
    type Output = Addr;

    fn sub(self, rhs: Addr) -> (r: Addr) {
        Addr(self.0.wrapping_sub(rhs.0))
    }
}

impl SubSpecImpl<Addr> for Addr {
    open spec fn obeys_sub_spec() -> bool {
        true
    }

    open spec fn sub_req(self, rhs: Addr) -> bool {
        true
    }

    open spec fn sub_spec(self, rhs: Addr) -> Addr {
        Addr(wrap16(self.0 - rhs.0))
    }
}

/// An address and a byte added, modulo 65536.
impl Add<Byte> for Addr {
    type Output = Addr;

    fn add(self, rhs: Byte) -> (r: Addr) {
        Addr(self.0.wrapping_add(rhs.0 as u16))
    }
}

impl AddSpecImpl<Byte> for Addr {
    open spec fn obeys_add_spec() -> bool {
        true
    }

    open spec fn add_req(self, rhs: Byte) -> bool {
        true
    }

    open spec fn add_spec(self, rhs: Byte) -> Addr {
        Addr(wrap16(self.0 + rhs.0))
    }
}

/// An address and a number added, modulo 65536.
impl Add<u8> for Addr {
    type Output = Addr;

    fn add(self, rhs: u8) -> (r: Addr) {
        Addr(self.0.wrapping_add(rhs as u16))
    }
}

impl AddSpecImpl<u8> for Addr {
    open spec fn obeys_add_spec() -> bool {
        true
    }

    open spec fn add_req(self, rhs: u8) -> bool {
        true
    }

    open spec fn add_spec(self, rhs: u8) -> Addr {
        Addr(wrap16(self.0 + rhs))
    }
}

/// A number taken from an address, modulo 65536.
impl Sub<u8> for Addr {
    type Output = Addr;

    fn sub(self, rhs: u8) -> (r: Addr) {
        Addr(self.0.wrapping_sub(rhs as u16))
    }
}

impl SubSpecImpl<u8> for Addr {
    open spec fn obeys_sub_spec() -> bool {
        true
    }

    open spec fn sub_req(self, rhs: u8) -> bool {
        true
    }

    open spec fn sub_spec(self, rhs: u8) -> Addr {
        Addr(wrap16(self.0 - rhs))
    }
}

/// An address with a byte or-ed into its low byte.
impl BitOr<Byte> for Addr {
    type Output = Addr;

    fn bitor(self, rhs: Byte) -> (r: Addr) {
        Addr(self.0 | (rhs.0 as u16))
    }
}

impl BitOrSpecImpl<Byte> for Addr {
    open spec fn obeys_bitor_spec() -> bool {
        true
    }

    open spec fn bitor_req(self, rhs: Byte) -> bool {
        true
    }

    open spec fn bitor_spec(self, rhs: Byte) -> Addr {
        Addr(self.0 | (rhs.0 as u16))
    }
}

/// An address and a number and-ed bit by bit.
impl BitAnd<u16> for Addr {
    type Output = Addr;

    fn bitand(self, rhs: u16) -> (r: Addr) {
        Addr(self.0 & rhs)
    }
}

impl BitAndSpecImpl<u16> for Addr {
    open spec fn obeys_bitand_spec() -> bool {
        true
    }

    open spec fn bitand_req(self, rhs: u16) -> bool {
        true
    }

    open spec fn bitand_spec(self, rhs: u16) -> Addr {
        Addr(self.0 & rhs)
    }
}

/// An address shifted left by less than sixteen places.
impl Shl<u8> for Addr {
    type Output = Addr;

    fn shl(self, rhs: u8) -> (r: Addr) {
        Addr(self.0 << rhs)
    }
}

impl ShlSpecImpl<u8> for Addr {
    open spec fn obeys_shl_spec() -> bool {
        true
    }

    open spec fn shl_req(self, rhs: u8) -> bool {
        rhs < 16
    }

    open spec fn shl_spec(self, rhs: u8) -> Addr {
        Addr(self.0 << rhs)
    }
}

/// An address shifted right by less than sixteen places.
impl Shr<u8> for Addr {
    type Output = Addr;

    fn shr(self, rhs: u8) -> (r: Addr) {
        Addr(self.0 >> rhs)
    }
}

impl ShrSpecImpl<u8> for Addr {
    open spec fn obeys_shr_spec() -> bool {
        true
    }

    open spec fn shr_req(self, rhs: u8) -> bool {
        rhs < 16
    }

    open spec fn shr_spec(self, rhs: u8) -> Addr {
        Addr(self.0 >> rhs)
    }
}

/// A number as a byte.
impl From<u8> for Byte {
    fn from(value: u8) -> (r: Byte) {
        Byte(value)
    }
}

impl FromSpecImpl<u8> for Byte {
    open spec fn obeys_from_spec() -> bool {
        true
    }

    open spec fn from_spec(value: u8) -> Byte {
        Byte(value)
    }
}

/// The low byte of an address.
impl From<Addr> for Byte {
    fn from(value: Addr) -> (r: Byte) {
        Byte((value.0 % 256) as u8)
    }
}

impl FromSpecImpl<Addr> for Byte {
    open spec fn obeys_from_spec() -> bool {
        true
    }

    open spec fn from_spec(value: Addr) -> Byte {
        Byte(low_byte(value.0))
    }
}

/// Whether a byte is not zero.
impl From<Byte> for Bit {
    fn from(value: Byte) -> (r: Bit) {
        Bit(value.0 != 0)
    }
}

impl FromSpecImpl<Byte> for Bit {
    open spec fn obeys_from_spec() -> bool {
        true
    }

    open spec fn from_spec(value: Byte) -> Bit {
        Bit(value.0 != 0)
    }
}

/// A number as an address.
impl From<u16> for Addr {
    fn from(value: u16) -> (r: Addr) {
        Addr(value)
    }
}

impl FromSpecImpl<u16> for Addr {
    open spec fn obeys_from_spec() -> bool {
        true
    }

    open spec fn from_spec(value: u16) -> Addr {
        Addr(value)
    }
}

/// A number as an address in the zero page.
impl From<u8> for Addr {
    fn from(value: u8) -> (r: Addr) {
        Addr(value as u16)
    }
}

impl FromSpecImpl<u8> for Addr {
    open spec fn obeys_from_spec() -> bool {
        true
    }

    open spec fn from_spec(value: u8) -> Addr {
        Addr(value as u16)
    }
}

/// A byte as an address in the zero page.
impl From<Byte> for Addr {
    fn from(value: Byte) -> (r: Addr) {
        Addr(value.0 as u16)
    }
}

impl FromSpecImpl<Byte> for Addr {
    open spec fn obeys_from_spec() -> bool {
        true
    }

    open spec fn from_spec(value: Byte) -> Addr {
        Addr(value.0 as u16)
    }
}

/// Adds a number to the byte, modulo 256.
impl AddAssign<u8> for Byte {
    fn add_assign(&mut self, rhs: u8)
        ensures
            final(self).0 == wrap8(old(self).0 + rhs),
    {
        *self = Byte(self.0.wrapping_add(rhs));
    }
}

/// Takes a number from the byte, modulo 256.
impl SubAssign<u8> for Byte {
    fn sub_assign(&mut self, rhs: u8)
        ensures
            final(self).0 == wrap8(old(self).0 - rhs),
    {
        *self = Byte(self.0.wrapping_sub(rhs));
    }
}

/// Ors a byte into the byte.
impl BitOrAssign<Byte> for Byte {
    fn bitor_assign(&mut self, rhs: Byte)
        ensures
            final(self).0 == old(self).0 | rhs.0,
    {
        *self = Byte(self.0 | rhs.0);
    }
}

/// Sets the bit of a flag in the byte.
impl BitOrAssign<Flag> for Byte {
    fn bitor_assign(&mut self, rhs: Flag)
        ensures
            final(self).0 == old(self).0 | rhs.mask(),
    {
        *self = Byte(self.0 | rhs.bit_mask());
    }
}

/// Ors a bit into bit 0 of the byte.
impl BitOrAssign<Bit> for Byte {
    fn bitor_assign(&mut self, rhs: Bit)
        ensures
            final(self).0 == old(self).0 | (if rhs.0 { 1u8 } else { 0u8 }),
    {
        *self = Byte(self.0 | (if rhs.0 { 1u8 } else { 0u8 }));
    }
}

/// Exclusive-ors a byte into the byte.
impl BitXorAssign<Byte> for Byte {
    fn bitxor_assign(&mut self, rhs: Byte)
        ensures
            final(self).0 == old(self).0 ^ rhs.0,
    {
        *self = Byte(self.0 ^ rhs.0);
    }
}

/// Ands a byte into the byte.
impl BitAndAssign<Byte> for Byte {
    fn bitand_assign(&mut self, rhs: Byte)
        ensures
            final(self).0 == old(self).0 & rhs.0,
    {
        *self = Byte(self.0 & rhs.0);
    }
}

/// Ands a number into the byte.
impl BitAndAssign<u8> for Byte {
    fn bitand_assign(&mut self, rhs: u8)
        ensures
            final(self).0 == old(self).0 & rhs,
    {
        *self = Byte(self.0 & rhs);
    }
}

/// Shifts the byte right by less than eight places.
impl ShrAssign<u8> for Byte {
    fn shr_assign(&mut self, rhs: u8)
        requires
            rhs < 8,
        ensures
            final(self).0 == old(self).0 >> rhs,
    {
        *self = Byte(self.0 >> rhs);
    }
}

/// Shifts the byte left by less than eight places.
impl ShlAssign<u8> for Byte {
    fn shl_assign(&mut self, rhs: u8)
        requires
            rhs < 8,
        ensures
            final(self).0 == old(self).0 << rhs,
    {
        *self = Byte(self.0 << rhs);
    }
}

/// Adds a number to the address, modulo 65536.
impl AddAssign<u16> for Addr {
    fn add_assign(&mut self, rhs: u16)
        ensures
            final(self).0 == wrap16(old(self).0 + rhs),
    {
        *self = Addr(self.0.wrapping_add(rhs));
    }
}

/// A byte is read as the number in it.
impl Deref for Byte {
    type Target = u8;

    fn deref(&self) -> (r: &u8)
        ensures
            *r == self.0,
    {
        &self.0
    }
}

/// An address is read as the number in it.
impl Deref for Addr {
    type Target = u16;

    fn deref(&self) -> (r: &u16)
        ensures
            *r == self.0,
    {
        &self.0
    }
}

/// An address as an index.
impl From<Addr> for usize {
    fn from(val: Addr) -> (r: usize) {
        val.0 as usize
    }
}

impl FromSpecImpl<Addr> for usize {
    open spec fn obeys_from_spec() -> bool {
        true
    }

    open spec fn from_spec(val: Addr) -> usize {
        val.0 as usize
    }
}

} // verus!
