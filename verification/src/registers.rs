//! Register value codecs: typed wrappers over raw register contents.

use vstd::prelude::*;
use vstd::std_specs::convert::{FromSpec, FromSpecImpl};

verus! {

/// Chip Address register (CHIPADDR).
///
/// Wraps the raw 32-bit register contents and exposes its three named bit
/// fields: `CHIP_ID` (bits 16 through 31), `CORE_NUM` (bits 8 through 15)
/// and `ADDR` (bits 0 through 7). The raw integer is the only stored state;
/// every accessor is a pure shift-and-mask function of it.
#[derive(Debug, Copy, Clone, Eq, PartialEq, Structural, Hash)]
pub struct ChipAddress(pub u32);

impl View for ChipAddress {
    type V = u32;

    open spec fn view(&self) -> u32 {
        self.0
    }
}

impl ChipAddress {
    /// Chip Address register reset value.
    pub const RESET: u32 = 0x1397_1800;

    /// Bit offset for the `CHIP_ID` field.
    pub const CHIP_ID_OFFSET: u32 = 16;

    /// Bit offset for the `CORE_NUM` field.
    pub const CORE_NUM_OFFSET: u32 = 8;

    /// Bit offset for the `ADDR` field.
    pub const ADDR_OFFSET: u32 = 0;

    /// Bit mask for the `CHIP_ID` field.
    pub const CHIP_ID_MASK: u32 = 0xffff_0000;

    /// Bit mask for the `CORE_NUM` field.
    pub const CORE_NUM_MASK: u32 = 0x0000_ff00;

    /// Bit mask for the `ADDR` field.
    pub const ADDR_MASK: u32 = 0x0000_00ff;

    /// The `CHIP_ID` field of a raw value: bits 16 through 31.
    pub open spec fn spec_chip_id(raw: u32) -> u16 {
        ((raw >> Self::CHIP_ID_OFFSET) & 0xffff) as u16
    }

    /// The `CORE_NUM` field of a raw value: bits 8 through 15.
    pub open spec fn spec_core_num(raw: u32) -> u8 {
        ((raw >> Self::CORE_NUM_OFFSET) & 0xff) as u8
    }

    /// The `ADDR` field of a raw value: bits 0 through 7.
    pub open spec fn spec_addr(raw: u32) -> u8 {
        ((raw >> Self::ADDR_OFFSET) & 0xff) as u8
    }

    /// A raw value with its `CHIP_ID` bits replaced by `chip_id`: the old
    /// field bits are cleared and the new value is shifted into their place.
    pub open spec fn spec_with_chip_id(raw: u32, chip_id: u16) -> u32 {
        (raw & !Self::CHIP_ID_MASK) | ((chip_id as u32) << Self::CHIP_ID_OFFSET)
    }

    /// A raw value with its `CORE_NUM` bits replaced by `core_num`.
    pub open spec fn spec_with_core_num(raw: u32, core_num: u8) -> u32 {
        (raw & !Self::CORE_NUM_MASK) | ((core_num as u32) << Self::CORE_NUM_OFFSET)
    }

    /// A raw value with its `ADDR` bits replaced by `addr`.
    pub open spec fn spec_with_addr(raw: u32, addr: u8) -> u32 {
        (raw & !Self::ADDR_MASK) | ((addr as u32) << Self::ADDR_OFFSET)
    }

    /// Get the chip id.
    ///
    /// This returns an `u16` with the chip_id value.
    pub fn chip_id(&self) -> (r: u16)
        ensures
            r == Self::spec_chip_id(self@),
    {
        let raw: u32 = self.0;
        proof {
            assert((raw >> 16) as u16 == (((raw >> 16) & 0xffff) as u16)) by (bit_vector);
        }
        (raw >> Self::CHIP_ID_OFFSET) as u16
    }

    /// Get the core num.
    ///
    /// This returns an `u8` with the core_num value.
    pub fn core_num(&self) -> (r: u8)
        ensures
            r == Self::spec_core_num(self@),
    {
        let raw: u32 = self.0;
        proof {
            assert((raw >> 8) as u8 == (((raw >> 8) & 0xff) as u8)) by (bit_vector);
        }
        (raw >> Self::CORE_NUM_OFFSET) as u8
    }

    /// Get the address.
    ///
    /// This returns an `u8` with the address value.
    pub fn addr(&self) -> (r: u8)
        ensures
            r == Self::spec_addr(self@),
    {
        let raw: u32 = self.0;
        proof {
            assert((raw >> 0) as u8 == (((raw >> 0) & 0xff) as u8)) by (bit_vector);
        }
        (raw >> Self::ADDR_OFFSET) as u8
    }

    /// Return a copy with the `CHIP_ID` field set to `chip_id`.
    ///
    /// Every bit outside the `CHIP_ID` field keeps its old value.
    pub fn set_chip_id(self, chip_id: u16) -> (r: Self)
        ensures
            r@ == Self::spec_with_chip_id(self@, chip_id),
            Self::spec_chip_id(r@) == chip_id,
    {
        let raw: u32 = self.0;
        proof {
            assert(((((raw & !0xffff_0000u32) | ((chip_id as u32) << 16)) >> 16) & 0xffff)
                == chip_id as u32) by (bit_vector);
        }
        ChipAddress((raw & !Self::CHIP_ID_MASK) | ((chip_id as u32) << Self::CHIP_ID_OFFSET))
    }

    /// Return a copy with the `CORE_NUM` field set to `core_num`.
    ///
    /// Every bit outside the `CORE_NUM` field keeps its old value.
    pub fn set_core_num(self, core_num: u8) -> (r: Self)
        ensures
            r@ == Self::spec_with_core_num(self@, core_num),
            Self::spec_core_num(r@) == core_num,
    {
        let raw: u32 = self.0;
        proof {
            assert(((((raw & !0x0000_ff00u32) | ((core_num as u32) << 8)) >> 8) & 0xff)
                == core_num as u32) by (bit_vector);
        }
        ChipAddress((raw & !Self::CORE_NUM_MASK) | ((core_num as u32) << Self::CORE_NUM_OFFSET))
    }

    /// Return a copy with the `ADDR` field set to `addr`.
    ///
    /// Every bit outside the `ADDR` field keeps its old value.
    pub fn set_addr(self, addr: u8) -> (r: Self)
        ensures
            r@ == Self::spec_with_addr(self@, addr),
            Self::spec_addr(r@) == addr,
    {
        let raw: u32 = self.0;
        proof {
            assert(((((raw & !0x0000_00ffu32) | ((addr as u32) << 0)) >> 0) & 0xff)
                == addr as u32) by (bit_vector);
        }
        ChipAddress((raw & !Self::ADDR_MASK) | ((addr as u32) << Self::ADDR_OFFSET))
    }
}

/// Law: field isolation. Encoding a new value into one field of the Chip
/// Address register leaves the bits of every other field numerically
/// unchanged: each of the three encoders preserves the decoded value of the
/// two fields it does not touch, for every raw value and every new field
/// value.
pub proof fn lemma_field_isolation(raw: u32, chip_id: u16, core_num: u8, addr: u8)
    by (bit_vector)
    ensures
        ChipAddress::spec_core_num(ChipAddress::spec_with_chip_id(raw, chip_id))
            == ChipAddress::spec_core_num(raw),
        ChipAddress::spec_addr(ChipAddress::spec_with_chip_id(raw, chip_id))
            == ChipAddress::spec_addr(raw),
        ChipAddress::spec_chip_id(ChipAddress::spec_with_core_num(raw, core_num))
            == ChipAddress::spec_chip_id(raw),
        ChipAddress::spec_addr(ChipAddress::spec_with_core_num(raw, core_num))
            == ChipAddress::spec_addr(raw),
        ChipAddress::spec_chip_id(ChipAddress::spec_with_addr(raw, addr))
            == ChipAddress::spec_chip_id(raw),
        ChipAddress::spec_core_num(ChipAddress::spec_with_addr(raw, addr))
            == ChipAddress::spec_core_num(raw),
{
}

/// Law: raw-integer round trip. Wrapping any raw integer in a `ChipAddress`
/// and unwrapping it yields exactly that integer, and re-wrapping a value's
/// raw integer yields the value itself: the two `From` conversions are
/// mutually inverse.
pub proof fn lemma_raw_round_trip(raw: u32, v: ChipAddress)
    ensures
        <u32 as FromSpec<ChipAddress>>::from_spec(
            <ChipAddress as FromSpec<u32>>::from_spec(raw),
        ) == raw,
        <ChipAddress as FromSpec<u32>>::from_spec(
            <u32 as FromSpec<ChipAddress>>::from_spec(v),
        ) == v,
{
}

impl From<u32> for ChipAddress {
    /// Wrap a raw register value; every 32-bit integer is acceptable.
    fn from(val: u32) -> (r: Self) {
        ChipAddress(val)
    }
}

impl FromSpecImpl<u32> for ChipAddress {
    open spec fn obeys_from_spec() -> bool {
        true
    }

    open spec fn from_spec(v: u32) -> ChipAddress {
        ChipAddress(v)
    }
}

impl From<ChipAddress> for u32 {
    /// Unwrap the raw register value.
    fn from(val: ChipAddress) -> (r: u32) {
        val.0
    }
}

impl FromSpecImpl<ChipAddress> for u32 {
    open spec fn obeys_from_spec() -> bool {
        true
    }

    open spec fn from_spec(v: ChipAddress) -> u32 {
        v.0
    }
}

impl Default for ChipAddress {
    /// The hardware reset value of the register, the caller's assumption
    /// before any read has occurred.
    fn default() -> (r: Self)
        ensures
            r@ == ChipAddress::RESET,
    {
        ChipAddress(ChipAddress::RESET)
    }
}

} // verus!
