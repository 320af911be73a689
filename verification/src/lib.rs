//! Register-level model of the BM1397 ASIC: a closed catalog of register
//! addresses and bit-exact codecs for register values.
//!
//! The catalog side ([`Reg`]) binds each symbolic register name to its fixed
//! numeric offset, classifies it as read-only or read-write, and validates raw
//! address bytes. The codec side ([`ChipAddress`]) wraps a register's raw
//! 32-bit contents and exposes its named bit fields by shift and mask.
//! Everything here is pure data and pure functions over integers; the bus
//! transport that moves raw values to and from the chip lives elsewhere and
//! consumes these types as already-validated values.

pub mod addr;
pub mod registers;

pub use addr::Reg;
pub use registers::ChipAddress;
