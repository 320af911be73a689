//! The address catalog: the closed set of BM1397 register addresses.

use vstd::prelude::*;
use vstd::std_specs::convert::FromSpecImpl;

verus! {

/// BM1397 common register addresses.
///
/// The set is closed and fixed by the hardware: each name is bound to one
/// numeric offset in the chip's 8-bit register address space, and no two
/// names share an offset (see [`lemma_addr_bijection`]).
#[derive(Debug, PartialEq, Eq, Structural, Clone, Copy)]
#[allow(non_camel_case_types)]
pub enum Reg {
    /// Address of the Chip Address register.
    CHIPADDR,
    /// Address of the Hash Rate register.
    HASHRATE,
    /// Address of the PLL0 Parameter register.
    PLL0PARAM,
    /// Address of the Chip Nonce Offset register.
    CHIPNONCEOFF,
    /// Address of the Hash Counting Number register.
    HASHCNTNBR,
    /// Address of the Ticket Mask register.
    TICKETMASK,
    /// Address of the Misc Control register.
    MISCCTRL,
    /// Address of the Ordered Clock Enable register.
    ORDCLKEN,
    /// Address of the Fast UART Configuration register.
    FASTUARTCFG,
    /// Address of the UART Relay register.
    UARTRELAY,
    /// Address of the Ticket Mask2 register.
    TICKETMASK2,
    /// Address of the External Temperature Sensor Read register.
    EXTTEMPSENSRD,
    /// Address of the Error Flag register.
    ERRFLAG,
    /// Address of the Nonce Error Counter register.
    NONCEERRCNT,
    /// Address of the Nonce Overflow Counter register.
    NONCEOVFLCNT,
    /// Address of the Analog Mux Control register.
    ANAMUXCTRL,
    /// Address of the IO Driver Strenght Configuration register.
    IODRVSTRCFG,
    /// Address of the Time Out register.
    TIMEOUT,
    /// Address of the PLL1 Parameter register.
    PLL1PARAM,
    /// Address of the PLL2 Parameter register.
    PLL2PARAM,
    /// Address of the PLL3 Parameter register.
    PLL3PARAM,
    /// Address of the Ordered Clock Monitor register.
    ORDCLKMON,
    /// Address of the PLL0 Divider register.
    PLL0DIV,
    /// Address of the PLL1 Divider register.
    PLL1DIV,
    /// Address of the PLL2 Divider register.
    PLL2DIV,
    /// Address of the PLL3 Divider register.
    PLL3DIV,
    /// Address of the Clock Order Control0 register.
    CLKORDCTRL0,
    /// Address of the Clock Order Control1 register.
    CLKORDCTRL1,
    /// Address of the Clock Order Status register.
    CLKORDSTAT,
    /// Address of the Frequency Sweep Control1 register.
    FREQSWECTRL1,
    /// Address of the Golden Nonce For Sweep Return register.
    GLDNONCESWERET,
    /// Address of the Returned Group Pattern Status register.
    RETGRPPATTSTAT,
    /// Address of the Nonce Returned Timeout register.
    NONCERETTIMO,
    /// Address of the Returned Single Pattern Status register.
    RETSINGPATTSTAT,
}

impl Reg {
    /// The numeric offset the hardware assigns to each register name.
    pub open spec fn spec_addr(self) -> u8 {
        match self {
            Reg::CHIPADDR => 0x00,
            Reg::HASHRATE => 0x04,
            Reg::PLL0PARAM => 0x08,
            Reg::CHIPNONCEOFF => 0x0C,
            Reg::HASHCNTNBR => 0x10,
            Reg::TICKETMASK => 0x14,
            Reg::MISCCTRL => 0x18,
            Reg::ORDCLKEN => 0x20,
            Reg::FASTUARTCFG => 0x28,
            Reg::UARTRELAY => 0x2C,
            Reg::TICKETMASK2 => 0x38,
            Reg::EXTTEMPSENSRD => 0x44,
            Reg::ERRFLAG => 0x48,
            Reg::NONCEERRCNT => 0x4C,
            Reg::NONCEOVFLCNT => 0x50,
            Reg::ANAMUXCTRL => 0x54,
            Reg::IODRVSTRCFG => 0x58,
            Reg::TIMEOUT => 0x5C,
            Reg::PLL1PARAM => 0x60,
            Reg::PLL2PARAM => 0x64,
            Reg::PLL3PARAM => 0x68,
            Reg::ORDCLKMON => 0x6C,
            Reg::PLL0DIV => 0x70,
            Reg::PLL1DIV => 0x74,
            Reg::PLL2DIV => 0x78,
            Reg::PLL3DIV => 0x7C,
            Reg::CLKORDCTRL0 => 0x80,
            Reg::CLKORDCTRL1 => 0x84,
            Reg::CLKORDSTAT => 0x8C,
            Reg::FREQSWECTRL1 => 0x90,
            Reg::GLDNONCESWERET => 0x94,
            Reg::RETGRPPATTSTAT => 0x98,
            Reg::NONCERETTIMO => 0x9C,
            Reg::RETSINGPATTSTAT => 0xA0,
        }
    }

    /// Whether a raw byte is the address of some declared register.
    pub open spec fn spec_is_declared(val: u8) -> bool {
        exists|r: Reg| r.spec_addr() == val
    }

    /// Whether the hardware forbids writes to the register: only the three
    /// status/monitor registers are read-only; every other declared register
    /// is read-write.
    pub open spec fn spec_is_ro(self) -> bool {
        self == Reg::CLKORDSTAT || self == Reg::RETGRPPATTSTAT || self == Reg::RETSINGPATTSTAT
    }

    /// Get the address of the register.
    pub fn addr(self) -> (r: u8)
        ensures
            r == self.spec_addr(),
    {
        match self {
            Reg::CHIPADDR => 0x00,
            Reg::HASHRATE => 0x04,
            Reg::PLL0PARAM => 0x08,
            Reg::CHIPNONCEOFF => 0x0C,
            Reg::HASHCNTNBR => 0x10,
            Reg::TICKETMASK => 0x14,
            Reg::MISCCTRL => 0x18,
            Reg::ORDCLKEN => 0x20,
            Reg::FASTUARTCFG => 0x28,
            Reg::UARTRELAY => 0x2C,
            Reg::TICKETMASK2 => 0x38,
            Reg::EXTTEMPSENSRD => 0x44,
            Reg::ERRFLAG => 0x48,
            Reg::NONCEERRCNT => 0x4C,
            Reg::NONCEOVFLCNT => 0x50,
            Reg::ANAMUXCTRL => 0x54,
            Reg::IODRVSTRCFG => 0x58,
            Reg::TIMEOUT => 0x5C,
            Reg::PLL1PARAM => 0x60,
            Reg::PLL2PARAM => 0x64,
            Reg::PLL3PARAM => 0x68,
            Reg::ORDCLKMON => 0x6C,
            Reg::PLL0DIV => 0x70,
            Reg::PLL1DIV => 0x74,
            Reg::PLL2DIV => 0x78,
            Reg::PLL3DIV => 0x7C,
            Reg::CLKORDCTRL0 => 0x80,
            Reg::CLKORDCTRL1 => 0x84,
            Reg::CLKORDSTAT => 0x8C,
            Reg::FREQSWECTRL1 => 0x90,
            Reg::GLDNONCESWERET => 0x94,
            Reg::RETGRPPATTSTAT => 0x98,
            Reg::NONCERETTIMO => 0x9C,
            Reg::RETSINGPATTSTAT => 0xA0,
        }
    }

    /// Returns `true` if the register is read-only.
    ///
    /// The transport layer must consult this before issuing a write
    /// transaction; this function only classifies, it does not enforce.
    pub fn is_ro(self) -> (r: bool)
        ensures
            r == self.spec_is_ro(),
    {
        matches!(self, Reg::CLKORDSTAT | Reg::RETGRPPATTSTAT | Reg::RETSINGPATTSTAT)
    }

    /// Validate a raw address byte against the declared register set.
    ///
    /// Returns the register whose address is `val`, or, when no declared
    /// register has that address, an error carrying the offending raw value.
    pub fn try_from(val: u8) -> (r: Result<Reg, u8>)
        ensures
            match r {
                Ok(reg) => reg.spec_addr() == val,
                Err(e) => e == val && !Reg::spec_is_declared(val),
            },
    {
        match val {
            0x00 => Ok(Reg::CHIPADDR),
            0x04 => Ok(Reg::HASHRATE),
            0x08 => Ok(Reg::PLL0PARAM),
            0x0C => Ok(Reg::CHIPNONCEOFF),
            0x10 => Ok(Reg::HASHCNTNBR),
            0x14 => Ok(Reg::TICKETMASK),
            0x18 => Ok(Reg::MISCCTRL),
            0x20 => Ok(Reg::ORDCLKEN),
            0x28 => Ok(Reg::FASTUARTCFG),
            0x2C => Ok(Reg::UARTRELAY),
            0x38 => Ok(Reg::TICKETMASK2),
            0x44 => Ok(Reg::EXTTEMPSENSRD),
            0x48 => Ok(Reg::ERRFLAG),
            0x4C => Ok(Reg::NONCEERRCNT),
            0x50 => Ok(Reg::NONCEOVFLCNT),
            0x54 => Ok(Reg::ANAMUXCTRL),
            0x58 => Ok(Reg::IODRVSTRCFG),
            0x5C => Ok(Reg::TIMEOUT),
            0x60 => Ok(Reg::PLL1PARAM),
            0x64 => Ok(Reg::PLL2PARAM),
            0x68 => Ok(Reg::PLL3PARAM),
            0x6C => Ok(Reg::ORDCLKMON),
            0x70 => Ok(Reg::PLL0DIV),
            0x74 => Ok(Reg::PLL1DIV),
            0x78 => Ok(Reg::PLL2DIV),
            0x7C => Ok(Reg::PLL3DIV),
            0x80 => Ok(Reg::CLKORDCTRL0),
            0x84 => Ok(Reg::CLKORDCTRL1),
            0x8C => Ok(Reg::CLKORDSTAT),
            0x90 => Ok(Reg::FREQSWECTRL1),
            0x94 => Ok(Reg::GLDNONCESWERET),
            0x98 => Ok(Reg::RETGRPPATTSTAT),
            0x9C => Ok(Reg::NONCERETTIMO),
            0xA0 => Ok(Reg::RETSINGPATTSTAT),
            _ => Err(val),
        }
    }
}

/// Law: the name-to-address mapping is a bijection onto the declared address
/// set. Every register name's address is itself a declared address, and two
/// names with the same address are the same name, so validating a name's own
/// address recovers exactly that name.
pub proof fn lemma_addr_bijection(a: Reg, b: Reg)
    ensures
        Reg::spec_is_declared(a.spec_addr()),
        a.spec_addr() == b.spec_addr() ==> a == b,
{
}

impl From<Reg> for u8 {
    /// The numeric address of a register name.
    fn from(reg: Reg) -> (r: u8) {
        reg.addr()
    }
}

impl FromSpecImpl<Reg> for u8 {
    open spec fn obeys_from_spec() -> bool {
        true
    }

    open spec fn from_spec(v: Reg) -> u8 {
        v.spec_addr()
    }
}

} // verus!
