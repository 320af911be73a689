//! Tests for the register address catalog.

use bm1397_ll::Reg;

fn all_regs() -> Vec<Reg> {
    vec![
        Reg::CHIPADDR,
        Reg::HASHRATE,
        Reg::PLL0PARAM,
        Reg::CHIPNONCEOFF,
        Reg::HASHCNTNBR,
        Reg::TICKETMASK,
        Reg::MISCCTRL,
        Reg::ORDCLKEN,
        Reg::FASTUARTCFG,
        Reg::UARTRELAY,
        Reg::TICKETMASK2,
        Reg::EXTTEMPSENSRD,
        Reg::ERRFLAG,
        Reg::NONCEERRCNT,
        Reg::NONCEOVFLCNT,
        Reg::ANAMUXCTRL,
        Reg::IODRVSTRCFG,
        Reg::TIMEOUT,
        Reg::PLL1PARAM,
        Reg::PLL2PARAM,
        Reg::PLL3PARAM,
        Reg::ORDCLKMON,
        Reg::PLL0DIV,
        Reg::PLL1DIV,
        Reg::PLL2DIV,
        Reg::PLL3DIV,
        Reg::CLKORDCTRL0,
        Reg::CLKORDCTRL1,
        Reg::CLKORDSTAT,
        Reg::FREQSWECTRL1,
        Reg::GLDNONCESWERET,
        Reg::RETGRPPATTSTAT,
        Reg::NONCERETTIMO,
        Reg::RETSINGPATTSTAT,
    ]
}

#[test]
fn lookup_inverts_addr_for_every_name() {
    for reg in all_regs() {
        assert_eq!(Reg::try_from(reg.addr()), Ok(reg));
    }
}

#[test]
fn lookup_rejects_every_undeclared_value() {
    let mut declared = [false; 256];
    for reg in all_regs() {
        declared[reg.addr() as usize] = true;
    }
    for raw in 0..=255u8 {
        if !declared[raw as usize] {
            assert_eq!(Reg::try_from(raw), Err(raw));
        }
    }
}

#[test]
fn addresses_are_unique() {
    let regs = all_regs();
    for (i, a) in regs.iter().enumerate() {
        for b in regs.iter().skip(i + 1) {
            assert_ne!(a.addr(), b.addr());
        }
    }
}

#[test]
fn addr_values_match_the_datasheet() {
    assert_eq!(Reg::CHIPADDR.addr(), 0x00);
    assert_eq!(Reg::HASHRATE.addr(), 0x04);
    assert_eq!(Reg::MISCCTRL.addr(), 0x18);
    assert_eq!(Reg::IODRVSTRCFG.addr(), 0x58);
    assert_eq!(Reg::CLKORDSTAT.addr(), 0x8C);
    assert_eq!(Reg::RETSINGPATTSTAT.addr(), 0xA0);
    assert_eq!(all_regs().len(), 34);
}

#[test]
fn read_only_classification_is_stable_and_matches_the_table() {
    for reg in all_regs() {
        let expected = matches!(
            reg,
            Reg::CLKORDSTAT | Reg::RETGRPPATTSTAT | Reg::RETSINGPATTSTAT
        );
        assert_eq!(reg.is_ro(), expected);
        assert_eq!(reg.is_ro(), reg.is_ro());
    }
}

#[test]
fn lookup_scenarios() {
    let reg = Reg::try_from(0x58).unwrap();
    assert_eq!(reg, Reg::IODRVSTRCFG);
    assert!(!reg.is_ro());

    let reg = Reg::try_from(0x8C).unwrap();
    assert_eq!(reg, Reg::CLKORDSTAT);
    assert!(reg.is_ro());

    assert_eq!(Reg::try_from(0xFF), Err(0xFF));
}

#[test]
fn u8_from_reg_is_the_address() {
    for reg in all_regs() {
        assert_eq!(u8::from(reg), reg.addr());
    }
    assert_eq!(u8::from(Reg::TIMEOUT), 0x5C);
}
