use rpi5_bsp::bcm2712_pcie::BCM2712PCIe;
use rpi5_bsp::memory::{Address, BusOp, Virtual};

const RC: u64 = 0x4_0000;
const RP1: u64 = 0x4000_0000;
const CFG: u64 = RP1 + 0x9000;

#[derive(Debug, PartialEq)]
enum Access {
    R(u64),
    W(u64, u32),
}

fn run(regs: &[(u64, u32)]) -> Vec<Access> {
    let pcie = BCM2712PCIe::new(Address::<Virtual>::new(RC), Address::<Virtual>::new(RP1));
    let mut init = pcie.init();
    let mut log = Vec::new();
    let mut read = 0;
    loop {
        match init.next(read) {
            BusOp::Read { addr } => {
                log.push(Access::R(addr));
                read = regs.iter().find(|(a, _)| *a == addr).map(|(_, v)| *v).unwrap_or(0);
            }
            BusOp::Write(w) => log.push(Access::W(w.addr, w.value)),
            BusOp::Done => return log,
        }
        assert!(log.len() < 1000, "bring-up does not end");
    }
}

fn prefix() -> Vec<Access> {
    vec![
        Access::R(RC + 0x4008),
        Access::W(RC + 0x4008, 0x0000_1101),
        Access::W(RC + 0x4034, 0xFFFF_F01C),
        Access::W(RC + 0x4038, 0xFF),
        Access::W(RC + 0x40B4, 0x0013_0001),
        Access::W(RC + 0x40B8, 0x10),
        Access::R(CFG + 4),
        Access::W(CFG + 4, 0x0010_0006),
        Access::R(CFG + 0x34),
    ]
}

fn routing() -> Vec<Access> {
    let e = RP1 + 0x31_0000 + 25 * 16;
    vec![
        Access::W(e, 0xFFFF_F000),
        Access::W(e + 4, 0xFF),
        Access::W(e + 8, 0),
        Access::W(e + 12, 0),
        Access::W(RP1 + 0x806C, 0x9),
    ]
}

fn base_regs() -> Vec<(u64, u32)> {
    vec![(RC + 0x4008, 0x0000_0101), (CFG + 4, 0x0010_0000)]
}

#[test]
fn init_enables_msix_found_down_the_list() {
    // 0x40: power management (0x01) -> 0x50: MSI (0x05) -> 0x70: MSI-X (0x11), disabled.
    let mut regs = base_regs();
    regs.extend([(CFG + 0x34, 0xAB40), (CFG + 0x40, 0x0003_5001), (CFG + 0x50, 0x0080_7005), (CFG + 0x70, 0x003F_0011)]);
    let mut want = prefix();
    want.extend([Access::R(CFG + 0x40), Access::R(CFG + 0x50), Access::R(CFG + 0x70), Access::W(CFG + 0x70, 0x803F_0011)]);
    want.extend(routing());
    assert_eq!(run(&regs), want);
}

#[test]
fn init_leaves_enabled_msix_alone() {
    let mut regs = base_regs();
    regs.extend([(CFG + 0x34, 0x40), (CFG + 0x40, 0x8000_0011)]);
    let mut want = prefix();
    want.push(Access::R(CFG + 0x40));
    want.extend(routing());
    assert_eq!(run(&regs), want);
}

#[test]
fn init_without_msix_reads_to_end_of_list() {
    let mut regs = base_regs();
    regs.extend([(CFG + 0x34, 0x40), (CFG + 0x40, 0x0000_4801), (CFG + 0x48, 0x0000_0005)]);
    let mut want = prefix();
    want.extend([Access::R(CFG + 0x40), Access::R(CFG + 0x48)]);
    want.extend(routing());
    assert_eq!(run(&regs), want);
}

#[test]
fn init_with_empty_capability_list() {
    let mut regs = base_regs();
    regs.push((CFG + 0x34, 0x1200));
    let mut want = prefix();
    want.extend(routing());
    assert_eq!(run(&regs), want);
}

#[test]
fn init_uses_low_byte_of_cap_ptr_and_of_next_field() {
    let mut regs = base_regs();
    regs.extend([(CFG + 0x34, 0xFF44), (CFG + 0x44, 0xFFAB_6001), (CFG + 0x60, 0x0000_0011)]);
    let mut want = prefix();
    want.extend([Access::R(CFG + 0x44), Access::R(CFG + 0x60), Access::W(CFG + 0x60, 0x8000_0011)]);
    want.extend(routing());
    assert_eq!(run(&regs), want);
}
