use rpi5_bsp::bcm2712_ic::{
    BCM2712InterruptController, IntcInitStep, IrqCompletion, IrqDispatch, RegistrationStep,
};
use rpi5_bsp::bcm2712_pcie::BCM2712PCIe;
use rpi5_bsp::fields::{field_clear, field_set};
use rpi5_bsp::memory::{phys_addr_space_end_exclusive_addr, Address, BusOp, PageAddress, Physical, Virtual};
use rpi5_bsp::rp1_gpio::{GPIOInner, GPIO};

const RP1_BASE: u64 = 0xFFFF_0000_4000_0000;
const RC_BASE: u64 = 0xFFFF_0000_0010_0000;
const MIP_BASE: u64 = 0xFFFF_0000_0020_0000;
const PADS: u64 = 0xFFFF_0000_0030_0000;
const GIO: u64 = 0xFFFF_0000_0040_0000;

#[derive(Debug, PartialEq)]
enum Access {
    R(u64),
    W(u64, u32),
}

/// Drive a machine: `next` is called with the value of the last read,
/// looked up in `regs` (0 when absent); returns the accesses made.
fn drive(mut next: impl FnMut(u32) -> BusOp, regs: &[(u64, u32)]) -> Vec<Access> {
    let mut log = Vec::new();
    let mut read = 0;
    loop {
        match next(read) {
            BusOp::Read { addr } => {
                log.push(Access::R(addr));
                read = regs.iter().find(|(a, _)| *a == addr).map(|(_, v)| *v).unwrap_or(0);
            }
            BusOp::Write(w) => log.push(Access::W(w.addr, w.value)),
            BusOp::Done => return log,
        }
        assert!(log.len() < 1000, "machine does not end");
    }
}

fn ic() -> BCM2712InterruptController {
    BCM2712InterruptController::new(Address::new(MIP_BASE), Address::new(RP1_BASE))
}

fn pcie() -> BCM2712PCIe {
    BCM2712PCIe::new(Address::<Virtual>::new(RC_BASE), Address::<Virtual>::new(RP1_BASE))
}

#[test]
fn field_set_and_clear_cover_the_field() {
    let s = field_set(1, 12);
    assert_eq!((s.mask, s.value), (0x1000, 0x1000));
    let s = field_set(0x1F, 0);
    assert_eq!((s.mask, s.value), (0x1F, 0x1F));
    let s = field_set(0x3, 30);
    assert_eq!((s.mask, s.value), (0xC000_0000, 0xC000_0000));
    let s = field_clear(1, 7);
    assert_eq!((s.mask, s.value), (0x80, 0));
}

#[test]
fn gpio_routes_uart_to_pins_14_and_15_in_order() {
    let inner = GPIOInner::new(Address::new(PADS), Address::new(GIO));
    let mut routing = inner.map_pl011_uart();
    let log = drive(|r| routing.next(r), &[(PADS + 0x3C, 0x96), (PADS + 0x40, 0x80)]);
    assert_eq!(
        log,
        vec![
            Access::R(PADS + 0x3C),
            Access::W(PADS + 0x3C, 0x16),
            Access::W(GIO + 0x74, 4),
            Access::R(PADS + 0x40),
            Access::W(PADS + 0x40, 0xC8),
            Access::W(GIO + 0x7C, 4),
        ]
    );
}

#[test]
fn gpio_routing_keeps_unrelated_pad_bits() {
    let gpio = GPIO::new(Address::new(PADS), Address::new(GIO));
    assert_eq!(gpio.compatible(), "RP1 GPIO");
    let mut routing = gpio.map_pl011_uart();
    let log = drive(|r| routing.next(r), &[(PADS + 0x3C, 0xABCD_EF80), (PADS + 0x40, 0x1234_5600)]);
    assert_eq!(log[1], Access::W(PADS + 0x3C, 0xABCD_EF00));
    assert_eq!(log[4], Access::W(PADS + 0x40, 0x1234_5648));
    // Once over, it stays over.
    assert!(matches!(routing.next(0), BusOp::Done));
}

#[test]
fn phys_end_is_page_aligned_end_of_map() {
    let end = phys_addr_space_end_exclusive_addr().into_inner();
    assert_eq!(end.as_u64(), 0x20_0000_0000);
    assert!(end.is_page_aligned());
}

#[test]
fn page_address_and_address_arithmetic() {
    let p = PageAddress::<Physical>::from_u64(0x8_0000);
    assert_eq!(p.into_inner().as_u64(), 0x8_0000);
    let a = Address::<Physical>::new(0x8_0000).add(0x1234);
    assert_eq!(a.as_u64(), 0x8_1234);
    assert!(!a.is_page_aligned());
    let start = Address::<Virtual>::new(0x1000);
    let end = Address::<Virtual>::new(0x5800);
    assert_eq!(start.bytes_until(&end), 0x4800);
    let q = PageAddress::from_address(Address::<Virtual>::new(0x3_0000));
    assert_eq!(q.into_inner().as_u64(), 0x3_0000);
}

#[test]
fn interrupt_controller_init_masks_vpu_before_unmasking_host() {
    let ic = ic();
    assert_eq!(ic.compatible(), "BCM2712 IntC");
    let steps: Vec<String> = ic
        .init()
        .iter()
        .map(|s| match s {
            IntcInitStep::Store(w) => format!("{:#x}={:#x}", w.addr - MIP_BASE, w.value),
            IntcInitStep::InitGic => "gic".to_string(),
        })
        .collect();
    assert_eq!(
        steps,
        vec![
            "0x60=0xffffffff",
            "0x70=0xffffffff",
            "0x20=0xffffffff",
            "0x30=0xffffffff",
            "0x40=0x0",
            "0x50=0x0",
            "gic"
        ]
    );
}

#[test]
fn only_rp1_uart_irq_is_edge_triggered() {
    assert!(BCM2712InterruptController::needs_edge_trigger(160));
    assert!(!BCM2712InterruptController::needs_edge_trigger(159));
    assert!(!BCM2712InterruptController::needs_edge_trigger(30));
}

#[test]
fn registering_uart_handler_sets_edge_trigger_first() {
    let (mut reg, step) = BCM2712InterruptController::register_handler(160);
    assert!(matches!(step, RegistrationStep::SetEdgeTrigger { irq: 160 }));
    assert!(matches!(reg.next(Ok(())), RegistrationStep::RegisterWithGic { irq: 160 }));
    match reg.next(Err("table full")) {
        RegistrationStep::Finished { result } => assert_eq!(result, Err("table full")),
        _ => panic!("registration must finish with the GIC's result"),
    }
}

#[test]
fn registering_other_handler_goes_straight_to_gic() {
    let (mut reg, step) = BCM2712InterruptController::register_handler(33);
    assert!(matches!(step, RegistrationStep::RegisterWithGic { irq: 33 }));
    match reg.next(Ok(())) {
        RegistrationStep::Finished { result } => assert_eq!(result, Ok(())),
        _ => panic!("registration must finish with the GIC's result"),
    }
    match reg.next(Err("ignored")) {
        RegistrationStep::Finished { result } => assert_eq!(result, Ok(())),
        _ => panic!("finished registration must stay finished"),
    }
}

#[test]
fn rearm_writes_0xd_to_uart_vector_control() {
    let w = ic().rearm_rp1_uart();
    assert_eq!(w.addr, RP1_BASE + 0x8000 + 0x8 + 25 * 4);
    assert_eq!(w.value, 0xD);
}

#[test]
fn pending_irq_dispatch() {
    let ic = ic();
    assert!(matches!(ic.handle_pending_irq(1023, false), IrqDispatch::Acknowledge { eoi_id: 1023 }));
    assert!(matches!(ic.handle_pending_irq(1020, true), IrqDispatch::Acknowledge { eoi_id: 1020 }));
    assert!(matches!(ic.handle_pending_irq(30, true), IrqDispatch::RunHandler { irq: 30 }));
    assert!(matches!(ic.handle_pending_irq(1019, true), IrqDispatch::RunHandler { irq: 1019 }));
}

#[test]
fn irq_completion_rearms_only_uart_and_aborts_on_failure() {
    let ic = ic();
    match ic.complete_irq(160, Ok(())) {
        IrqCompletion::Complete { rearm, eoi_id } => {
            let w = rearm.expect("RP1 UART must be re-armed");
            assert_eq!((w.addr, w.value), (RP1_BASE + 0x806C, 0xD));
            assert_eq!(eoi_id, 160);
        }
        IrqCompletion::Abort => panic!("successful handler must complete"),
    }
    match ic.complete_irq(30, Ok(())) {
        IrqCompletion::Complete { rearm, eoi_id } => {
            assert!(rearm.is_none());
            assert_eq!(eoi_id, 30);
        }
        IrqCompletion::Abort => panic!("successful handler must complete"),
    }
    assert!(matches!(ic.complete_irq(160, Err("boom")), IrqCompletion::Abort));
}

#[test]
fn rearm_and_unmask_hit_the_same_register() {
    assert_eq!(ic().rearm_rp1_uart().addr, pcie().unmask_rp1_irq(25).addr);
}

#[test]
fn pcie_config_base_is_0x9000_into_window() {
    let p = pcie();
    assert_eq!(p.compatible(), "BCM2712 PCIe RC");
    assert_eq!(p.rp1_config_base().as_u64(), RP1_BASE + 0x9000);
}

#[test]
fn msix_entry_and_unmask_writes() {
    let p = pcie();
    let got: Vec<(u64, u32)> =
        p.configure_msix(3, 0x1111, 0x2222, 0x3333).iter().map(|w| (w.addr, w.value)).collect();
    let e = RP1_BASE + 0x31_0000 + 3 * 16;
    assert_eq!(got, vec![(e, 0x1111), (e + 4, 0x2222), (e + 8, 0x3333), (e + 12, 0)]);
    let u = p.unmask_rp1_irq(3);
    assert_eq!((u.addr, u.value), (RP1_BASE + 0x8000 + 8 + 12, 0x9));
}

#[test]
fn uart_interrupt_writes_route_vector_25_to_mip() {
    let got: Vec<(u64, u32)> = pcie().uart_interrupt_writes().iter().map(|w| (w.addr, w.value)).collect();
    let e = RP1_BASE + 0x31_0000 + 25 * 16;
    assert_eq!(
        got,
        vec![(e, 0xFFFF_F000), (e + 4, 0xFF), (e + 8, 0), (e + 12, 0), (RP1_BASE + 0x806C, 0x9)]
    );
}
