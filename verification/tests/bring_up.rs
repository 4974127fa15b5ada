use rpi5_bsp::driver::{init, BringUpAction, MmioRegion, PostInit, StepOutcome};
use rpi5_bsp::memory::{Address, Virtual};

fn virt_for(region: MmioRegion) -> u64 {
    match region {
        MmioRegion::PcieRc => 0x1000,
        MmioRegion::Rp1Config => 0x2000,
        MmioRegion::Pl011Uart => 0x3000,
        MmioRegion::Gpio => 0x4000,
        MmioRegion::Pads => 0x5000,
        MmioRegion::Gicd => 0x6000,
        MmioRegion::Gicc => 0x7000,
        MmioRegion::Mip => 0x8000,
        MmioRegion::Rp1ConfigIntc => 0x9000,
    }
}

/// Run a bring-up in which the mapping of `fail_on` (if any) fails.
fn run(init_done: bool, fail_on: Option<&str>) -> (Vec<String>, Result<(), &'static str>) {
    let (mut b, mut action) = init(init_done);
    let mut log = Vec::new();
    loop {
        let outcome = match action {
            BringUpAction::MapRegion { region } => {
                log.push(format!("map {} {:#x}+{:#x}", region.name(), region.start().as_u64(), region.size()));
                if Some(region.name()) == fail_on {
                    StepOutcome::Failed("mapping failed")
                } else {
                    StepOutcome::Mapped(Address::<Virtual>::new(virt_for(region)))
                }
            }
            BringUpAction::InitPcie { rc, rp1 } => {
                log.push(format!("pcie {:#x} {:#x}", rc.as_u64(), rp1.as_u64()));
                StepOutcome::Done
            }
            BringUpAction::RegisterUart { base, post_init, irq } => {
                assert!(post_init == PostInit::RegisterConsole);
                log.push(format!("uart {:#x} irq {}", base.as_u64(), irq));
                StepOutcome::Done
            }
            BringUpAction::RegisterGpio { pads, gpio, post_init } => {
                assert!(post_init == PostInit::MapPl011Uart);
                log.push(format!("gpio {:#x} {:#x}", pads.as_u64(), gpio.as_u64()));
                StepOutcome::Done
            }
            BringUpAction::RegisterInterruptController { gicd, gicc, mip, rp1, post_init } => {
                assert!(post_init == PostInit::RegisterIrqManager);
                log.push(format!(
                    "intc {:#x} {:#x} {:#x} {:#x}",
                    gicd.as_u64(),
                    gicc.as_u64(),
                    mip.as_u64(),
                    rp1.as_u64()
                ));
                StepOutcome::Done
            }
            BringUpAction::Finished { result } => {
                assert_eq!(b.succeeded(), result.is_ok());
                return (log, result);
            }
        };
        action = b.step(outcome);
    }
}

#[test]
fn bring_up_maps_regions_in_order_and_hands_out_addresses() {
    let (log, result) = run(false, None);
    assert_eq!(result, Ok(()));
    assert_eq!(
        log,
        vec![
            "map PCIe RC 0x1000120000+0x1000",
            "map RP1 Config 0x1f00100000+0x400000",
            "pcie 0x1000 0x2000",
            "map BCM PL011 UART 0x1f00030000+0x1000",
            "uart 0x3000 irq 160",
            "map RP1 GPIO 0x1f000d0000+0x1000",
            "map RP1 PADS 0x1f000f0000+0x1000",
            "gpio 0x5000 0x4000",
            "map GICv2 GICD 0x107fff9000+0x1000",
            "map GICv2 GICC 0x107fffa000+0x1000",
            "map MIP 0x1000130000+0x1000",
            "map RP1 Config (IntC) 0x1f00100000+0x400000",
            "intc 0x6000 0x7000 0x8000 0x9000",
        ]
    );
}

#[test]
fn bring_up_counts_as_done_only_after_success() {
    let (mut b, _) = init(false);
    b.step(StepOutcome::Failed("no memory"));
    assert!(!b.init_done_after(false));
    assert!(b.init_done_after(true));
    let (refused, _) = init(true);
    assert!(refused.init_done_after(true));
    assert!(!refused.init_done_after(false));
}

#[test]
fn bring_up_refuses_second_init() {
    let (log, result) = run(true, None);
    assert!(log.is_empty());
    assert_eq!(result, Err("Init already done"));
}

#[test]
fn bring_up_stops_at_first_failed_mapping() {
    let (log, result) = run(false, Some("RP1 PADS"));
    assert_eq!(result, Err("mapping failed"));
    assert_eq!(log.len(), 7);
    assert_eq!(log[6], "map RP1 PADS 0x1f000f0000+0x1000");
}

#[test]
fn bring_up_failure_of_first_region_ends_at_once() {
    let (log, result) = run(false, Some("PCIe RC"));
    assert_eq!(result, Err("mapping failed"));
    assert_eq!(log, vec!["map PCIe RC 0x1000120000+0x1000"]);
}

#[test]
fn bring_up_failed_driver_init_propagates() {
    let (mut b, action) = init(false);
    assert!(matches!(action, BringUpAction::MapRegion { region: MmioRegion::PcieRc }));
    b.step(StepOutcome::Mapped(Address::new(0x1000)));
    let a = b.step(StepOutcome::Mapped(Address::new(0x2000)));
    assert!(matches!(a, BringUpAction::InitPcie { .. }));
    match b.step(StepOutcome::Failed("pcie down")) {
        BringUpAction::Finished { result } => assert_eq!(result, Err("pcie down")),
        _ => panic!("failure must end the bring-up"),
    }
    // Once over, the bring-up stays over.
    match b.step(StepOutcome::Done) {
        BringUpAction::Finished { result } => assert_eq!(result, Err("pcie down")),
        _ => panic!("finished bring-up must stay finished"),
    }
    assert!(!b.succeeded());
}
