//! Bring-up of the board's drivers: which MMIO regions are mapped, in which
//! order, which driver each mapped address goes to, and how a failure ends
//! the bring-up. The mapping itself, the drivers' construction and their
//! registration are done by the caller, step by step.
use vstd::prelude::*;
use crate::memory::{phys_map, Address, Physical, Virtual};

verus! {

/// An MMIO region the bring-up maps.
#[derive(Clone, Copy, PartialEq, Eq, Structural)]
pub enum MmioRegion {
    PcieRc,
    Rp1Config,
    Pl011Uart,
    Gpio,
    Pads,
    Gicd,
    Gicc,
    Mip,
    Rp1ConfigIntc,
}

/// Physical start of a region.
pub open spec fn region_start(region: MmioRegion) -> u64 {
    match region {
        MmioRegion::PcieRc => phys_map::PCIE_RC_START,
        MmioRegion::Rp1Config => phys_map::RP1_CFG_START,
        MmioRegion::Pl011Uart => phys_map::PL011_UART_START,
        MmioRegion::Gpio => phys_map::GPIO_START,
        MmioRegion::Pads => phys_map::PADS_START,
        MmioRegion::Gicd => phys_map::GICD_START,
        MmioRegion::Gicc => phys_map::GICC_START,
        MmioRegion::Mip => phys_map::MIP_START,
        MmioRegion::Rp1ConfigIntc => phys_map::RP1_CFG_START,
    }
}

/// Size in bytes of a region.
pub open spec fn region_size(region: MmioRegion) -> u64 {
    match region {
        MmioRegion::PcieRc => phys_map::PCIE_RC_SIZE,
        MmioRegion::Rp1Config => phys_map::RP1_CFG_SIZE,
        MmioRegion::Pl011Uart => phys_map::PL011_UART_SIZE,
        MmioRegion::Gpio => phys_map::GPIO_SIZE,
        MmioRegion::Pads => phys_map::PADS_SIZE,
        MmioRegion::Gicd => phys_map::GICD_SIZE,
        MmioRegion::Gicc => phys_map::GICC_SIZE,
        MmioRegion::Mip => phys_map::MIP_SIZE,
        MmioRegion::Rp1ConfigIntc => phys_map::RP1_CFG_SIZE,
    }
}

impl MmioRegion {
    /// The name the region is mapped under.
    pub fn name(&self) -> (r: &'static str)
        ensures
            r@ == region_name(*self)@,
    {
        match self {
            MmioRegion::PcieRc => "PCIe RC",
            MmioRegion::Rp1Config => "RP1 Config",
            MmioRegion::Pl011Uart => "BCM PL011 UART",
            MmioRegion::Gpio => "RP1 GPIO",
            MmioRegion::Pads => "RP1 PADS",
            MmioRegion::Gicd => "GICv2 GICD",
            MmioRegion::Gicc => "GICv2 GICC",
            MmioRegion::Mip => "MIP",
            MmioRegion::Rp1ConfigIntc => "RP1 Config (IntC)",
        }
    }

    /// Physical start of the region.
    pub fn start(&self) -> (r: Address<Physical>)
        ensures
            r.spec_value() == region_start(*self),
    {
        let start = match self {
            MmioRegion::PcieRc => phys_map::PCIE_RC_START,
            MmioRegion::Rp1Config => phys_map::RP1_CFG_START,
            MmioRegion::Pl011Uart => phys_map::PL011_UART_START,
            MmioRegion::Gpio => phys_map::GPIO_START,
            MmioRegion::Pads => phys_map::PADS_START,
            MmioRegion::Gicd => phys_map::GICD_START,
            MmioRegion::Gicc => phys_map::GICC_START,
            MmioRegion::Mip => phys_map::MIP_START,
            MmioRegion::Rp1ConfigIntc => phys_map::RP1_CFG_START,
        };
        Address::new(start)
    }

    /// Size in bytes of the region.
    pub fn size(&self) -> (r: u64)
        ensures
            r == region_size(*self),
    {
        match self {
            MmioRegion::PcieRc => phys_map::PCIE_RC_SIZE,
            MmioRegion::Rp1Config => phys_map::RP1_CFG_SIZE,
            MmioRegion::Pl011Uart => phys_map::PL011_UART_SIZE,
            MmioRegion::Gpio => phys_map::GPIO_SIZE,
            MmioRegion::Pads => phys_map::PADS_SIZE,
            MmioRegion::Gicd => phys_map::GICD_SIZE,
            MmioRegion::Gicc => phys_map::GICC_SIZE,
            MmioRegion::Mip => phys_map::MIP_SIZE,
            MmioRegion::Rp1ConfigIntc => phys_map::RP1_CFG_SIZE,
        }
    }
}

/// The name a region is mapped under.
pub open spec fn region_name(region: MmioRegion) -> &'static str {
    match region {
        MmioRegion::PcieRc => "PCIe RC",
        MmioRegion::Rp1Config => "RP1 Config",
        MmioRegion::Pl011Uart => "BCM PL011 UART",
        MmioRegion::Gpio => "RP1 GPIO",
        MmioRegion::Pads => "RP1 PADS",
        MmioRegion::Gicd => "GICv2 GICD",
        MmioRegion::Gicc => "GICv2 GICC",
        MmioRegion::Mip => "MIP",
        MmioRegion::Rp1ConfigIntc => "RP1 Config (IntC)",
    }
}

/// What a driver needs once all drivers are registered and initialised.
#[derive(PartialEq, Eq, Structural)]
pub enum PostInit {
    /// Register the UART as the kernel's console.
    RegisterConsole,
    /// Route the PL011 UART to its pins (`GPIO::map_pl011_uart`).
    MapPl011Uart,
    /// Register the interrupt controller as the kernel's IRQ manager.
    RegisterIrqManager,
}

/// GIC interrupt ID of the PL011 UART: MIP input 0, where RP1 UART0 arrives.
pub const PL011_UART_IRQ: usize = 160;

/// What the caller is to do next.
pub enum BringUpAction {
    /// Map `region` into the kernel's address space and report the virtual
    /// address it got (or the failure).
    MapRegion { region: MmioRegion },
    /// Create the PCIe driver over the root complex at `rc` and the RP1
    /// window at `rp1`, and run its initialisation.
    InitPcie { rc: Address<Virtual>, rp1: Address<Virtual> },
    /// Create the PL011 UART driver at `base` and register it with its
    /// post-init step and its interrupt `irq`.
    RegisterUart { base: Address<Virtual>, post_init: PostInit, irq: usize },
    /// Create the GPIO driver over the pad bank at `pads` and the GPIO bank
    /// at `gpio`, and register it with its post-init step (no interrupt).
    RegisterGpio { pads: Address<Virtual>, gpio: Address<Virtual>, post_init: PostInit },
    /// Create the interrupt controller driver and register it with its
    /// post-init step (no interrupt).
    RegisterInterruptController {
        gicd: Address<Virtual>,
        gicc: Address<Virtual>,
        mip: Address<Virtual>,
        rp1: Address<Virtual>,
        post_init: PostInit,
    },
    /// The bring-up is over, with this result.
    Finished { result: Result<(), &'static str> },
}

/// How the caller's last action went.
pub enum StepOutcome {
    /// The region was mapped at this virtual address.
    Mapped(Address<Virtual>),
    /// The action failed with this message.
    Failed(&'static str),
    /// The action (other than a mapping) completed.
    Done,
}

/// Initialise the driver subsystem: begin the bring-up, where `init_done`
/// tells whether a bring-up already succeeded. A bring-up after a successful
/// one is refused at once with "Init already done" and leaves the subsystem
/// done; see `lemma_init_succeeds_at_most_once` for the law over successive
/// calls.
pub fn init(init_done: bool) -> (r: (DriverBringUp, BringUpAction))
    ensures
        r.0.wf(),
        init_done ==> r.0.spec_result() == Some(Err::<(), &'static str>("Init already done"))
            && r.1 == (BringUpAction::Finished { result: Err("Init already done") })
            && init_done_after(init_done, r.0.spec_result()->0),
        !init_done ==> r.0.spec_result() is None && r.0.spec_step() == 0
            && r.0.spec_mapped() == Seq::<Address<Virtual>>::empty()
            && r.1 == (BringUpAction::MapRegion { region: MmioRegion::PcieRc }),
        r.1 == r.0.spec_action(),
{
    let result = if init_done { Some(Err("Init already done")) } else { None };
    let s = DriverBringUp { step: 0, mapped: Vec::new(), result };
    let action = s.action();
    (s, action)
}

/// Number of the step after the last one: the bring-up succeeded.
pub const LAST_STEP: u64 = 13;

/// The region step `step` maps, if it is a mapping step.
pub open spec fn step_region(step: int) -> Option<MmioRegion> {
    if step == 0 {
        Some(MmioRegion::PcieRc)
    } else if step == 1 {
        Some(MmioRegion::Rp1Config)
    } else if step == 3 {
        Some(MmioRegion::Pl011Uart)
    } else if step == 5 {
        Some(MmioRegion::Gpio)
    } else if step == 6 {
        Some(MmioRegion::Pads)
    } else if step == 8 {
        Some(MmioRegion::Gicd)
    } else if step == 9 {
        Some(MmioRegion::Gicc)
    } else if step == 10 {
        Some(MmioRegion::Mip)
    } else if step == 11 {
        Some(MmioRegion::Rp1ConfigIntc)
    } else {
        None
    }
}

/// Number of regions mapped before step `step` (for steps up to the last).
pub open spec fn mapped_before(step: int) -> int {
    if step <= 0 {
        0
    } else if step <= 2 {
        step
    } else if step <= 4 {
        step - 1
    } else if step <= 7 {
        step - 2
    } else if step <= 12 {
        step - 3
    } else {
        9
    }
}

/// The action of step `step` (below the last), given the virtual addresses
/// mapped so far, in the order of mapping.
pub open spec fn step_action(step: int, mapped: Seq<Address<Virtual>>) -> BringUpAction {
    if step_region(step) is Some {
        BringUpAction::MapRegion { region: step_region(step)->0 }
    } else if step == 2 {
        BringUpAction::InitPcie { rc: mapped[0], rp1: mapped[1] }
    } else if step == 4 {
        BringUpAction::RegisterUart { base: mapped[2], post_init: PostInit::RegisterConsole, irq: PL011_UART_IRQ }
    } else if step == 7 {
        BringUpAction::RegisterGpio { pads: mapped[4], gpio: mapped[3], post_init: PostInit::MapPl011Uart }
    } else if step == 12 {
        BringUpAction::RegisterInterruptController {
            gicd: mapped[5],
            gicc: mapped[6],
            mip: mapped[7],
            rp1: mapped[8],
            post_init: PostInit::RegisterIrqManager,
        }
    } else {
        BringUpAction::Finished { result: Ok(()) }
    }
}

/// The bring-up of the board's drivers, one caller action at a time.
pub struct DriverBringUp {
    step: u64,
    mapped: Vec<Address<Virtual>>,
    result: Option<Result<(), &'static str>>,
}

impl DriverBringUp {
    /// The step is in range and the mapped addresses are those of the
    /// mapping steps before it.
    pub closed spec fn wf(&self) -> bool {
        &&& self.step <= LAST_STEP
        &&& self.result is None ==> self.step < LAST_STEP
        &&& self.mapped@.len() == mapped_before(self.step as int)
    }

    /// The step the bring-up is at.
    pub closed spec fn spec_step(&self) -> int {
        self.step as int
    }

    /// The virtual addresses mapped so far.
    pub closed spec fn spec_mapped(&self) -> Seq<Address<Virtual>> {
        self.mapped@
    }

    /// The result, once the bring-up is over.
    pub closed spec fn spec_result(&self) -> Option<Result<(), &'static str>> {
        self.result
    }

    /// The action the bring-up asks for now.
    pub open spec fn spec_action(&self) -> BringUpAction {
        match self.spec_result() {
            Some(result) => BringUpAction::Finished { result },
            None => step_action(self.spec_step(), self.spec_mapped()),
        }
    }

    /// Whether `outcome` is a report of the action asked for now.
    pub open spec fn answers(&self, outcome: StepOutcome) -> bool {
        match outcome {
            StepOutcome::Mapped(_) => self.spec_action() is MapRegion,
            StepOutcome::Failed(_) => true,
            StepOutcome::Done => !(self.spec_action() is MapRegion),
        }
    }

    /// Whether the bring-up is over and succeeded.
    pub fn succeeded(&self) -> (r: bool)
        ensures
            r == (self.spec_result() matches Some(result) && result is Ok),
    {
        match self.result {
            Some(result) => result.is_ok(),
            None => false,
        }
    }

    /// Whether the bring-up counts as done once this one is over, given
    /// whether it counted as done before.
    pub fn init_done_after(&self, init_done: bool) -> (r: bool)
        requires
            self.spec_result() is Some,
        ensures
            r == init_done_after(init_done, self.spec_result()->0),
    {
        match self.result {
            Some(result) => init_done || result.is_ok(),
            None => init_done,
        }
    }

    /// The action the bring-up asks for now.
    pub fn action(&self) -> (r: BringUpAction)
        requires
            self.wf(),
        ensures
            r == self.spec_action(),
    {
        if let Some(result) = self.result {
            return BringUpAction::Finished { result };
        }
        match self.step {
            0 => BringUpAction::MapRegion { region: MmioRegion::PcieRc },
            1 => BringUpAction::MapRegion { region: MmioRegion::Rp1Config },
            2 => BringUpAction::InitPcie { rc: self.mapped[0], rp1: self.mapped[1] },
            3 => BringUpAction::MapRegion { region: MmioRegion::Pl011Uart },
            4 => BringUpAction::RegisterUart {
                base: self.mapped[2],
                post_init: PostInit::RegisterConsole,
                irq: PL011_UART_IRQ,
            },
            5 => BringUpAction::MapRegion { region: MmioRegion::Gpio },
            6 => BringUpAction::MapRegion { region: MmioRegion::Pads },
            7 => BringUpAction::RegisterGpio {
                pads: self.mapped[4],
                gpio: self.mapped[3],
                post_init: PostInit::MapPl011Uart,
            },
            8 => BringUpAction::MapRegion { region: MmioRegion::Gicd },
            9 => BringUpAction::MapRegion { region: MmioRegion::Gicc },
            10 => BringUpAction::MapRegion { region: MmioRegion::Mip },
            11 => BringUpAction::MapRegion { region: MmioRegion::Rp1ConfigIntc },
            12 => BringUpAction::RegisterInterruptController {
                gicd: self.mapped[5],
                gicc: self.mapped[6],
                mip: self.mapped[7],
                rp1: self.mapped[8],
                post_init: PostInit::RegisterIrqManager,
            },
            _ => BringUpAction::Finished { result: Ok(()) },
        }
    }

    /// Take the outcome of the action asked for, and return the next action.
    /// A failure ends the bring-up with the failure's message; otherwise a
    /// mapped address is recorded and the bring-up moves on a step, ending
    /// with success after the last step. Once over, it stays over.
    pub fn step(&mut self, outcome: StepOutcome) -> (r: BringUpAction)
        requires
            old(self).wf(),
            old(self).answers(outcome),
        ensures
            final(self).wf(),
            old(self).spec_result() is Some ==> final(self).spec_result() == old(self).spec_result()
                && final(self).spec_step() == old(self).spec_step()
                && final(self).spec_mapped() == old(self).spec_mapped(),
            old(self).spec_result() is None ==> match outcome {
                StepOutcome::Failed(msg) => final(self).spec_result() == Some(Err::<(), &'static str>(msg))
                    && final(self).spec_step() == old(self).spec_step()
                    && final(self).spec_mapped() == old(self).spec_mapped(),
                StepOutcome::Mapped(virt) => final(self).spec_step() == old(self).spec_step() + 1
                    && final(self).spec_mapped() == old(self).spec_mapped().push(virt)
                    && final(self).spec_result() is None,
                StepOutcome::Done => final(self).spec_step() == old(self).spec_step() + 1
                    && final(self).spec_mapped() == old(self).spec_mapped()
                    && (final(self).spec_step() == LAST_STEP <==> final(self).spec_result() is Some)
                    && (final(self).spec_result() is Some ==> final(self).spec_result() == Some(Ok::<(), &'static str>(()))),
            },
            r == final(self).spec_action(),
    {
        if self.result.is_none() {
            match outcome {
                StepOutcome::Failed(msg) => {
                    self.result = Some(Err(msg));
                },
                StepOutcome::Mapped(virt) => {
                    self.mapped.push(virt);
                    self.step = self.step + 1;
                },
                StepOutcome::Done => {
                    self.step = self.step + 1;
                    if self.step == LAST_STEP {
                        self.result = Some(Ok(()));
                    }
                },
            }
        }
        self.action()
    }
}

/// Each driver is handed the virtual address that was mapped for its own
/// region: the PCIe driver those of the root complex and of the RP1 window,
/// the UART its own, the GPIO driver the pad bank as `pads` and the GPIO
/// bank as `gpio`, and the interrupt controller those of the GICD, the GICC,
/// the MIP and the RP1 window.
pub proof fn lemma_drivers_get_their_regions(mapped: Seq<Address<Virtual>>)
    requires
        mapped.len() == 9,
    ensures
        step_region(0) == Some(MmioRegion::PcieRc),
        step_region(1) == Some(MmioRegion::Rp1Config),
        step_action(2, mapped) == (BringUpAction::InitPcie {
            rc: mapped[mapped_before(0)],
            rp1: mapped[mapped_before(1)],
        }),
        step_region(3) == Some(MmioRegion::Pl011Uart),
        step_action(4, mapped) == (BringUpAction::RegisterUart {
            base: mapped[mapped_before(3)],
            post_init: PostInit::RegisterConsole,
            irq: PL011_UART_IRQ,
        }),
        step_region(5) == Some(MmioRegion::Gpio),
        step_region(6) == Some(MmioRegion::Pads),
        step_action(7, mapped) == (BringUpAction::RegisterGpio {
            pads: mapped[mapped_before(6)],
            gpio: mapped[mapped_before(5)],
            post_init: PostInit::MapPl011Uart,
        }),
        step_region(8) == Some(MmioRegion::Gicd),
        step_region(9) == Some(MmioRegion::Gicc),
        step_region(10) == Some(MmioRegion::Mip),
        step_region(11) == Some(MmioRegion::Rp1ConfigIntc),
        step_action(12, mapped) == (BringUpAction::RegisterInterruptController {
            gicd: mapped[mapped_before(8)],
            gicc: mapped[mapped_before(9)],
            mip: mapped[mapped_before(10)],
            rp1: mapped[mapped_before(11)],
            post_init: PostInit::RegisterIrqManager,
        }),
{
}

/// The result of a bring-up that would end with `attempt`, given whether a
/// bring-up already succeeded.
pub open spec fn init_result(init_done: bool, attempt: Result<(), &'static str>) -> Result<(), &'static str> {
    if init_done {
        Err("Init already done")
    } else {
        attempt
    }
}

/// Whether a bring-up counts as done after one that ended with `result`.
pub open spec fn init_done_after(init_done: bool, result: Result<(), &'static str>) -> bool {
    init_done || result is Ok
}

/// The results of successive bring-ups that would end with `attempts`.
pub open spec fn init_results(init_done: bool, attempts: Seq<Result<(), &'static str>>) -> Seq<Result<(), &'static str>>
    decreases attempts.len(),
{
    if attempts.len() == 0 {
        Seq::empty()
    } else {
        let first = init_result(init_done, attempts[0]);
        seq![first] + init_results(init_done_after(init_done, first), attempts.drop_first())
    }
}

/// Once a bring-up succeeded, every later one is refused.
proof fn lemma_refused_after_done(attempts: Seq<Result<(), &'static str>>)
    ensures
        init_results(true, attempts).len() == attempts.len(),
        forall|j: int| 0 <= j < attempts.len() ==> #[trigger] init_results(true, attempts)[j]
            == Err::<(), &'static str>("Init already done"),
    decreases attempts.len(),
{
    if attempts.len() > 0 {
        lemma_refused_after_done(attempts.drop_first());
        let rest = init_results(true, attempts.drop_first());
        assert forall|j: int| 0 <= j < attempts.len() implies #[trigger] init_results(true, attempts)[j]
            == Err::<(), &'static str>("Init already done") by {
            if j > 0 {
                assert(init_results(true, attempts)[j] == rest[j - 1]);
            }
        }
    }
}

/// The drivers' bring-up succeeds at most once: over any sequence of
/// bring-ups, each later than a successful one is refused with
/// "Init already done"; and if one had succeeded before, all are refused.
pub proof fn lemma_init_succeeds_at_most_once(init_done: bool, attempts: Seq<Result<(), &'static str>>)
    ensures
        init_results(init_done, attempts).len() == attempts.len(),
        init_done ==> forall|j: int| 0 <= j < attempts.len() ==> #[trigger] init_results(init_done, attempts)[j]
            == Err::<(), &'static str>("Init already done"),
        forall|i: int, j: int| #![trigger init_results(init_done, attempts)[i], init_results(init_done, attempts)[j]]
            0 <= i < j < attempts.len() && init_results(init_done, attempts)[i] is Ok
            ==> init_results(init_done, attempts)[j] == Err::<(), &'static str>("Init already done"),
    decreases attempts.len(),
{
    if init_done {
        lemma_refused_after_done(attempts);
    } else if attempts.len() > 0 {
        let first = init_result(init_done, attempts[0]);
        let after = init_done_after(init_done, first);
        let tail = attempts.drop_first();
        lemma_init_succeeds_at_most_once(after, tail);
        let all = init_results(init_done, attempts);
        assert(all == seq![first] + init_results(after, tail));
        assert forall|i: int, j: int| #![trigger all[i], all[j]] 0 <= i < j < attempts.len() && all[i] is Ok
            implies all[j] == Err::<(), &'static str>("Init already done") by {
            assert(all[j] == init_results(after, tail)[j - 1]);
            if i == 0 {
                assert(after);
            } else {
                assert(all[i] == init_results(after, tail)[i - 1]);
            }
        }
    }
}

} // verus!
