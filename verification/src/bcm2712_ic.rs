//! BCM2712 interrupt controller: the MIP that collects the RP1 interrupts in
//! front of the GICv2.
use vstd::prelude::*;
use crate::bcm2712_pcie::{rp1_vector_ctrl_addr, UART0_VECTOR, OFFSET_APB_INTERNAL};
use crate::memory::{phys_map, Address, MmioWrite, Virtual};

verus! {

/// GIC interrupt ID of MIP input 0 (GIC SPI 128), where RP1 UART0 arrives.
pub const RP1_UART_IRQ: usize = 160;
/// Largest GIC interrupt ID that names a real interrupt; 1020..1023 are special.
pub const MAX_VALID_IRQ: usize = 1019;
/// Value that re-arms (acknowledges) an RP1 interrupt vector.
pub const RP1_REARM_VALUE: u32 = 0xD;

/// Register byte offsets in the MIP bank.
pub const MIP_STATUS_OFFSET: u64 = 0x00;
pub const INT_CFGL_HOST_OFFSET: u64 = 0x20;
pub const INT_CFGH_HOST_OFFSET: u64 = 0x30;
pub const INT_MASKL_HOST_OFFSET: u64 = 0x40;
pub const INT_MASKH_HOST_OFFSET: u64 = 0x50;
pub const INT_MASKL_VPU_OFFSET: u64 = 0x60;
pub const INT_MASKH_VPU_OFFSET: u64 = 0x70;

/// One step of the controller's set-up.
pub enum IntcInitStep {
    /// Store to a MIP register.
    Store(MmioWrite),
    /// Initialise the GIC; its result is the result of the set-up.
    InitGic,
}

/// Step `k` (of seven) of the set-up of the controller whose MIP is at
/// `mip`: mask every input towards the VPU, make every input edge triggered
/// towards the host, unmask every input towards the host, then start the GIC.
pub open spec fn intc_init_step(mip: int, k: int) -> IntcInitStep {
    if k == 0 {
        IntcInitStep::Store(MmioWrite { addr: (mip + INT_MASKL_VPU_OFFSET) as u64, value: 0xFFFF_FFFF })
    } else if k == 1 {
        IntcInitStep::Store(MmioWrite { addr: (mip + INT_MASKH_VPU_OFFSET) as u64, value: 0xFFFF_FFFF })
    } else if k == 2 {
        IntcInitStep::Store(MmioWrite { addr: (mip + INT_CFGL_HOST_OFFSET) as u64, value: 0xFFFF_FFFF })
    } else if k == 3 {
        IntcInitStep::Store(MmioWrite { addr: (mip + INT_CFGH_HOST_OFFSET) as u64, value: 0xFFFF_FFFF })
    } else if k == 4 {
        IntcInitStep::Store(MmioWrite { addr: (mip + INT_MASKL_HOST_OFFSET) as u64, value: 0 })
    } else if k == 5 {
        IntcInitStep::Store(MmioWrite { addr: (mip + INT_MASKH_HOST_OFFSET) as u64, value: 0 })
    } else {
        IntcInitStep::InitGic
    }
}

/// What to do with the interrupt ID read from the GIC's acknowledge register.
pub enum IrqDispatch {
    /// No real interrupt (an ID above 1019): only signal end of interrupt.
    Acknowledge { eoi_id: u32 },
    /// Run the handler registered for `irq`, then report how it went
    /// (`complete_irq`).
    RunHandler { irq: usize },
}

/// What to do once the handler of an interrupt has run.
pub enum IrqCompletion {
    /// The handler failed: stop, with neither re-arm nor end of interrupt.
    Abort,
    /// Perform `rearm` if any, then signal end of interrupt with `eoi_id`.
    Complete { rearm: Option<MmioWrite>, eoi_id: u32 },
}

/// The store that re-arms RP1 UART0 in the RP1 window at `rp1_base`.
pub open spec fn rearm_store(rp1_base: int) -> MmioWrite {
    MmioWrite { addr: rp1_vector_ctrl_addr(rp1_base, UART0_VECTOR as int) as u64, value: RP1_REARM_VALUE }
}

/// The BCM2712 interrupt controller: the MIP at `mip_base` and the RP1
/// window at `rp1_base`.
pub struct BCM2712InterruptController {
    mip_base: Address<Virtual>,
    rp1_base: Address<Virtual>,
}

impl BCM2712InterruptController {
    #[verifier::type_invariant]
    spec fn windows_fit(self) -> bool {
        &&& self.mip_base.spec_value() + phys_map::MIP_SIZE <= u64::MAX
        &&& self.rp1_base.spec_value() + phys_map::RP1_CFG_SIZE <= u64::MAX
    }

    /// Base of the MIP registers.
    pub closed spec fn spec_mip_base(&self) -> int {
        self.mip_base.spec_value() as int
    }

    /// Base of the RP1 configuration window.
    pub closed spec fn spec_rp1_base(&self) -> int {
        self.rp1_base.spec_value() as int
    }

    /// Create an instance over the MIP at `mip_base` and the RP1 window at
    /// `rp1_base`.
    pub fn new(mip_base: Address<Virtual>, rp1_base: Address<Virtual>) -> (r: Self)
        requires
            mip_base.spec_value() + phys_map::MIP_SIZE <= u64::MAX,
            rp1_base.spec_value() + phys_map::RP1_CFG_SIZE <= u64::MAX,
        ensures
            r.spec_mip_base() == mip_base.spec_value(),
            r.spec_rp1_base() == rp1_base.spec_value(),
    {
        BCM2712InterruptController { mip_base, rp1_base }
    }

    /// The name under which the driver registers.
    pub fn compatible(&self) -> (r: &'static str)
        ensures
            r@ == "BCM2712 IntC"@,
    {
        "BCM2712 IntC"
    }

    /// The set-up, in order: six MIP stores, then the GIC's initialisation.
    pub fn init(&self) -> (r: Vec<IntcInitStep>)
        ensures
            r.len() == 7,
            forall|k: int| 0 <= k < 7 ==> #[trigger] r@[k] == intc_init_step(self.spec_mip_base(), k),
    {
        proof { use_type_invariant(self); }
        let mip = self.mip_base.as_u64();
        let mut steps: Vec<IntcInitStep> = Vec::new();
        steps.push(IntcInitStep::Store(MmioWrite { addr: mip + INT_MASKL_VPU_OFFSET, value: 0xFFFF_FFFF }));
        steps.push(IntcInitStep::Store(MmioWrite { addr: mip + INT_MASKH_VPU_OFFSET, value: 0xFFFF_FFFF }));
        steps.push(IntcInitStep::Store(MmioWrite { addr: mip + INT_CFGL_HOST_OFFSET, value: 0xFFFF_FFFF }));
        steps.push(IntcInitStep::Store(MmioWrite { addr: mip + INT_CFGH_HOST_OFFSET, value: 0xFFFF_FFFF }));
        steps.push(IntcInitStep::Store(MmioWrite { addr: mip + INT_MASKL_HOST_OFFSET, value: 0 }));
        steps.push(IntcInitStep::Store(MmioWrite { addr: mip + INT_MASKH_HOST_OFFSET, value: 0 }));
        steps.push(IntcInitStep::InitGic);
        steps
    }

    /// Whether the interrupt `irq_num` must be switched to edge triggering
    /// in the GIC when its handler is registered.
    pub fn needs_edge_trigger(irq_num: usize) -> (r: bool)
        ensures
            r == (irq_num == RP1_UART_IRQ),
    {
        irq_num == RP1_UART_IRQ
    }

    /// Register the handler of `irq_num`: the GIC steps to take, one at a time.
    pub fn register_handler(irq_num: usize) -> (r: (HandlerRegistration, RegistrationStep))
        ensures
            r.0.spec_irq() == irq_num,
            irq_num == RP1_UART_IRQ ==> r.1 == (RegistrationStep::SetEdgeTrigger { irq: irq_num })
                && r.0.spec_phase() == 1,
            irq_num != RP1_UART_IRQ ==> r.1 == (RegistrationStep::RegisterWithGic { irq: irq_num })
                && r.0.spec_phase() == 2,
    {
        if Self::needs_edge_trigger(irq_num) {
            (HandlerRegistration { irq: irq_num, phase: 1, result: Ok(()) },
                RegistrationStep::SetEdgeTrigger { irq: irq_num })
        } else {
            (HandlerRegistration { irq: irq_num, phase: 2, result: Ok(()) },
                RegistrationStep::RegisterWithGic { irq: irq_num })
        }
    }

    /// The store that re-arms RP1 UART0 after its interrupt was handled.
    pub fn rearm_rp1_uart(&self) -> (r: MmioWrite)
        ensures
            r == rearm_store(self.spec_rp1_base()),
    {
        proof { use_type_invariant(self); }
        MmioWrite {
            addr: self.rp1_base.as_u64() + OFFSET_APB_INTERNAL + 8 + 4 * UART0_VECTOR,
            value: RP1_REARM_VALUE,
        }
    }

    /// The response to the interrupt ID `irq_number` read from the GIC's
    /// acknowledge register. A real interrupt (ID up to 1019) must have a
    /// handler registered.
    pub fn handle_pending_irq(&self, irq_number: usize, handler_registered: bool) -> (r: IrqDispatch)
        requires
            irq_number <= MAX_VALID_IRQ ==> handler_registered,
        ensures
            irq_number > MAX_VALID_IRQ ==> r == (IrqDispatch::Acknowledge { eoi_id: irq_number as u32 }),
            irq_number <= MAX_VALID_IRQ ==> r == (IrqDispatch::RunHandler { irq: irq_number }),
    {
        if irq_number <= MAX_VALID_IRQ {
            IrqDispatch::RunHandler { irq: irq_number }
        } else {
            IrqDispatch::Acknowledge { eoi_id: irq_number as u32 }
        }
    }

    /// What follows the handler of the real interrupt `irq`, given how the
    /// handler went: on failure nothing more; otherwise the re-arm of RP1
    /// UART0 if `irq` is its interrupt, and end of interrupt with `irq`.
    pub fn complete_irq(&self, irq: usize, handled: Result<(), &'static str>) -> (r: IrqCompletion)
        requires
            irq <= MAX_VALID_IRQ,
        ensures
            handled is Err ==> r == IrqCompletion::Abort,
            handled is Ok && irq == RP1_UART_IRQ ==> r == (IrqCompletion::Complete {
                rearm: Some(rearm_store(self.spec_rp1_base())),
                eoi_id: irq as u32,
            }),
            handled is Ok && irq != RP1_UART_IRQ ==> r == (IrqCompletion::Complete {
                rearm: None,
                eoi_id: irq as u32,
            }),
    {
        match handled {
            Err(_) => IrqCompletion::Abort,
            Ok(()) => {
                let rearm = if irq == RP1_UART_IRQ {
                    Some(self.rearm_rp1_uart())
                } else {
                    None
                };
                IrqCompletion::Complete { rearm, eoi_id: irq as u32 }
            },
        }
    }
}

/// One GIC step of registering a handler.
pub enum RegistrationStep {
    /// Configure `irq` as edge triggered in the GIC.
    SetEdgeTrigger { irq: usize },
    /// Register the handler of `irq` with the GIC, and report its result.
    RegisterWithGic { irq: usize },
    /// The registration is over, with this result.
    Finished { result: Result<(), &'static str> },
}

/// The registration of the handler of one interrupt.
pub struct HandlerRegistration {
    irq: usize,
    phase: u64,
    result: Result<(), &'static str>,
}

impl HandlerRegistration {
    pub closed spec fn spec_irq(&self) -> usize {
        self.irq
    }

    /// 1: edge trigger asked for; 2: GIC registration asked for; 3: over.
    pub closed spec fn spec_phase(&self) -> int {
        self.phase as int
    }

    pub closed spec fn spec_result(&self) -> Result<(), &'static str> {
        self.result
    }

    /// The next step. `gic_result` is the result of the GIC registration
    /// when that was the step asked for last (ignored otherwise).
    pub fn next(&mut self, gic_result: Result<(), &'static str>) -> (r: RegistrationStep)
        ensures
            final(self).spec_irq() == old(self).spec_irq(),
            old(self).spec_phase() <= 1 ==> r == (RegistrationStep::RegisterWithGic { irq: old(self).spec_irq() })
                && final(self).spec_phase() == 2,
            old(self).spec_phase() == 2 ==> r == (RegistrationStep::Finished { result: gic_result })
                && final(self).spec_phase() == 3 && final(self).spec_result() == gic_result,
            old(self).spec_phase() >= 3 ==> r == (RegistrationStep::Finished { result: old(self).spec_result() })
                && final(self).spec_phase() == old(self).spec_phase()
                && final(self).spec_result() == old(self).spec_result(),
    {
        if self.phase <= 1 {
            self.phase = 2;
            RegistrationStep::RegisterWithGic { irq: self.irq }
        } else if self.phase == 2 {
            self.phase = 3;
            self.result = gic_result;
            RegistrationStep::Finished { result: gic_result }
        } else {
            RegistrationStep::Finished { result: self.result }
        }
    }
}

/// The register the interrupt controller re-arms after an RP1 UART0
/// interrupt is the very control register through which the PCIe driver
/// unmasks UART0 at the RP1, for any placement of the RP1 window.
pub proof fn lemma_rearm_hits_unmasked_uart_vector(rp1_base: int)
    ensures
        rearm_store(rp1_base).addr == crate::bcm2712_pcie::uart_route_store(rp1_base, 4).addr,
{
}

/// The set-up of the controller whose MIP is at `mip`, in order: both VPU
/// masks to all ones, both host trigger configurations to all ones (edge),
/// both host masks to zero, and only then the GIC. The status register and
/// nothing outside the MIP is written.
pub proof fn lemma_intc_init_masks_vpu_then_unmasks_host(mip: int)
    ensures
        intc_init_step(mip, 0) == IntcInitStep::Store(MmioWrite { addr: (mip + 0x60) as u64, value: 0xFFFF_FFFF }),
        intc_init_step(mip, 1) == IntcInitStep::Store(MmioWrite { addr: (mip + 0x70) as u64, value: 0xFFFF_FFFF }),
        intc_init_step(mip, 2) == IntcInitStep::Store(MmioWrite { addr: (mip + 0x20) as u64, value: 0xFFFF_FFFF }),
        intc_init_step(mip, 3) == IntcInitStep::Store(MmioWrite { addr: (mip + 0x30) as u64, value: 0xFFFF_FFFF }),
        intc_init_step(mip, 4) == IntcInitStep::Store(MmioWrite { addr: (mip + 0x40) as u64, value: 0 }),
        intc_init_step(mip, 5) == IntcInitStep::Store(MmioWrite { addr: (mip + 0x50) as u64, value: 0 }),
        intc_init_step(mip, 6) == IntcInitStep::InitGic,
{
}

/// Re-arming RP1 UART0 stores 0xD to the RP1 control register of vector 25,
/// at 0x8000 + 8 + 25 * 4 into the RP1 window.
pub proof fn lemma_rearm_store_value(rp1_base: int)
    ensures
        rearm_store(rp1_base) == (MmioWrite { addr: (rp1_base + 0x806C) as u64, value: 0xD }),
{
}

} // verus!
