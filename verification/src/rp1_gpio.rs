//! RP1 GPIO: routing the PL011 UART to GPIO 14 (TX) and GPIO 15 (RX).
use vstd::prelude::*;
use crate::fields::{combine, field_clear, field_set, field_setting, modify};
use crate::memory::{phys_map, Address, BusOp, MmioWrite, Virtual};

verus! {

/// `PADS_CTRL.OD`: output disable (bit 7).
pub const PADS_CTRL_OD_SHIFT: usize = 7;
/// `PADS_CTRL.IE`: input enable (bit 6).
pub const PADS_CTRL_IE_SHIFT: usize = 6;
/// `PADS_CTRL.PUE`: pull-up enable (bit 3).
pub const PADS_CTRL_PUE_SHIFT: usize = 3;
/// `GPIO_CTRL.FUNCSEL`: function select, bits 0..5.
pub const GPIO_CTRL_FUNCSEL_SHIFT: usize = 0;
pub const GPIO_CTRL_FUNCSEL_MASK: u32 = 0x1F;
/// Function number of UART0 on GPIO 14 and 15.
pub const FUNCSEL_UART0: u32 = 4;

/// Byte offsets of the registers in the pad bank.
pub const PADS_GPIO14_OFFSET: u64 = 0x3C;
pub const PADS_GPIO15_OFFSET: u64 = 0x40;
/// Byte offsets of the registers in the GPIO bank.
pub const GPIO14_CTRL_OFFSET: u64 = 0x74;
pub const GPIO15_CTRL_OFFSET: u64 = 0x7C;

/// Pad register of the TX pin once routed: output disable cleared.
pub open spec fn tx_pad(old: u32) -> u32 {
    old & !(1u32 << 7u32)
}

/// Pad register of the RX pin once routed: input enable and pull-up set.
pub open spec fn rx_pad(old: u32) -> u32 {
    old | (1u32 << 6u32) | (1u32 << 3u32)
}

/// The two GPIO register banks of the RP1: the pad bank at `pads` and the
/// GPIO bank at `gpio`.
pub struct GPIOInner {
    pads: Address<Virtual>,
    gpio: Address<Virtual>,
}

impl GPIOInner {
    #[verifier::type_invariant]
    spec fn banks_fit(self) -> bool {
        &&& self.pads.spec_value() + phys_map::PADS_SIZE <= u64::MAX
        &&& self.gpio.spec_value() + phys_map::GPIO_SIZE <= u64::MAX
    }

    /// Address of the pad bank.
    pub closed spec fn spec_pads(&self) -> u64 {
        self.pads.spec_value()
    }

    /// Address of the GPIO bank.
    pub closed spec fn spec_gpio(&self) -> u64 {
        self.gpio.spec_value()
    }

    /// Create an instance over the pad bank at `pads_addr` and the GPIO bank
    /// at `gpio_addr`.
    pub fn new(pads_addr: Address<Virtual>, gpio_addr: Address<Virtual>) -> (r: Self)
        requires
            pads_addr.spec_value() + phys_map::PADS_SIZE <= u64::MAX,
            gpio_addr.spec_value() + phys_map::GPIO_SIZE <= u64::MAX,
        ensures
            r.spec_pads() == pads_addr.spec_value(),
            r.spec_gpio() == gpio_addr.spec_value(),
    {
        GPIOInner { pads: pads_addr, gpio: gpio_addr }
    }

    /// Route the PL011 UART: GPIO 14 as TX (output enabled, function 4),
    /// GPIO 15 as RX (input enabled, pulled up, function 4). Returns the
    /// register accesses to make, one at a time.
    pub fn map_pl011_uart(&self) -> (r: UartPinRouting)
        ensures
            r.spec_pads() == self.spec_pads(),
            r.spec_gpio() == self.spec_gpio(),
            r.spec_phase() == 0,
    {
        proof { use_type_invariant(self); }
        UartPinRouting { pads: self.pads.as_u64(), gpio: self.gpio.as_u64(), phase: 0 }
    }
}

/// The register accesses that route the PL011 UART, in order: read the
/// GPIO 14 pad, store it with output disable cleared, select function 4 on
/// GPIO 14; read the GPIO 15 pad, store it with input enable and pull-up set,
/// select function 4 on GPIO 15.
pub struct UartPinRouting {
    pads: u64,
    gpio: u64,
    phase: u64,
}

/// The access of `phase`, given the value `read` of the last register read.
pub open spec fn routing_op(pads: u64, gpio: u64, phase: int, read: u32) -> BusOp {
    if phase == 0 {
        BusOp::Read { addr: (pads + PADS_GPIO14_OFFSET) as u64 }
    } else if phase == 1 {
        BusOp::Write(MmioWrite { addr: (pads + PADS_GPIO14_OFFSET) as u64, value: tx_pad(read) })
    } else if phase == 2 {
        BusOp::Write(MmioWrite { addr: (gpio + GPIO14_CTRL_OFFSET) as u64, value: FUNCSEL_UART0 })
    } else if phase == 3 {
        BusOp::Read { addr: (pads + PADS_GPIO15_OFFSET) as u64 }
    } else if phase == 4 {
        BusOp::Write(MmioWrite { addr: (pads + PADS_GPIO15_OFFSET) as u64, value: rx_pad(read) })
    } else if phase == 5 {
        BusOp::Write(MmioWrite { addr: (gpio + GPIO15_CTRL_OFFSET) as u64, value: FUNCSEL_UART0 })
    } else {
        BusOp::Done
    }
}

/// Number of accesses of the routing.
pub const ROUTING_STEPS: u64 = 6;

impl UartPinRouting {
    #[verifier::type_invariant]
    spec fn banks_fit(self) -> bool {
        &&& self.pads + phys_map::PADS_SIZE <= u64::MAX
        &&& self.gpio + phys_map::GPIO_SIZE <= u64::MAX
        &&& self.phase <= ROUTING_STEPS
    }

    pub closed spec fn spec_pads(&self) -> u64 {
        self.pads
    }

    pub closed spec fn spec_gpio(&self) -> u64 {
        self.gpio
    }

    /// Number of accesses already handed out.
    pub closed spec fn spec_phase(&self) -> int {
        self.phase as int
    }

    /// The next access. `read` is the value of the register read asked for
    /// last (ignored after a store).
    pub fn next(&mut self, read: u32) -> (r: BusOp)
        ensures
            r == routing_op(old(self).spec_pads(), old(self).spec_gpio(), old(self).spec_phase(), read),
            final(self).spec_pads() == old(self).spec_pads(),
            final(self).spec_gpio() == old(self).spec_gpio(),
            final(self).spec_phase() == if old(self).spec_phase() < ROUTING_STEPS {
                old(self).spec_phase() + 1
            } else {
                old(self).spec_phase()
            },
    {
        proof { use_type_invariant(&*self); }
        let phase = self.phase;
        if phase < ROUTING_STEPS {
            self.phase = phase + 1;
        }
        if phase == 0 {
            BusOp::Read { addr: self.pads + PADS_GPIO14_OFFSET }
        } else if phase == 1 {
            let value = modify(field_clear(1, PADS_CTRL_OD_SHIFT), read);
            assert(((read & !(1u32 << 7u32)) | (0u32 & (1u32 << 7u32))) == read & !(1u32 << 7u32))
                by (bit_vector);
            BusOp::Write(MmioWrite { addr: self.pads + PADS_GPIO14_OFFSET, value })
        } else if phase == 2 || phase == 5 {
            let func = field_setting(GPIO_CTRL_FUNCSEL_MASK, GPIO_CTRL_FUNCSEL_SHIFT, FUNCSEL_UART0);
            assert(((4u32 & 0x1Fu32) << 0usize) == 4u32) by (bit_vector);
            let offset = if phase == 2 { GPIO14_CTRL_OFFSET } else { GPIO15_CTRL_OFFSET };
            BusOp::Write(MmioWrite { addr: self.gpio + offset, value: func.value })
        } else if phase == 3 {
            BusOp::Read { addr: self.pads + PADS_GPIO15_OFFSET }
        } else if phase == 4 {
            let rx = combine(field_set(1, PADS_CTRL_IE_SHIFT), field_set(1, PADS_CTRL_PUE_SHIFT));
            let value = modify(rx, read);
            assert(forall|v: u32, a: u32, b: u32|
                a == (1u32 << 6usize) && b == (1u32 << 3usize) ==>
                #[trigger] ((v & !(a | b)) | (((a & a) | (b & b)) & (a | b)))
                    == v | (1u32 << 6u32) | (1u32 << 3u32)) by (bit_vector);
            BusOp::Write(MmioWrite { addr: self.pads + PADS_GPIO15_OFFSET, value })
        } else {
            BusOp::Done
        }
    }
}

/// The RP1 GPIO driver.
pub struct GPIO {
    inner: GPIOInner,
}

impl GPIO {
    /// The register banks of the driver.
    pub closed spec fn inner(&self) -> GPIOInner {
        self.inner
    }

    /// Create an instance over the pad bank at `pads_addr` and the GPIO bank
    /// at `gpio_addr`.
    pub fn new(pads_addr: Address<Virtual>, gpio_addr: Address<Virtual>) -> (r: Self)
        requires
            pads_addr.spec_value() + phys_map::PADS_SIZE <= u64::MAX,
            gpio_addr.spec_value() + phys_map::GPIO_SIZE <= u64::MAX,
        ensures
            r.inner().spec_pads() == pads_addr.spec_value(),
            r.inner().spec_gpio() == gpio_addr.spec_value(),
    {
        GPIO { inner: GPIOInner::new(pads_addr, gpio_addr) }
    }

    /// The name under which the driver registers.
    pub fn compatible(&self) -> (r: &'static str)
        ensures
            r@ == "RP1 GPIO"@,
    {
        "RP1 GPIO"
    }

    /// Route the PL011 UART to GPIO 14 and 15.
    pub fn map_pl011_uart(&self) -> (r: UartPinRouting)
        ensures
            r.spec_pads() == self.inner().spec_pads(),
            r.spec_gpio() == self.inner().spec_gpio(),
            r.spec_phase() == 0,
    {
        self.inner.map_pl011_uart()
    }
}

/// The TX pad store is a read-modify-write of the GPIO 14 pad value read:
/// it goes to that pad register, has output disable (bit 7) clear whatever
/// was read, and keeps every other bit as read.
pub proof fn lemma_tx_pad_store_clears_only_output_disable(pads: u64, gpio: u64, read: u32)
    ensures
        routing_op(pads, gpio, 1, read) matches BusOp::Write(w) && {
            &&& w.addr == (pads + 0x3C) as u64
            &&& w.value & 0x80u32 == 0
            &&& w.value & !0x80u32 == read & !0x80u32
        },
{
    let v = tx_pad(read);
    assert(v & 0x80u32 == 0 && v & !0x80u32 == read & !0x80u32) by (bit_vector)
        requires
            v == read & !(1u32 << 7u32),
    ;
}

/// The RX pad store is a read-modify-write of the GPIO 15 pad value read:
/// it goes to that pad register, has input enable (bit 6) and pull-up
/// enable (bit 3) set whatever was read, and keeps every other bit as read.
pub proof fn lemma_rx_pad_store_sets_only_input_and_pull_up(pads: u64, gpio: u64, read: u32)
    ensures
        routing_op(pads, gpio, 4, read) matches BusOp::Write(w) && {
            &&& w.addr == (pads + 0x40) as u64
            &&& w.value & 0x48u32 == 0x48u32
            &&& w.value & !0x48u32 == read & !0x48u32
        },
{
    let v = rx_pad(read);
    assert(v & 0x48u32 == 0x48u32 && v & !0x48u32 == read & !0x48u32) by (bit_vector)
        requires
            v == read | (1u32 << 6u32) | (1u32 << 3u32),
    ;
}

/// The routing reads only the two pad registers, and each function-select
/// store selects UART0 (function 4) on the pin's GPIO control register.
pub proof fn lemma_routing_reads_pads_and_selects_uart0(pads: u64, gpio: u64, read: u32)
    ensures
        routing_op(pads, gpio, 0, read) == (BusOp::Read { addr: (pads + 0x3C) as u64 }),
        routing_op(pads, gpio, 3, read) == (BusOp::Read { addr: (pads + 0x40) as u64 }),
        routing_op(pads, gpio, 2, read) == BusOp::Write(MmioWrite { addr: (gpio + 0x74) as u64, value: 4 }),
        routing_op(pads, gpio, 5, read) == BusOp::Write(MmioWrite { addr: (gpio + 0x7C) as u64, value: 4 }),
        forall|p: int| p > 5 ==> #[trigger] routing_op(pads, gpio, p, read) == BusOp::Done,
{
}

} // verus!
