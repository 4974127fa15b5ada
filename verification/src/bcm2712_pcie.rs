//! BCM2712 PCIe root complex and the RP1 southbridge behind it: the inbound
//! window to the MIP doorbell, bus mastering, MSI-X, and the UART0 vector.
use vstd::prelude::*;
use crate::fields::{combine, field_set, modify};
use crate::memory::{phys_map, Address, BusOp, MmioWrite, Virtual};

verus! {

/// `MISC_CTRL.SCB_ACCESS_EN` (bit 12).
pub const MISC_CTRL_SCB_ACCESS_EN_SHIFT: usize = 12;
/// `CMD.BUS_MASTER` (bit 2) and `CMD.MEM_ACCESS` (bit 1).
pub const CMD_BUS_MASTER_SHIFT: usize = 2;
pub const CMD_MEM_ACCESS_SHIFT: usize = 1;

/// RP1 interrupt vector of UART0.
pub const UART0_VECTOR: u64 = 25;
/// PCI address of the MIP doorbell.
pub const MIP_DOORBELL_PCI_LO: u32 = 0xFFFF_F000;
pub const MIP_DOORBELL_PCI_HI: u32 = 0x0000_00FF;
/// Physical address of the MIP, target of the inbound window.
pub const MIP_PHYS_ADDR: u64 = 0x10_0013_0000;
/// BAR2 flags: 64-bit, prefetchable.
pub const BAR2_FLAGS: u32 = 0x1C;

/// Offsets in the RP1 configuration window.
pub const OFFSET_RP1_CFG: u64 = 0x9000;
pub const OFFSET_MSIX_TABLE: u64 = 0x31_0000;
pub const OFFSET_APB_INTERNAL: u64 = 0x8000;

/// Capability ID of MSI-X.
pub const PCI_CAP_ID_MSIX: u32 = 0x11;
/// MSI-X enable bit of the capability header.
pub const MSIX_ENABLE: u32 = 0x8000_0000;
/// Value of an RP1 interrupt control register: enable (bit 3) and target (bit 0).
pub const RP1_IRQ_ENABLE_VALUE: u32 = 0x9;

/// Register byte offsets in the root complex bank, and the bank's extent.
pub const MISC_CTRL_OFFSET: u64 = 0x4008;
pub const BAR2_LO_OFFSET: u64 = 0x4034;
pub const BAR2_HI_OFFSET: u64 = 0x4038;
pub const UBUS_BAR2_LO_OFFSET: u64 = 0x40B4;
pub const UBUS_BAR2_HI_OFFSET: u64 = 0x40B8;
pub const RC_BANK_SIZE: u64 = 0x40BC;
/// Register byte offsets in the RP1 configuration header.
pub const COMMAND_OFFSET: u64 = 0x04;
pub const CAP_PTR_OFFSET: u64 = 0x34;

/// `MISC_CTRL` once system core bus access is enabled.
pub open spec fn scb_access_enabled(old: u32) -> u32 {
    old | (1u32 << 12u32)
}

/// `COMMAND` once bus mastering and memory access are enabled.
pub open spec fn bus_master_enabled(old: u32) -> u32 {
    old | (1u32 << 2u32) | (1u32 << 1u32)
}

/// `BAR2` (low, high) and `UBUS_BAR2` (low, high): the inbound window onto
/// the MIP doorbell.
pub open spec fn bar2_lo_value() -> u32 {
    MIP_DOORBELL_PCI_LO | BAR2_FLAGS
}

pub open spec fn ubus_bar2_lo_value() -> u32 {
    (MIP_PHYS_ADDR as u32) | 1
}

pub open spec fn ubus_bar2_hi_value() -> u32 {
    (MIP_PHYS_ADDR >> 32u64) as u32
}

/// Address of MSI-X table entry `vector` in the RP1 window at `rp1_base`.
pub open spec fn msix_entry_addr(rp1_base: int, vector: int) -> int {
    rp1_base + OFFSET_MSIX_TABLE + 16 * vector
}

/// Address of the control register of RP1 vector `vector` at the RP1
/// internal APB interrupt controller, in the RP1 window at `rp1_base`.
pub open spec fn rp1_vector_ctrl_addr(rp1_base: int, vector: int) -> int {
    rp1_base + OFFSET_APB_INTERNAL + 8 + 4 * vector
}

/// Store `k` (of five) that routes RP1 UART0 to the MIP doorbell: its MSI-X
/// entry (doorbell address low and high, data 0, unmasked), then its
/// unmasking at the RP1.
pub open spec fn uart_route_store(rp1_base: int, k: int) -> MmioWrite {
    if k < 4 {
        MmioWrite {
            addr: (msix_entry_addr(rp1_base, UART0_VECTOR as int) + 4 * k) as u64,
            value: if k == 0 {
                MIP_DOORBELL_PCI_LO
            } else if k == 1 {
                MIP_DOORBELL_PCI_HI
            } else {
                0
            },
        }
    } else {
        MmioWrite {
            addr: rp1_vector_ctrl_addr(rp1_base, UART0_VECTOR as int) as u64,
            value: RP1_IRQ_ENABLE_VALUE,
        }
    }
}

/// The PCIe root complex driver: the root complex registers at `rc_base`
/// and the RP1 window at `rp1_mapping_base`.
pub struct BCM2712PCIe {
    rc_base: Address<Virtual>,
    rp1_mapping_base: Address<Virtual>,
}

impl BCM2712PCIe {
    #[verifier::type_invariant]
    spec fn windows_fit(self) -> bool {
        &&& self.rc_base.spec_value() + RC_BANK_SIZE <= u64::MAX
        &&& self.rp1_mapping_base.spec_value() + phys_map::RP1_CFG_SIZE <= u64::MAX
    }

    /// Base of the root complex registers.
    pub closed spec fn spec_rc_base(&self) -> int {
        self.rc_base.spec_value() as int
    }

    /// Base of the RP1 configuration window.
    pub closed spec fn spec_rp1_base(&self) -> int {
        self.rp1_mapping_base.spec_value() as int
    }

    /// Create an instance over the root complex at `rc_base` and the RP1
    /// window mapped at `rp1_mapping_base`.
    pub fn new(rc_base: Address<Virtual>, rp1_mapping_base: Address<Virtual>) -> (r: Self)
        requires
            rc_base.spec_value() + RC_BANK_SIZE <= u64::MAX,
            rp1_mapping_base.spec_value() + phys_map::RP1_CFG_SIZE <= u64::MAX,
        ensures
            r.spec_rc_base() == rc_base.spec_value(),
            r.spec_rp1_base() == rp1_mapping_base.spec_value(),
    {
        BCM2712PCIe { rc_base, rp1_mapping_base }
    }

    /// The name under which the driver registers.
    pub fn compatible(&self) -> (r: &'static str)
        ensures
            r@ == "BCM2712 PCIe RC"@,
    {
        "BCM2712 PCIe RC"
    }

    /// Address of the RP1 configuration header: 0x9000 into the window.
    pub fn rp1_config_base(&self) -> (r: Address<Virtual>)
        ensures
            r.spec_value() == self.spec_rp1_base() + OFFSET_RP1_CFG,
    {
        proof { use_type_invariant(self); }
        self.rp1_mapping_base.add(OFFSET_RP1_CFG)
    }

    /// The four stores that fill MSI-X table entry `vector` (address low,
    /// address high, data, and vector control 0 = unmasked), in that order.
    pub fn configure_msix(&self, vector: u64, addr_lo: u32, addr_hi: u32, data: u32) -> (r: Vec<MmioWrite>)
        requires
            OFFSET_MSIX_TABLE + 16 * vector + 16 <= phys_map::RP1_CFG_SIZE,
        ensures
            r.len() == 4,
            forall|i: int| 0 <= i < 4 ==> (#[trigger] r@[i]).addr
                == msix_entry_addr(self.spec_rp1_base(), vector as int) + 4 * i,
            r@[0].value == addr_lo,
            r@[1].value == addr_hi,
            r@[2].value == data,
            r@[3].value == 0,
    {
        proof { use_type_invariant(self); }
        let entry = self.rp1_mapping_base.as_u64() + OFFSET_MSIX_TABLE + 16 * vector;
        let mut writes: Vec<MmioWrite> = Vec::new();
        writes.push(MmioWrite { addr: entry, value: addr_lo });
        writes.push(MmioWrite { addr: entry + 4, value: addr_hi });
        writes.push(MmioWrite { addr: entry + 8, value: data });
        writes.push(MmioWrite { addr: entry + 12, value: 0 });
        writes
    }

    /// The store that unmasks RP1 vector `vector` at the RP1 internal APB
    /// interrupt controller.
    pub fn unmask_rp1_irq(&self, vector: u64) -> (r: MmioWrite)
        requires
            OFFSET_APB_INTERNAL + 8 + 4 * vector + 4 <= phys_map::RP1_CFG_SIZE,
        ensures
            r.addr == rp1_vector_ctrl_addr(self.spec_rp1_base(), vector as int),
            r.value == RP1_IRQ_ENABLE_VALUE,
    {
        proof { use_type_invariant(self); }
        MmioWrite {
            addr: self.rp1_mapping_base.as_u64() + OFFSET_APB_INTERNAL + 8 + 4 * vector,
            value: RP1_IRQ_ENABLE_VALUE,
        }
    }

    /// The five stores that route RP1 UART0 to the MIP doorbell.
    pub fn uart_interrupt_writes(&self) -> (r: Vec<MmioWrite>)
        ensures
            r.len() == 5,
            forall|k: int| 0 <= k < 5 ==> #[trigger] r@[k] == uart_route_store(self.spec_rp1_base(), k),
    {
        let mut writes = self.configure_msix(UART0_VECTOR, MIP_DOORBELL_PCI_LO, MIP_DOORBELL_PCI_HI, 0);
        let unmask = self.unmask_rp1_irq(UART0_VECTOR);
        writes.push(unmask);
        assert forall|k: int| 0 <= k < 5 implies #[trigger] writes@[k] == uart_route_store(self.spec_rp1_base(), k) by {
            if k < 4 {
                assert(writes@[k].addr == msix_entry_addr(self.spec_rp1_base(), UART0_VECTOR as int) + 4 * k);
            }
        }
        writes
    }

    /// Bring up the root complex and the RP1. Returns the register accesses
    /// to make, one at a time (see `init_op`): enable system core bus
    /// access, open the inbound BAR2 window onto the MIP doorbell, enable bus
    /// mastering and memory access on the RP1, walk the RP1 capability list
    /// and enable MSI-X, then route UART0 to the doorbell.
    pub fn init(&self) -> (r: PcieInit)
        ensures
            r.spec_rc_base() == self.spec_rc_base(),
            r.spec_rp1_base() == self.spec_rp1_base(),
            r.spec_phase() == 0,
    {
        proof { use_type_invariant(self); }
        PcieInit {
            rc: self.rc_base.as_u64(),
            rp1: self.rp1_mapping_base.as_u64(),
            phase: 0,
            offset: 0,
            tail: self.uart_interrupt_writes(),
        }
    }
}

/// Phase in which the capability pointer is read back.
pub const PHASE_CAP_PTR: u64 = 9;
/// Phase in which a capability header is read back.
pub const PHASE_CAP_HEADER: u64 = 10;
/// First phase of the UART0 routing stores.
pub const PHASE_ROUTE: u64 = 11;
/// Phase after the last store.
pub const PHASE_DONE: u64 = 16;

/// Address of the RP1 configuration header register at `offset`.
pub open spec fn cfg_addr(rp1: u64, offset: int) -> u64 {
    (rp1 + OFFSET_RP1_CFG + offset) as u64
}

/// What follows the capability walk: the first UART0 routing store.
pub open spec fn after_walk(rp1: u64) -> (BusOp, int, u64) {
    (BusOp::Write(uart_route_store(rp1 as int, 0)), PHASE_ROUTE + 1, 0)
}

/// Follow the header `hdr` read at `offset`: enable MSI-X there, or move on
/// to the next capability, or leave the walk at the end of the list.
pub open spec fn walk_step(rp1: u64, offset: u64, hdr: u32) -> (BusOp, int, u64) {
    if hdr & 0xFF == PCI_CAP_ID_MSIX {
        if hdr & MSIX_ENABLE == 0 {
            (BusOp::Write(MmioWrite { addr: cfg_addr(rp1, offset as int), value: hdr | MSIX_ENABLE }),
                PHASE_ROUTE as int, offset)
        } else {
            after_walk(rp1)
        }
    } else if (hdr >> 8u32) & 0xFF != 0 {
        (BusOp::Read { addr: cfg_addr(rp1, ((hdr >> 8u32) & 0xFF) as int) }, PHASE_CAP_HEADER as int,
            ((hdr >> 8u32) & 0xFF) as u64)
    } else {
        after_walk(rp1)
    }
}

/// The access `PcieInit` asks for in `phase`, at capability offset
/// `offset`, given the value `read` of the last register read; with the
/// phase and offset that follow.
pub open spec fn init_step(rc: u64, rp1: u64, phase: int, offset: u64, read: u32) -> (BusOp, int, u64) {
    if phase == 0 {
        (BusOp::Read { addr: (rc + MISC_CTRL_OFFSET) as u64 }, 1, offset)
    } else if phase == 1 {
        (BusOp::Write(MmioWrite { addr: (rc + MISC_CTRL_OFFSET) as u64, value: scb_access_enabled(read) }), 2, offset)
    } else if phase == 2 {
        (BusOp::Write(MmioWrite { addr: (rc + BAR2_LO_OFFSET) as u64, value: bar2_lo_value() }), 3, offset)
    } else if phase == 3 {
        (BusOp::Write(MmioWrite { addr: (rc + BAR2_HI_OFFSET) as u64, value: MIP_DOORBELL_PCI_HI }), 4, offset)
    } else if phase == 4 {
        (BusOp::Write(MmioWrite { addr: (rc + UBUS_BAR2_LO_OFFSET) as u64, value: ubus_bar2_lo_value() }), 5, offset)
    } else if phase == 5 {
        (BusOp::Write(MmioWrite { addr: (rc + UBUS_BAR2_HI_OFFSET) as u64, value: ubus_bar2_hi_value() }), 6, offset)
    } else if phase == 6 {
        (BusOp::Read { addr: cfg_addr(rp1, COMMAND_OFFSET as int) }, 7, offset)
    } else if phase == 7 {
        (BusOp::Write(MmioWrite { addr: cfg_addr(rp1, COMMAND_OFFSET as int), value: bus_master_enabled(read) }), 8, offset)
    } else if phase == 8 {
        (BusOp::Read { addr: cfg_addr(rp1, CAP_PTR_OFFSET as int) }, PHASE_CAP_PTR as int, offset)
    } else if phase == PHASE_CAP_PTR {
        if read & 0xFF != 0 {
            (BusOp::Read { addr: cfg_addr(rp1, (read & 0xFF) as int) }, PHASE_CAP_HEADER as int, (read & 0xFF) as u64)
        } else {
            after_walk(rp1)
        }
    } else if phase == PHASE_CAP_HEADER {
        walk_step(rp1, offset, read)
    } else if PHASE_ROUTE <= phase < PHASE_DONE {
        (BusOp::Write(uart_route_store(rp1 as int, phase - PHASE_ROUTE)), phase + 1, offset)
    } else {
        (BusOp::Done, phase, offset)
    }
}

/// The register accesses of the PCIe bring-up, handed out one at a time.
pub struct PcieInit {
    rc: u64,
    rp1: u64,
    phase: u64,
    offset: u64,
    tail: Vec<MmioWrite>,
}

impl PcieInit {
    #[verifier::type_invariant]
    spec fn consistent(self) -> bool {
        &&& self.rc + RC_BANK_SIZE <= u64::MAX
        &&& self.rp1 + phys_map::RP1_CFG_SIZE <= u64::MAX
        &&& self.phase <= PHASE_DONE
        &&& self.offset <= 0xFF
        &&& self.tail@.len() == 5
        &&& forall|k: int| 0 <= k < 5 ==> #[trigger] self.tail@[k] == uart_route_store(self.rp1 as int, k)
    }

    pub closed spec fn spec_rc_base(&self) -> int {
        self.rc as int
    }

    pub closed spec fn spec_rp1_base(&self) -> int {
        self.rp1 as int
    }

    pub closed spec fn spec_phase(&self) -> int {
        self.phase as int
    }

    /// Offset of the capability header the walk is at.
    pub closed spec fn spec_offset(&self) -> u64 {
        self.offset
    }

    /// The next access. `read` is the value of the register read asked for
    /// last (ignored after a store).
    pub fn next(&mut self, read: u32) -> (r: BusOp)
        ensures
            ({
                let (op, phase, offset) = init_step(
                    old(self).spec_rc_base() as u64,
                    old(self).spec_rp1_base() as u64,
                    old(self).spec_phase(),
                    old(self).spec_offset(),
                    read,
                );
                &&& r == op
                &&& final(self).spec_phase() == phase
                &&& final(self).spec_offset() == offset
            }),
            final(self).spec_rc_base() == old(self).spec_rc_base(),
            final(self).spec_rp1_base() == old(self).spec_rp1_base(),
    {
        proof { use_type_invariant(&*self); }
        let rc = self.rc;
        let cfg = self.rp1 + OFFSET_RP1_CFG;
        let phase = self.phase;
        if phase == 0 {
            self.phase = 1;
            BusOp::Read { addr: rc + MISC_CTRL_OFFSET }
        } else if phase == 1 {
            let value = modify(field_set(1, MISC_CTRL_SCB_ACCESS_EN_SHIFT), read);
            assert(((read & !(1u32 << 12usize)) | ((1u32 << 12usize) & (1u32 << 12usize)))
                == read | (1u32 << 12u32)) by (bit_vector);
            self.phase = 2;
            BusOp::Write(MmioWrite { addr: rc + MISC_CTRL_OFFSET, value })
        } else if phase == 2 {
            self.phase = 3;
            BusOp::Write(MmioWrite { addr: rc + BAR2_LO_OFFSET, value: MIP_DOORBELL_PCI_LO | BAR2_FLAGS })
        } else if phase == 3 {
            self.phase = 4;
            BusOp::Write(MmioWrite { addr: rc + BAR2_HI_OFFSET, value: MIP_DOORBELL_PCI_HI })
        } else if phase == 4 {
            self.phase = 5;
            BusOp::Write(MmioWrite { addr: rc + UBUS_BAR2_LO_OFFSET, value: (#[verifier::truncate] (MIP_PHYS_ADDR as u32)) | 1 })
        } else if phase == 5 {
            self.phase = 6;
            BusOp::Write(MmioWrite { addr: rc + UBUS_BAR2_HI_OFFSET, value: (MIP_PHYS_ADDR >> 32u64) as u32 })
        } else if phase == 6 {
            self.phase = 7;
            BusOp::Read { addr: cfg + COMMAND_OFFSET }
        } else if phase == 7 {
            let enable = combine(field_set(1, CMD_BUS_MASTER_SHIFT), field_set(1, CMD_MEM_ACCESS_SHIFT));
            let value = modify(enable, read);
            assert(forall|v: u32, a: u32, b: u32|
                a == (1u32 << 2usize) && b == (1u32 << 1usize) ==>
                #[trigger] ((v & !(a | b)) | (((a & a) | (b & b)) & (a | b)))
                    == v | (1u32 << 2u32) | (1u32 << 1u32)) by (bit_vector);
            self.phase = 8;
            BusOp::Write(MmioWrite { addr: cfg + COMMAND_OFFSET, value })
        } else if phase == 8 {
            self.phase = PHASE_CAP_PTR;
            BusOp::Read { addr: cfg + CAP_PTR_OFFSET }
        } else if phase == PHASE_CAP_PTR || phase == PHASE_CAP_HEADER {
            let next = if phase == PHASE_CAP_PTR {
                Some(read & 0xFF)
            } else if read & 0xFF == PCI_CAP_ID_MSIX {
                None
            } else {
                Some((read >> 8u32) & 0xFF)
            };
            assert(read & 0xFF <= 0xFF && (read >> 8u32) & 0xFF <= 0xFF) by (bit_vector);
            match next {
                Some(off) if off != 0 => {
                    self.phase = PHASE_CAP_HEADER;
                    self.offset = off as u64;
                    BusOp::Read { addr: cfg + off as u64 }
                },
                None if read & MSIX_ENABLE == 0 => {
                    self.phase = PHASE_ROUTE;
                    BusOp::Write(MmioWrite { addr: cfg + self.offset, value: read | MSIX_ENABLE })
                },
                _ => {
                    self.phase = PHASE_ROUTE + 1;
                    self.offset = 0;
                    BusOp::Write(self.tail[0])
                },
            }
        } else if phase < PHASE_DONE {
            self.phase = phase + 1;
            BusOp::Write(self.tail[(phase - PHASE_ROUTE) as usize])
        } else {
            BusOp::Done
        }
    }
}

/// The stores made by the capability walk at header `offset`, when every
/// header read at offset `o` of the RP1 configuration header gives
/// `headers(o)`, for at most `fuel` headers.
pub open spec fn walk_stores(rp1: u64, offset: u64, headers: spec_fn(u64) -> u32, fuel: nat) -> Seq<MmioWrite>
    decreases fuel,
{
    if fuel == 0 {
        Seq::empty()
    } else {
        let (op, phase, next) = walk_step(rp1, offset, headers(offset));
        if phase == PHASE_CAP_HEADER {
            walk_stores(rp1, next, headers, (fuel - 1) as nat)
        } else if phase == PHASE_ROUTE {
            match op {
                BusOp::Write(store) => seq![store],
                _ => Seq::empty(),
            }
        } else {
            Seq::empty()
        }
    }
}

/// The offset of the first MSI-X capability in the list from `offset`, when
/// the header at offset `o` is `headers(o)`, looking at most `fuel` headers.
pub open spec fn first_msix(offset: u64, headers: spec_fn(u64) -> u32, fuel: nat) -> Option<u64>
    decreases fuel,
{
    if fuel == 0 || offset == 0 {
        None
    } else if headers(offset) & 0xFF == PCI_CAP_ID_MSIX {
        Some(offset)
    } else {
        first_msix(((headers(offset) >> 8u32) & 0xFF) as u64, headers, (fuel - 1) as nat)
    }
}

/// A whole run of the capability walk stores at most once: exactly when the
/// first MSI-X capability of the list has its enable bit clear, and then that
/// header with bit 31 set, at that header's address.
pub proof fn lemma_walk_enables_first_msix(rp1: u64, offset: u64, headers: spec_fn(u64) -> u32, fuel: nat)
    requires
        offset != 0,
    ensures
        walk_stores(rp1, offset, headers, fuel) == match first_msix(offset, headers, fuel) {
            Some(o) => if headers(o) & MSIX_ENABLE == 0 {
                seq![MmioWrite { addr: cfg_addr(rp1, o as int), value: headers(o) | MSIX_ENABLE }]
            } else {
                Seq::<MmioWrite>::empty()
            },
            None => Seq::<MmioWrite>::empty(),
        },
    decreases fuel,
{
    if fuel > 0 {
        let hdr = headers(offset);
        let next = ((hdr >> 8u32) & 0xFF) as u64;
        if hdr & 0xFF != PCI_CAP_ID_MSIX && next != 0 {
            lemma_walk_enables_first_msix(rp1, next, headers, (fuel - 1) as nat);
        } else if hdr & 0xFF != PCI_CAP_ID_MSIX {
            assert(first_msix(next, headers, (fuel - 1) as nat) is None);
        }
    }
}

/// The `MISC_CTRL` store of the bring-up is a read-modify-write of the value
/// read back: it goes to `MISC_CTRL`, sets `SCB_ACCESS_EN` (bit 12) and keeps
/// every other bit as read, whatever was read.
pub proof fn lemma_misc_ctrl_store_sets_only_scb_access(rc: u64, rp1: u64, offset: u64, read: u32)
    ensures
        init_step(rc, rp1, 1, offset, read).0 matches BusOp::Write(w) && {
            &&& w.addr == (rc + 0x4008) as u64
            &&& w.value & 0x1000u32 == 0x1000u32
            &&& w.value & !0x1000u32 == read & !0x1000u32
        },
{
    let v = scb_access_enabled(read);
    assert(v & 0x1000u32 == 0x1000u32 && v & !0x1000u32 == read & !0x1000u32) by (bit_vector)
        requires
            v == read | (1u32 << 12u32),
    ;
}

/// The `COMMAND` store of the bring-up is a read-modify-write of the value
/// read back: it goes to the RP1 `COMMAND` register, has bus mastering
/// (bit 2) and memory access (bit 1) set whatever was read, and keeps every
/// other bit as read.
pub proof fn lemma_command_store_enables_bus_master(rc: u64, rp1: u64, offset: u64, read: u32)
    ensures
        init_step(rc, rp1, 7, offset, read).0 matches BusOp::Write(w) && {
            &&& w.addr == (rp1 + 0x9000 + 4) as u64
            &&& w.value & 0x6u32 == 0x6u32
            &&& w.value & !0x6u32 == read & !0x6u32
        },
{
    let v = bus_master_enabled(read);
    assert(v & 0x6u32 == 0x6u32 && v & !0x6u32 == read & !0x6u32) by (bit_vector)
        requires
            v == read | (1u32 << 2u32) | (1u32 << 1u32),
    ;
}

/// Every capability header the walk reads is at the RP1 configuration
/// header plus exactly the offset it walks to: the low byte of the
/// capability pointer for the first header, and bits 8..16 of the header
/// just read for the next one (unless that header is MSI-X). The offset
/// walked to is the one the walk then keeps, and an offset of 0 ends the
/// walk without a read.
pub proof fn lemma_walk_reads_at_walked_offset(rc: u64, rp1: u64, offset: u64, read: u32)
    ensures
        ({
            let (op, phase, next) = init_step(rc, rp1, PHASE_CAP_PTR as int, offset, read);
            &&& read & 0xFF != 0 ==> op == (BusOp::Read { addr: (rp1 + 0x9000 + next) as u64 })
                && phase == PHASE_CAP_HEADER && next == read & 0xFF
            &&& read & 0xFF == 0 ==> !(op is Read)
        }),
        ({
            let (op, phase, next) = init_step(rc, rp1, PHASE_CAP_HEADER as int, offset, read);
            &&& read & 0xFF != 0x11 && (read >> 8u32) & 0xFF != 0 ==> op == (BusOp::Read {
                addr: (rp1 + 0x9000 + next) as u64,
            }) && phase == PHASE_CAP_HEADER && next == (read >> 8u32) & 0xFF
            &&& (read & 0xFF == 0x11 || (read >> 8u32) & 0xFF == 0) ==> !(op is Read)
        }),
{
}

/// On an MSI-X header (ID 0x11) the walk stops reading: it stores the header
/// at the offset it was read from, with the enable bit (31) set and every
/// other bit as read, when that bit is clear; when it is set already it
/// stores nothing there and goes on to the UART0 routing.
pub proof fn lemma_walk_enables_msix_in_place(rc: u64, rp1: u64, offset: u64, read: u32)
    requires
        read & 0xFF == 0x11,
    ensures
        ({
            let (op, phase, next) = init_step(rc, rp1, PHASE_CAP_HEADER as int, offset, read);
            &&& read & 0x8000_0000u32 == 0 ==> (op matches BusOp::Write(w)
                && w.addr == (rp1 + 0x9000 + offset) as u64
                && w.value & 0x8000_0000u32 == 0x8000_0000u32
                && w.value & 0x7FFF_FFFFu32 == read & 0x7FFF_FFFFu32
                && phase == PHASE_ROUTE)
            &&& read & 0x8000_0000u32 != 0 ==> op == BusOp::Write(uart_route_store(rp1 as int, 0))
                && phase == PHASE_ROUTE + 1
        }),
{
    let v = read | MSIX_ENABLE;
    assert(v & 0x8000_0000u32 == 0x8000_0000u32 && v & 0x7FFF_FFFFu32 == read & 0x7FFF_FFFFu32)
        by (bit_vector)
        requires
            v == read | 0x8000_0000u32,
    ;
}

/// The bring-up's fixed accesses, whatever the registers hold: it first
/// reads `MISC_CTRL`; the inbound window is BAR2 = 0xFF_FFFF_F000 (64-bit,
/// prefetchable: low word 0xFFFF_F01C) translated to the MIP at
/// 0x10_0013_0000 (UBUS low word with enable bit 0 set: 0x0013_0001, high
/// word 0x10); then it reads `COMMAND` and the capability pointer of the RP1
/// configuration header.
pub proof fn lemma_init_fixed_accesses(rc: u64, rp1: u64, offset: u64, read: u32)
    ensures
        init_step(rc, rp1, 0, offset, read).0 == (BusOp::Read { addr: (rc + 0x4008) as u64 }),
        init_step(rc, rp1, 2, offset, read).0 == BusOp::Write(MmioWrite { addr: (rc + 0x4034) as u64, value: 0xFFFF_F01C }),
        init_step(rc, rp1, 3, offset, read).0 == BusOp::Write(MmioWrite { addr: (rc + 0x4038) as u64, value: 0xFF }),
        init_step(rc, rp1, 4, offset, read).0 == BusOp::Write(MmioWrite { addr: (rc + 0x40B4) as u64, value: 0x0013_0001 }),
        init_step(rc, rp1, 5, offset, read).0 == BusOp::Write(MmioWrite { addr: (rc + 0x40B8) as u64, value: 0x10 }),
        init_step(rc, rp1, 6, offset, read).0 == (BusOp::Read { addr: (rp1 + 0x9000 + 4) as u64 }),
        init_step(rc, rp1, 8, offset, read).0 == (BusOp::Read { addr: (rp1 + 0x9000 + 0x34) as u64 }),
        forall|p: int| 0 <= p < PHASE_CAP_PTR ==> #[trigger] init_step(rc, rp1, p, offset, read).1 == p + 1,
{
    assert((0xFFFF_F000u32 | 0x1Cu32) == 0xFFFF_F01Cu32) by (bit_vector);
    assert(((0x10_0013_0000u64 as u32) | 1u32) == 0x0013_0001u32) by (bit_vector);
    assert((0x10_0013_0000u64 >> 32u64) as u32 == 0x10u32) by (bit_vector);
}

/// The UART0 routing that ends the bring-up: MSI-X table entry 25 of the
/// RP1 (16 bytes at 0x31_0000 + 25 * 16 into the window) gets the doorbell
/// address 0xFF_FFFF_F000, data 0 and vector control 0 (unmasked), and then
/// the RP1 control register of vector 25 (0x8000 + 8 + 25 * 4) gets 0x9
/// (enable and target); after that the bring-up is over.
pub proof fn lemma_init_routes_uart0(rc: u64, rp1: u64, offset: u64, read: u32)
    ensures
        init_step(rc, rp1, 11, offset, read).0 == BusOp::Write(MmioWrite { addr: (rp1 + 0x31_0190) as u64, value: 0xFFFF_F000 }),
        init_step(rc, rp1, 12, offset, read).0 == BusOp::Write(MmioWrite { addr: (rp1 + 0x31_0194) as u64, value: 0xFF }),
        init_step(rc, rp1, 13, offset, read).0 == BusOp::Write(MmioWrite { addr: (rp1 + 0x31_0198) as u64, value: 0 }),
        init_step(rc, rp1, 14, offset, read).0 == BusOp::Write(MmioWrite { addr: (rp1 + 0x31_019C) as u64, value: 0 }),
        init_step(rc, rp1, 15, offset, read).0 == BusOp::Write(MmioWrite { addr: (rp1 + 0x806C) as u64, value: 0x9 }),
        init_step(rc, rp1, 16, offset, read).0 == BusOp::Done,
        forall|p: int| 11 <= p < 16 ==> #[trigger] init_step(rc, rp1, p, offset, read).1 == p + 1,
{
}

} // verus!
