//! The board's physical memory map: the MMIO regions of the BCM2712 and of the
//! RP1 southbridge, each as a start address and a size in bytes.
use vstd::prelude::*;

verus! {

/// GICv2 distributor.
pub const GICD_START: u64 = 0x10_7FFF_9000;
pub const GICD_SIZE: u64 = 0x1000;

/// GICv2 CPU interface.
pub const GICC_START: u64 = 0x10_7FFF_A000;
pub const GICC_SIZE: u64 = 0x1000;

/// MIP (machine interrupt peripheral) that collects the RP1 interrupts.
pub const MIP_START: u64 = 0x10_0013_0000;
pub const MIP_SIZE: u64 = 0x1000;

/// PCIe root complex.
pub const PCIE_RC_START: u64 = 0x10_0012_0000;
pub const PCIE_RC_SIZE: u64 = 0x1000;

/// RP1 configuration space and MSI-X table (4 MiB window).
pub const RP1_CFG_START: u64 = 0x1F_0010_0000;
pub const RP1_CFG_SIZE: u64 = 0x40_0000;

/// RP1 PL011 UART.
pub const PL011_UART_START: u64 = 0x1F_0003_0000;
pub const PL011_UART_SIZE: u64 = 0x1000;

/// RP1 GPIO function-select bank.
pub const GPIO_START: u64 = 0x1F_000D_0000;
pub const GPIO_SIZE: u64 = 0x1000;

/// RP1 pad control bank.
pub const PADS_START: u64 = 0x1F_000F_0000;
pub const PADS_SIZE: u64 = 0x1000;

/// Exclusive end of the physical address space that is mapped.
pub const END: u64 = 0x20_0000_0000;

} // verus!
