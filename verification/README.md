# rpi5_bsp

Board support for the Raspberry Pi 5, verified with Verus.

- `src/memory.rs`, `src/memory/phys_map.rs`: addresses, granule-aligned page
  addresses, the physical memory map.
- `src/fields.rs`: register bit fields, computed with `tock_registers`.
- `src/rp1_gpio.rs`: routing the PL011 UART to GPIO 14/15 (a step machine).
- `src/bcm2712_ic.rs`: the MIP set-up, handler registration, re-arming of RP1
  interrupts, and the response to an acknowledged interrupt.
- `src/bcm2712_pcie.rs`: root complex and RP1 set-up with the MSI-X
  capability walk and the UART0 MSI-X routing, as one step machine.
- `src/driver.rs`: the order of the drivers' bring-up as a step machine, and
  that it succeeds at most once.
- `app/`: volatile register access, linker symbols and kernel glue.
