//! Addresses, page addresses and the board's physical memory map.
use vstd::prelude::*;
use core::marker::PhantomData;

pub mod phys_map;
pub mod rpi3_phys_map;
pub mod rpi4_phys_map;

verus! {

/// The granule in which the kernel maps memory: 64 KiB.
pub const KERNEL_GRANULE_SIZE: u64 = 0x1_0000;

/// Marker for physical addresses.
#[derive(Clone, Copy)]
pub struct Physical;

/// Marker for virtual addresses.
#[derive(Clone, Copy)]
pub struct Virtual;

/// An address of the kind `ATYPE` (physical or virtual).
pub struct Address<ATYPE> {
    value: u64,
    _address_type: PhantomData<ATYPE>,
}

impl<ATYPE> Clone for Address<ATYPE> {
    fn clone(&self) -> (r: Self)
        ensures
            r == *self,
    {
        Address { value: self.value, _address_type: PhantomData }
    }
}

impl<ATYPE> Copy for Address<ATYPE> {
}

impl<ATYPE> Address<ATYPE> {
    /// The numeric value of the address.
    pub closed spec fn spec_value(&self) -> u64 {
        self.value
    }

    /// Create an address.
    pub fn new(value: u64) -> (r: Self)
        ensures
            r.spec_value() == value,
    {
        Address { value, _address_type: PhantomData }
    }

    /// The address as a plain integer.
    pub fn as_u64(&self) -> (r: u64)
        ensures
            r == self.spec_value(),
    {
        self.value
    }

    /// The address `rhs` bytes above this one.
    pub fn add(&self, rhs: u64) -> (r: Self)
        requires
            self.spec_value() + rhs <= u64::MAX,
        ensures
            r.spec_value() == self.spec_value() + rhs,
    {
        Address { value: self.value + rhs, _address_type: PhantomData }
    }

    /// Number of bytes from this address up to `end_exclusive`.
    pub fn bytes_until(&self, end_exclusive: &Self) -> (r: u64)
        requires
            self.spec_value() <= end_exclusive.spec_value(),
        ensures
            r == end_exclusive.spec_value() - self.spec_value(),
    {
        end_exclusive.value - self.value
    }

    /// Whether the address lies on a kernel granule boundary.
    pub fn is_page_aligned(&self) -> (r: bool)
        ensures
            r == is_page_aligned(self.spec_value() as int),
    {
        self.value % KERNEL_GRANULE_SIZE == 0
    }
}

/// Whether `addr` lies on a kernel granule boundary.
pub open spec fn is_page_aligned(addr: int) -> bool {
    addr % (KERNEL_GRANULE_SIZE as int) == 0
}

/// An address that lies on a kernel granule boundary.
pub struct PageAddress<ATYPE> {
    inner: Address<ATYPE>,
}

impl<ATYPE> PageAddress<ATYPE> {
    #[verifier::type_invariant]
    spec fn aligned(self) -> bool {
        is_page_aligned(self.inner.spec_value() as int)
    }

    /// The numeric value of the page address.
    pub closed spec fn spec_value(&self) -> u64 {
        self.inner.spec_value()
    }

    /// The page address of an aligned address.
    pub fn from_address(addr: Address<ATYPE>) -> (r: Self)
        requires
            is_page_aligned(addr.spec_value() as int),
        ensures
            r.spec_value() == addr.spec_value(),
    {
        PageAddress { inner: addr }
    }

    /// The page address of an aligned integer address.
    pub fn from_u64(addr: u64) -> (r: Self)
        requires
            is_page_aligned(addr as int),
        ensures
            r.spec_value() == addr,
    {
        PageAddress { inner: Address::new(addr) }
    }

    /// The address this page address stands for.
    pub fn into_inner(self) -> (r: Address<ATYPE>)
        ensures
            r.spec_value() == self.spec_value(),
            is_page_aligned(r.spec_value() as int),
    {
        proof { use_type_invariant(&self); }
        self.inner
    }
}

/// A 32-bit store of `value` to the device register at `addr`.
#[derive(Clone, Copy)]
pub struct MmioWrite {
    pub addr: u64,
    pub value: u32,
}

/// One access a driver asks the caller to make on the device bus.
#[derive(Clone, Copy)]
pub enum BusOp {
    /// Read the 32-bit register at `addr`, and hand the value back.
    Read { addr: u64 },
    /// Store to a 32-bit register.
    Write(MmioWrite),
    /// The operation is over.
    Done,
}

/// Exclusive end address of the physical address space.
pub fn phys_addr_space_end_exclusive_addr() -> (r: PageAddress<Physical>)
    ensures
        r.spec_value() == phys_map::END,
{
    assert(is_page_aligned(phys_map::END as int));
    PageAddress::from_u64(phys_map::END)
}

} // verus!
