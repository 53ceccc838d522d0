use vstd::prelude::*;
use crate::error::Error;

verus! {

// ---------------------------------------------------------------------------
// DMA direction
// ---------------------------------------------------------------------------

/// The direction of a DMA transfer.
#[derive(Debug, Clone, Copy, PartialEq, Eq, Structural)]
pub enum DmaDirection {
    /// CPU writes, device reads: `DMA_TO_DEVICE`.
    ToDevice,
    /// Device writes, CPU reads: `DMA_FROM_DEVICE`.
    FromDevice,
    /// Both sides can read and write: `DMA_BIDIRECTIONAL`.
    Bidirectional,
}

/// The kernel's `dma_data_direction` value for each direction.
pub open spec fn kernel_dma_direction(d: DmaDirection) -> u32 {
    match d {
        DmaDirection::Bidirectional => 0,
        DmaDirection::ToDevice => 1,
        DmaDirection::FromDevice => 2,
    }
}

impl DmaDirection {
    /// Map to the kernel's `dma_data_direction` enum value.
    pub fn to_kernel_constant(self) -> (c: u32)
        ensures
            c == kernel_dma_direction(self),
    {
        match self {
            DmaDirection::ToDevice => 1,
            DmaDirection::FromDevice => 2,
            DmaDirection::Bidirectional => 0,
        }
    }
}

/// Each direction has its own kernel constant, so the constant handed to the
/// kernel determines the direction.
pub proof fn lemma_kernel_dma_direction_injective(a: DmaDirection, b: DmaDirection)
    ensures
        kernel_dma_direction(a) == kernel_dma_direction(b) ==> a == b,
        kernel_dma_direction(a) <= 2,
{
}

// ---------------------------------------------------------------------------
// Coherent DMA buffer
// ---------------------------------------------------------------------------

/// Where the buffer lies in the machine's address space.
///
/// Takes the address of the slice's first byte (`<[u8]>::as_ptr`). The address
/// is the allocator's choice; what holds of every outcome is that a slice's
/// pointer is never null.
#[verifier::external_body]
fn buffer_address(buf: &[u8]) -> (a: u64)
    ensures
        a != 0,
{
    buf.as_ptr() as usize as u64
}

/// A coherent DMA buffer: memory that the CPU and the device both access
/// without explicit cache maintenance.
pub struct CoherentDmaBuffer {
    /// CPU-side contents.
    cpu_mem: Vec<u8>,
    /// Device-visible DMA address.
    dma_addr: u64,
}

/// Whether a buffer of `size` bytes can be laid out in memory at all.
pub open spec fn allocatable(size: usize) -> bool {
    size <= isize::MAX
}

/// A coherent buffer can be allocated exactly when its size fits the range a
/// pointer offset can span.
pub proof fn lemma_allocatable_rule(size: usize)
    ensures
        allocatable(size) <==> size <= isize::MAX,
{
}

impl CoherentDmaBuffer {
    /// The bytes the buffer currently holds.
    pub closed spec fn contents(&self) -> Seq<u8> {
        self.cpu_mem@
    }

    /// The DMA address programmed into the device for this buffer.
    pub closed spec fn device_address(&self) -> u64 {
        self.dma_addr
    }

    /// Allocate a zero-filled coherent DMA buffer of `size` bytes.
    ///
    /// Fails with `Error::ENOMEM` when no buffer of that size can exist.
    pub fn allocate(size: usize) -> (r: Result<Self, Error>)
        ensures
            r is Ok <==> allocatable(size),
            !allocatable(size) ==> r == Err::<Self, Error>(Error::ENOMEM),
            r matches Ok(b) ==> b.contents() == Seq::new(size as nat, |i: int| 0u8)
                && b.device_address() != 0,
    {
        if size > isize::MAX as usize {
            return Err(Error::ENOMEM);
        }
        let cpu_mem: Vec<u8> = vec![0u8; size];
        assert(cpu_mem@ =~= Seq::new(size as nat, |i: int| 0u8));
        let dma_addr = buffer_address(cpu_mem.as_slice());
        Ok(CoherentDmaBuffer { cpu_mem, dma_addr })
    }

    /// Return the DMA address to program into the device's descriptor ring.
    pub fn dma_addr(&self) -> (a: u64)
        ensures
            a == self.device_address(),
    {
        self.dma_addr
    }

    /// Return a CPU-side slice for reading the buffer.
    pub fn as_slice(&self) -> (s: &[u8])
        ensures
            s@ == self.contents(),
    {
        self.cpu_mem.as_slice()
    }

    /// Return a mutable CPU-side slice for writing the buffer; what is written
    /// through it becomes the buffer's contents, and the DMA address stays.
    pub fn as_mut_slice(&mut self) -> (s: &mut [u8])
        ensures
            s@ == old(self).contents(),
            final(self).contents() == final(s)@,
            final(self).device_address() == old(self).device_address(),
    {
        self.cpu_mem.as_mut_slice()
    }
}

// ---------------------------------------------------------------------------
// Streaming DMA mapping
// ---------------------------------------------------------------------------

/// The bookkeeping state of a streaming mapping: its DMA address, its size,
/// and whether the device currently owns the buffer.
pub struct MappingState {
    pub dma_addr: u64,
    pub size: usize,
    pub device_owned: bool,
}

/// The state after a sync for the device: the device owns the buffer.
pub open spec fn synced_for_device(s: MappingState) -> MappingState {
    MappingState { device_owned: true, ..s }
}

/// The state after a sync for the CPU: the CPU owns the buffer again.
pub open spec fn synced_for_cpu(s: MappingState) -> MappingState {
    MappingState { device_owned: false, ..s }
}

/// A streaming DMA mapping of an existing CPU buffer, whose ownership passes
/// between the CPU and the device with explicit syncs. `DIR` is the kernel
/// direction constant the mapping was made for.
pub struct StreamingDmaMapping<const DIR: u32> {
    dma_addr: u64,
    size: usize,
    device_owned: bool,
}

impl<const DIR: u32> View for StreamingDmaMapping<DIR> {
    type V = MappingState;

    closed spec fn view(&self) -> MappingState {
        MappingState { dma_addr: self.dma_addr, size: self.size, device_owned: self.device_owned }
    }
}

impl<const DIR: u32> StreamingDmaMapping<DIR> {
    /// Map `size` bytes starting at `cpu_phys_addr` for DMA; the CPU owns the
    /// buffer afterwards.
    pub fn map(cpu_phys_addr: usize, size: usize) -> (r: Result<Self, Error>)
        ensures
            r is Ok,
            r matches Ok(m) && m@ == (MappingState {
                dma_addr: cpu_phys_addr as u64,
                size,
                device_owned: false,
            }),
    {
        Ok(StreamingDmaMapping { dma_addr: cpu_phys_addr as u64, size, device_owned: false })
    }

    /// Transfer ownership to the device.
    pub fn sync_for_device(&mut self)
        ensures
            final(self)@ == synced_for_device(old(self)@),
            final(self)@.device_owned,
            final(self)@.dma_addr == old(self)@.dma_addr,
            final(self)@.size == old(self)@.size,
    {
        self.device_owned = true;
    }

    /// Transfer ownership back to the CPU.
    pub fn sync_for_cpu(&mut self)
        ensures
            final(self)@ == synced_for_cpu(old(self)@),
            !final(self)@.device_owned,
            final(self)@.dma_addr == old(self)@.dma_addr,
            final(self)@.size == old(self)@.size,
    {
        self.device_owned = false;
    }

    /// Return the DMA address to program into the hardware descriptor.
    pub fn dma_addr(&self) -> (a: u64)
        ensures
            a == self@.dma_addr,
    {
        self.dma_addr
    }

    /// Whether the device still owns the buffer: unmapping it now would pull
    /// the buffer from under a running transfer.
    pub fn is_device_owned(&self) -> (b: bool)
        ensures
            b == self@.device_owned,
    {
        self.device_owned
    }
}

/// A sync for the device followed by a sync for the CPU hands the buffer back
/// to the CPU and changes nothing else; either sync keeps the DMA address and
/// the size.
pub proof fn lemma_sync_round_trip(s: MappingState)
    ensures
        synced_for_cpu(synced_for_device(s)) == synced_for_cpu(s),
        !synced_for_cpu(synced_for_device(s)).device_owned,
        synced_for_device(s).dma_addr == s.dma_addr,
        synced_for_device(s).size == s.size,
        synced_for_cpu(s).dma_addr == s.dma_addr,
        synced_for_cpu(s).size == s.size,
        !s.device_owned ==> synced_for_cpu(synced_for_device(s)) == s,
{
}

/// Whatever the state before, a sync for the device leaves the device owning
/// the buffer and a sync for the CPU leaves the CPU owning it; repeating a
/// sync changes nothing, and neither touches the address or the size.
pub proof fn lemma_sync_sets_owner(s: MappingState)
    ensures
        synced_for_device(s).device_owned,
        !synced_for_cpu(s).device_owned,
        synced_for_device(synced_for_device(s)) == synced_for_device(s),
        synced_for_cpu(synced_for_cpu(s)) == synced_for_cpu(s),
        synced_for_device(synced_for_cpu(s)) == synced_for_device(s),
        synced_for_device(s).dma_addr == s.dma_addr && synced_for_device(s).size == s.size,
        synced_for_cpu(s).dma_addr == s.dma_addr && synced_for_cpu(s).size == s.size,
{
}

// ---------------------------------------------------------------------------
// MMIO register block
// ---------------------------------------------------------------------------

/// A hardware register block mapped at a physical address.
pub struct MmioBlock {
    base: usize,
    size: usize,
}

/// Whether `offset` names a whole 32-bit register inside a block of `size`
/// bytes.
pub open spec fn valid_register_offset(size: usize, offset: usize) -> bool {
    offset + 4 <= size && offset % 4 == 0
}

/// A register offset is valid exactly when it is 4-byte aligned and the
/// whole 32-bit register lies inside the block, wherever in the block that is.
pub proof fn lemma_register_offset_rule(size: usize, offset: usize)
    ensures
        valid_register_offset(size, offset) <==> (offset % 4 == 0 && offset + 4 <= size),
{
}

impl MmioBlock {
    /// The address the block is mapped at.
    pub closed spec fn base_address(&self) -> usize {
        self.base
    }

    /// The size of the register space in bytes.
    pub closed spec fn block_size(&self) -> usize {
        self.size
    }

    /// Map a hardware register block at `phys_addr` of `size` bytes.
    ///
    /// The null address is refused with `Error::EINVAL`.
    pub fn new(phys_addr: usize, size: usize) -> (r: Result<Self, Error>)
        ensures
            phys_addr == 0 ==> r == Err::<Self, Error>(Error::EINVAL),
            phys_addr != 0 ==> (r matches Ok(b) && b.base_address() == phys_addr
                && b.block_size() == size),
    {
        if phys_addr == 0 {
            return Err(Error::EINVAL);
        }
        Ok(MmioBlock { base: phys_addr, size })
    }

    /// The address of the 32-bit register at `offset` bytes from the base, for
    /// a volatile read or write; `None` when `offset` is unaligned or the
    /// register does not lie wholly inside the block.
    pub fn register_address(&self, offset: usize) -> (a: Option<usize>)
        ensures
            a is Some <==> valid_register_offset(self.block_size(), offset)
                && self.base_address() + offset <= usize::MAX,
            a is Some <==> (offset % 4 == 0 && offset + 4 <= self.block_size()
                && self.base_address() + offset <= usize::MAX),
            a matches Some(addr) ==> addr == self.base_address() + offset,
    {
        proof {
            lemma_register_offset_rule(self.size, offset);
        }
        if offset > usize::MAX - 4 || offset + 4 > self.size || offset % 4 != 0 {
            return None;
        }
        if self.base > usize::MAX - offset {
            return None;
        }
        Some(self.base + offset)
    }
}

// ---------------------------------------------------------------------------
// Descriptor ring entry
// ---------------------------------------------------------------------------

/// A single entry in a DMA descriptor ring.
pub struct DmaDescriptor {
    /// Physical (DMA) address of the buffer.
    pub addr: u64,
    /// Length of the transfer in bytes.
    pub len: u32,
    /// Hardware control flags (device-specific).
    pub flags: u32,
}

impl DmaDescriptor {
    /// Create a descriptor for a coherent buffer.
    pub fn new(buffer: &CoherentDmaBuffer, len: u32, flags: u32) -> (d: Self)
        ensures
            d.addr == buffer.device_address(),
            d.len == len,
            d.flags == flags,
    {
        DmaDescriptor { addr: buffer.dma_addr(), len, flags }
    }
}

} // verus!
