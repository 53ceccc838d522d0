use vstd::prelude::*;
use crate::error::Error;

verus! {

// ---------------------------------------------------------------------------
// 1. Basic heap allocation
// ---------------------------------------------------------------------------

/// Allocate a value on the kernel heap.
pub fn basic_heap_allocation() -> (r: Result<Box<u32>, Error>)
    ensures
        r matches Ok(b) && *b == 42,
{
    let value = Box::new(42u32);
    Ok(value)
}

// ---------------------------------------------------------------------------
// 2. Vec-based dynamic arrays
// ---------------------------------------------------------------------------

/// Build a 64-byte array holding 0, 1, ..., 63.
pub fn dynamic_array_example() -> (r: Result<Vec<u8>, Error>)
    ensures
        r matches Ok(v) && v@ == Seq::new(64, |i: int| i as u8),
{
    let mut buffer: Vec<u8> = Vec::with_capacity(64);
    let mut i: u8 = 0;
    while i < 64
        invariant
            i <= 64,
            buffer@ == Seq::new(i as nat, |k: int| k as u8),
        decreases 64 - i,
    {
        buffer.push(i);
        assert(buffer@ =~= Seq::new((i + 1) as nat, |k: int| k as u8));
        i = i + 1;
    }
    Ok(buffer)
}

// ---------------------------------------------------------------------------
// 3. Allocation contexts
// ---------------------------------------------------------------------------

/// The allocation contexts a driver runs in: process context, which may
/// sleep, and interrupt context, which may not.
pub struct AllocationContext;

impl AllocationContext {
    /// Allocate a zeroed 128-byte buffer in process context.
    pub fn allocate_process_context() -> (r: Result<Box<[u8; 128]>, Error>)
        ensures
            r matches Ok(b) && b@ == Seq::new(128, |i: int| 0u8),
    {
        let buf = Box::new([0u8; 128]);
        assert(buf@ =~= Seq::new(128, |i: int| 0u8));
        Ok(buf)
    }

    /// Allocate a zeroed 64-byte buffer in interrupt context.
    pub fn allocate_interrupt_context() -> (r: Result<Box<[u8; 64]>, Error>)
        ensures
            r matches Ok(b) && b@ == Seq::new(64, |i: int| 0u8),
    {
        let buf = Box::new([0u8; 64]);
        assert(buf@ =~= Seq::new(64, |i: int| 0u8));
        Ok(buf)
    }
}

// ---------------------------------------------------------------------------
// 4. Owned raw buffer with checked access
// ---------------------------------------------------------------------------

/// Turns a vector into a boxed slice of the same bytes.
///
/// Calls `Vec::into_boxed_slice`, which keeps the elements and their order.
#[verifier::external_body]
fn into_boxed_bytes(v: Vec<u8>) -> (b: Box<[u8]>)
    ensures
        b@ == v@,
{
    v.into_boxed_slice()
}

/// Whether `len` bytes can be laid out in memory at all.
pub open spec fn layout_fits(len: usize) -> bool {
    len <= isize::MAX
}

/// Every length that a pointer offset can span can be allocated, and no
/// other.
pub proof fn lemma_layout_fits_rule(len: usize)
    ensures
        layout_fits(len) <==> len <= isize::MAX,
{
}

/// A buffer of kernel memory with bounds-checked byte access.
pub struct KernelBuffer {
    bytes: Box<[u8]>,
}

impl View for KernelBuffer {
    type V = Seq<u8>;

    closed spec fn view(&self) -> Seq<u8> {
        self.bytes@
    }
}

impl KernelBuffer {
    /// Allocate `len` zeroed bytes; `Error::ENOMEM` when no buffer of that length can
    /// exist.
    pub fn new(len: usize) -> (r: Result<Self, Error>)
        ensures
            r is Ok <==> layout_fits(len),
            !layout_fits(len) ==> r == Err::<Self, Error>(Error::ENOMEM),
            r matches Ok(b) ==> b@ == Seq::new(len as nat, |i: int| 0u8),
    {
        if len > isize::MAX as usize {
            return Err(Error::ENOMEM);
        }
        let v: Vec<u8> = vec![0u8; len];
        assert(v@ =~= Seq::new(len as nat, |i: int| 0u8));
        Ok(KernelBuffer { bytes: into_boxed_bytes(v) })
    }

    /// Write a byte at `offset`, which must lie inside the buffer.
    pub fn write_byte(&mut self, offset: usize, value: u8)
        requires
            offset < old(self)@.len(),
        ensures
            final(self)@ == old(self)@.update(offset as int, value),
    {
        self.bytes[offset] = value;
    }

    /// Read the byte at `offset`, which must lie inside the buffer.
    pub fn read_byte(&self, offset: usize) -> (b: u8)
        requires
            offset < self@.len(),
        ensures
            b == self@[offset as int],
    {
        self.bytes[offset]
    }
}

/// Reading a byte gives what the last write to that offset stored; a write
/// leaves every other byte and the length unchanged.
pub proof fn lemma_read_after_write(buf: Seq<u8>, offset: int, value: u8, other: int)
    requires
        0 <= offset < buf.len(),
        0 <= other < buf.len(),
        other != offset,
    ensures
        buf.update(offset, value)[offset] == value,
        buf.update(offset, value)[other] == buf[other],
        buf.update(offset, value).len() == buf.len(),
{
}

// ---------------------------------------------------------------------------
// 5. Slab caches
// ---------------------------------------------------------------------------

/// A named cache of fixed-size objects.
pub struct SlabCache {
    name: &'static str,
    object_size: usize,
}

impl SlabCache {
    /// The cache's name.
    pub closed spec fn cache_name(&self) -> Seq<char> {
        self.name@
    }

    /// The size of the objects the cache hands out.
    pub closed spec fn size_of_objects(&self) -> usize {
        self.object_size
    }

    /// Create a named slab cache for objects of `object_size` bytes.
    pub fn new(name: &'static str, object_size: usize) -> (r: Result<Self, Error>)
        ensures
            r is Ok,
            r matches Ok(c) && c.cache_name() == name@ && c.size_of_objects() == object_size,
    {
        Ok(SlabCache { name, object_size })
    }

    /// Allocate one object from the cache: a zeroed block of the cache's object
    /// size that the caller owns; `ENOMEM` when no object of that size can
    /// exist.
    pub fn allocate(&self) -> (r: Result<Box<[u8]>, Error>)
        ensures
            r is Ok <==> layout_fits(self.size_of_objects()),
            r matches Ok(obj) ==> obj@ == Seq::new(self.size_of_objects() as nat, |i: int| 0u8),
            r matches Err(e) ==> e == Error::ENOMEM,
    {
        if self.object_size > isize::MAX as usize {
            return Err(Error::ENOMEM);
        }
        let v: Vec<u8> = vec![0u8; self.object_size];
        assert(v@ =~= Seq::new(self.object_size as nat, |i: int| 0u8));
        Ok(into_boxed_bytes(v))
    }
}

// ---------------------------------------------------------------------------
// 6. Large virtually-contiguous buffers
// ---------------------------------------------------------------------------

/// A large buffer that is contiguous in virtual memory only.
pub struct VmallocBuffer {
    len: usize,
}

impl VmallocBuffer {
    /// The number of bytes requested.
    pub closed spec fn length(&self) -> usize {
        self.len
    }

    /// Request `len` bytes of virtually contiguous kernel memory.
    pub fn new(len: usize) -> (r: Result<Self, Error>)
        ensures
            r is Ok,
            r matches Ok(b) && b.length() == len,
    {
        Ok(VmallocBuffer { len })
    }
}

} // verus!
