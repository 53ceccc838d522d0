use kernel_snippets::error::Error;
use kernel_snippets::memory_allocator::{
    basic_heap_allocation, dynamic_array_example, AllocationContext, KernelBuffer, SlabCache,
    VmallocBuffer,
};

#[test]
fn test_kernel_buffer_size() {
    assert_eq!(core::mem::size_of::<KernelBuffer>(), 16);
}

#[test]
fn test_kernel_buffer_write_read() {
    let mut buf = KernelBuffer::new(64).expect("allocation failed");
    buf.write_byte(0, 0xAB);
    buf.write_byte(63, 0xCD);
    assert_eq!(buf.read_byte(0), 0xAB);
    assert_eq!(buf.read_byte(63), 0xCD);
}

#[test]
fn kernel_buffer_starts_zeroed_and_writes_stay_local() {
    let mut buf = KernelBuffer::new(8).unwrap();
    assert_eq!(buf.read_byte(7), 0);
    buf.write_byte(3, 0x11);
    buf.write_byte(3, 0x22);
    assert_eq!(buf.read_byte(3), 0x22);
    assert_eq!(buf.read_byte(2), 0);
    assert_eq!(buf.read_byte(4), 0);
}

#[test]
fn kernel_buffer_too_large_is_enomem() {
    assert_eq!(KernelBuffer::new(usize::MAX).err(), Some(Error::ENOMEM));
}

#[test]
fn heap_and_context_allocations() {
    assert_eq!(*basic_heap_allocation().unwrap(), 42);
    let v = dynamic_array_example().unwrap();
    assert_eq!(v.len(), 64);
    assert_eq!(v[0], 0);
    assert_eq!(v[63], 63);
    assert_eq!(*AllocationContext::allocate_process_context().unwrap(), [0u8; 128]);
    assert_eq!(*AllocationContext::allocate_interrupt_context().unwrap(), [0u8; 64]);
}

#[test]
fn slab_cache_hands_out_objects_of_its_size() {
    let cache = SlabCache::new("objs", 48).unwrap();
    let a = cache.allocate().unwrap();
    let b = cache.allocate().unwrap();
    assert_eq!(a.len(), 48);
    assert_eq!(b.len(), 48);
    assert!(a.iter().all(|&x| x == 0));
    let huge = SlabCache::new("huge", usize::MAX).unwrap();
    assert_eq!(huge.allocate().err(), Some(Error::ENOMEM));
    assert!(VmallocBuffer::new(1 << 20).is_ok());
}
