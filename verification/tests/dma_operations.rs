use kernel_snippets::dma_operations::{
    CoherentDmaBuffer, DmaDescriptor, DmaDirection, MmioBlock, StreamingDmaMapping,
};
use kernel_snippets::error::Error;

#[test]
fn test_dma_direction_constants() {
    assert_eq!(DmaDirection::Bidirectional.to_kernel_constant(), 0);
    assert_eq!(DmaDirection::ToDevice.to_kernel_constant(), 1);
    assert_eq!(DmaDirection::FromDevice.to_kernel_constant(), 2);
}

#[test]
fn test_descriptor_size() {
    assert_eq!(core::mem::size_of::<DmaDescriptor>(), 16);
}

#[test]
fn test_coherent_alloc_and_drop() {
    let buf = CoherentDmaBuffer::allocate(256);
    assert!(buf.is_ok());
}

#[test]
fn coherent_buffer_starts_zeroed_and_keeps_writes() {
    let mut buf = CoherentDmaBuffer::allocate(16).unwrap();
    assert_eq!(buf.as_slice(), &[0u8; 16][..]);
    let addr = buf.dma_addr();
    assert_ne!(addr, 0);
    {
        let s = buf.as_mut_slice();
        s[3] = 0x5A;
    }
    assert_eq!(buf.as_slice()[3], 0x5A);
    assert_eq!(buf.as_slice().len(), 16);
    assert_eq!(buf.dma_addr(), addr);
}

#[test]
fn coherent_buffer_too_large_is_enomem() {
    assert_eq!(CoherentDmaBuffer::allocate(usize::MAX).err(), Some(Error::ENOMEM));
}

#[test]
fn descriptor_takes_buffer_address() {
    let buf = CoherentDmaBuffer::allocate(64).unwrap();
    let d = DmaDescriptor::new(&buf, 64, 0x3);
    assert_eq!(d.addr, buf.dma_addr());
    assert_eq!(d.len, 64);
    assert_eq!(d.flags, 0x3);
}

#[test]
fn streaming_mapping_ownership_round_trip() {
    let mut m = StreamingDmaMapping::<1>::map(0x1000, 512).unwrap();
    assert_eq!(m.dma_addr(), 0x1000);
    assert!(!m.is_device_owned());
    m.sync_for_device();
    assert!(m.is_device_owned());
    m.sync_for_cpu();
    assert!(!m.is_device_owned());
    assert_eq!(m.dma_addr(), 0x1000);
}

#[test]
fn mmio_null_address_is_einval() {
    assert_eq!(MmioBlock::new(0, 0x100).err(), Some(Error::EINVAL));
}

#[test]
fn mmio_register_address_is_base_plus_offset() {
    let block = MmioBlock::new(0xFE00_0000, 0x100).unwrap();
    assert_eq!(block.register_address(0), Some(0xFE00_0000));
    assert_eq!(block.register_address(0xFC), Some(0xFE00_00FC));
    assert_eq!(block.register_address(0x100), None);
    assert_eq!(block.register_address(0x2), None);
    assert_eq!(block.register_address(usize::MAX - 3), None);
    let top = MmioBlock::new(usize::MAX - 3, 0x100).unwrap();
    assert_eq!(top.register_address(0), Some(usize::MAX - 3));
    assert_eq!(top.register_address(8), None);
}
