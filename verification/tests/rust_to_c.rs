use core::mem::size_of;
use kernel_snippets::error::Error;
use kernel_snippets::rust_to_c::{device_setup_result, DeviceInfo};

#[test]
fn test_device_info_layout() {
    assert!(size_of::<DeviceInfo>() >= 8);
}

#[test]
fn device_setup_status_conversion() {
    assert_eq!(device_setup_result(0), Ok(()));
    assert_eq!(device_setup_result(-19), Err(Error::EINVAL));
    assert_eq!(device_setup_result(1), Err(Error::EINVAL));
}
