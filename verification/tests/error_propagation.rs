use kernel_snippets::error::Error;
use kernel_snippets::error_propagation::{
    batch_operations, call_c_function_safely, driver_init_sequence, find_and_validate,
    get_optional_resource, initialise_device, open_device_file, ptr_to_result,
    read_device_register, safe_ffi_wrapper, to_result, DriverResources,
};

#[test]
fn test_read_device_register_ok() {
    assert!(read_device_register(true).is_ok());
    assert_eq!(read_device_register(true).unwrap(), 0xDEAD_BEEF);
}

#[test]
fn test_read_device_register_err() {
    assert!(read_device_register(false).is_err());
}

#[test]
fn test_find_and_validate_found() {
    let data = [1u32, 2, 3, 4, 5];
    assert_eq!(find_and_validate(&data, 3).unwrap(), 2);
}

#[test]
fn test_find_and_validate_not_found() {
    let data = [1u32, 2, 3];
    assert!(find_and_validate(&data, 99).is_err());
}

#[test]
fn test_ptr_to_result_null() {
    let null: usize = 0;
    assert!(ptr_to_result(null).is_err());
}

#[test]
fn test_ptr_to_result_valid() {
    let val: u32 = 42;
    let shown = format!("{:p}", &val);
    let addr = usize::from_str_radix(shown.trim_start_matches("0x"), 16).unwrap();
    assert!(ptr_to_result(addr).is_ok());
}

#[test]
fn test_to_result() {
    assert!(to_result(0).is_ok());
    assert!(to_result(-1).is_err());
    assert!(to_result(1).is_ok());
}

#[test]
fn test_batch_operations_ok() {
    let items = [1u32, 2, 3];
    let result = batch_operations(&items).unwrap();
    assert_eq!(result, vec![2, 4, 6]);
}

#[test]
fn test_batch_operations_err() {
    let items = [1u32, 0, 3];
    assert!(batch_operations(&items).is_err());
}

#[test]
fn read_device_register_error_is_eio() {
    assert_eq!(read_device_register(false), Err(Error::EIO));
}

#[test]
fn init_sequences_succeed() {
    assert_eq!(initialise_device(), Ok(()));
    assert_eq!(driver_init_sequence(), Ok(()));
    assert_eq!(call_c_function_safely(), Ok(()));
    assert!(DriverResources::init().is_ok());
    assert_eq!(get_optional_resource(), Ok(42));
}

#[test]
fn to_result_keeps_the_errno() {
    assert_eq!(to_result(-12), Err(Error::ENOMEM));
    assert_eq!(to_result(-5), Err(Error::EIO));
    assert_eq!(to_result(-22), Err(Error::EINVAL));
    assert_eq!(to_result(-100).unwrap_err().to_errno(), -100);
    assert_eq!(to_result(-4095).unwrap_err().to_errno(), -4095);
    assert_eq!(to_result(i32::MAX), Ok(()));
}

#[test]
fn to_result_out_of_range_code_is_einval() {
    assert_eq!(to_result(-4096), Err(Error::EINVAL));
    assert_eq!(to_result(i32::MIN), Err(Error::EINVAL));
}

#[test]
fn ptr_to_result_null_is_enomem() {
    assert_eq!(ptr_to_result(0), Err(Error::ENOMEM));
    assert_eq!(ptr_to_result(0x1000), Ok(0x1000));
}

#[test]
fn open_device_file_is_enodev() {
    assert_eq!(open_device_file("eth0"), Err(Error::ENODEV));
}

#[test]
fn find_and_validate_returns_first_match() {
    let data = [7u32, 3, 9, 3];
    assert_eq!(find_and_validate(&data, 3), Ok(1));
    assert_eq!(find_and_validate(&data, 7), Ok(0));
    assert_eq!(find_and_validate(&[], 7), Err(Error::ENODEV));
}

#[test]
fn safe_ffi_wrapper_checks_arguments() {
    assert_eq!(safe_ffi_wrapper(0, 16), Err(Error::EINVAL));
    assert_eq!(safe_ffi_wrapper(0x2000, 0), Err(Error::EINVAL));
    assert_eq!(safe_ffi_wrapper(0x2000, 16), Ok(16));
    assert_eq!(safe_ffi_wrapper(0x2000, 0x1_0000_0005), Ok(5));
}

#[test]
fn batch_operations_edge_cases() {
    assert_eq!(batch_operations(&[]), Ok(vec![]));
    assert_eq!(batch_operations(&[0]), Err(Error::EINVAL));
    assert_eq!(batch_operations(&[0x7fff_ffff]), Ok(vec![0xffff_fffe]));
    assert_eq!(batch_operations(&[5, 0, u32::MAX]), Err(Error::EINVAL));
}
