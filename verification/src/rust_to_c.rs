use vstd::prelude::*;
use crate::error::Error;

verus! {

/// Device description handed to C code that configures the device.
pub struct DeviceInfo {
    pub vendor_id: u16,
    pub device_id: u16,
    pub irq: u32,
}

/// Convert the status returned by the C device-configuration routine: zero is
/// success, anything else is `Error::EINVAL`.
pub fn device_setup_result(status: i32) -> (r: Result<(), Error>)
    ensures
        status == 0 ==> r == Ok::<(), Error>(()),
        status != 0 ==> r == Err::<(), Error>(Error::EINVAL),
{
    if status == 0 {
        Ok(())
    } else {
        Err(Error::EINVAL)
    }
}

} // verus!
