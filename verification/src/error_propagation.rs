use vstd::prelude::*;
use crate::error::{errno_of, error_wf, Error};

verus! {

// ---------------------------------------------------------------------------
// 1. Basic Result usage with kernel errno values
// ---------------------------------------------------------------------------

/// The value a valid device register reads.
pub open spec fn register_value() -> u32 {
    0xDEAD_BEEF
}

/// Read a device register: its value when the device is valid, `Error::EIO`
/// otherwise.
pub fn read_device_register(valid: bool) -> (r: Result<u32, Error>)
    ensures
        valid ==> r == Ok::<u32, Error>(register_value()),
        !valid ==> r == Err::<u32, Error>(Error::EIO),
{
    if valid {
        Ok(0xDEAD_BEEF)
    } else {
        Err(Error::EIO)
    }
}

// ---------------------------------------------------------------------------
// 2. Propagation with `?`
// ---------------------------------------------------------------------------

/// Read the device's registers in turn, stopping at the first failure.
pub fn initialise_device() -> (r: Result<(), Error>)
    ensures
        r == Ok::<(), Error>(()),
{
    let _reg0 = read_device_register(true)?;
    let _reg1 = read_device_register(true)?;
    Ok(())
}

/// The identifier the simulated hardware reports.
pub open spec fn device_id_value() -> u32 {
    0x1234_5678
}

fn read_device_id() -> (r: Result<u32, Error>)
    ensures
        r == Ok::<u32, Error>(device_id_value()),
{
    Ok(0x1234_5678)
}

fn allocate_driver_state() -> (r: Result<Box<[u8; 64]>, Error>)
    ensures
        r matches Ok(b) && b@ == Seq::new(64, |i: int| 0u8),
{
    let state = Box::new([0u8; 64]);
    assert(state@ =~= Seq::new(64, |i: int| 0u8));
    Ok(state)
}

fn configure_hardware() -> (r: Result<(), Error>)
    ensures
        r == Ok::<(), Error>(()),
{
    Ok(())
}

fn register_with_subsystem() -> (r: Result<(), Error>)
    ensures
        r == Ok::<(), Error>(()),
{
    Ok(())
}

/// A driver init sequence: probe the hardware, allocate state, configure the
/// hardware and register with the subsystem, stopping at the first failure.
pub fn driver_init_sequence() -> (r: Result<(), Error>)
    ensures
        r == Ok::<(), Error>(()),
{
    let _id = read_device_id()?;
    let _state = allocate_driver_state()?;
    configure_hardware()?;
    register_with_subsystem()?;
    Ok(())
}

// ---------------------------------------------------------------------------
// 3. Converting C integer return codes
// ---------------------------------------------------------------------------

/// Convert a C-style return code: zero and positive values are success, a
/// negative value is the error with that errno (as the kernel's
/// `Error::from_errno`, a value below `-MAX_ERRNO` is no error code and gives
/// `Error::EINVAL`).
pub fn to_result(ret: i32) -> (r: Result<(), Error>)
    ensures
        ret >= 0 ==> r == Ok::<(), Error>(()),
        -4095 <= ret < 0 ==> (r matches Err(e) && errno_of(e) == -ret && error_wf(e)),
        ret < -4095 ==> r == Err::<(), Error>(Error::EINVAL),
{
    if ret >= 0 {
        Ok(())
    } else {
        Err(Error::from_errno(ret))
    }
}

/// Call a C function that returns 0 on success and a negative errno on error,
/// and convert its return code. The simulated function succeeds.
pub fn call_c_function_safely() -> (r: Result<(), Error>)
    ensures
        r == Ok::<(), Error>(()),
{
    let ret: i32 = 0;
    if ret == 0 {
        Ok(())
    } else {
        Err(Error::EINVAL)
    }
}

/// Convert the address a C allocator returned: the null address is `Error::ENOMEM`,
/// any other address is handed back as a non-null pointer value.
pub fn ptr_to_result(addr: usize) -> (r: Result<usize, Error>)
    ensures
        addr == 0 ==> r == Err::<usize, Error>(Error::ENOMEM),
        addr != 0 ==> r == Ok::<usize, Error>(addr),
{
    if addr == 0 {
        Err(Error::ENOMEM)
    } else {
        Ok(addr)
    }
}

// ---------------------------------------------------------------------------
// 4. Replacing an error with a more fitting one
// ---------------------------------------------------------------------------

fn find_device(_name: &str) -> (r: Result<u32, Error>)
    ensures
        r == Err::<u32, Error>(Error::ENODEV),
{
    Err(Error::ENODEV)
}

/// Open a device by name; whatever the lookup fails with is reported as
/// `Error::ENODEV`. No device can be found in this setting.
pub fn open_device_file(name: &str) -> (r: Result<u32, Error>)
    ensures
        r == Err::<u32, Error>(Error::ENODEV),
{
    match find_device(name) {
        Ok(id) => Ok(id),
        Err(_) => Err(Error::ENODEV),
    }
}

// ---------------------------------------------------------------------------
// 5. Option and Result
// ---------------------------------------------------------------------------

/// Whether `needle` occurs in `s`.
pub open spec fn occurs(s: Seq<u32>, needle: u32) -> bool {
    exists|i: int| 0 <= i < s.len() && s[i] == needle
}

/// Find the first position of `needle` in `haystack`, or `Error::ENODEV` when it
/// does not occur.
pub fn find_and_validate(haystack: &[u32], needle: u32) -> (r: Result<usize, Error>)
    ensures
        r is Ok <==> occurs(haystack@, needle),
        r matches Ok(i) ==> i < haystack@.len() && haystack@[i as int] == needle
            && forall|j: int| 0 <= j < i ==> haystack@[j] != needle,
        r matches Err(e) ==> e == Error::ENODEV,
{
    let mut i: usize = 0;
    while i < haystack.len()
        invariant
            i <= haystack@.len(),
            forall|j: int| 0 <= j < i ==> haystack@[j] != needle,
        decreases haystack@.len() - i,
    {
        if haystack[i] == needle {
            return Ok(i);
        }
        i = i + 1;
    }
    Err(Error::ENODEV)
}

/// Convert an optional resource into a result; the resource is present.
pub fn get_optional_resource() -> (r: Result<u32, Error>)
    ensures
        r == Ok::<u32, Error>(42),
{
    let maybe_resource: Option<u32> = Some(42);
    match maybe_resource {
        Some(v) => Ok(v),
        None => Err(Error::ENODEV),
    }
}

// ---------------------------------------------------------------------------
// 6. Resources acquired in order, released on failure
// ---------------------------------------------------------------------------

/// Resources a driver holds once initialised.
pub struct DriverResources {
    buffer: Box<[u8; 128]>,
    device_id: u32,
}

impl DriverResources {
    /// The driver's buffer contents.
    pub closed spec fn buffer_contents(&self) -> Seq<u8> {
        self.buffer@
    }

    /// The probed device identifier.
    pub closed spec fn probed_id(&self) -> u32 {
        self.device_id
    }

    /// Allocate the buffer, probe the device and configure the hardware; on a
    /// failure, what was already acquired is released.
    pub fn init() -> (r: Result<Self, Error>)
        ensures
            r is Ok,
            r matches Ok(d) && d.buffer_contents() == Seq::new(128, |i: int| 0u8)
                && d.probed_id() == device_id_value(),
    {
        let buffer = Box::new([0u8; 128]);
        assert(buffer@ =~= Seq::new(128, |i: int| 0u8));
        let device_id = read_device_id()?;
        configure_hardware()?;
        Ok(DriverResources { buffer, device_id })
    }
}

// ---------------------------------------------------------------------------
// 7. Error handling at FFI boundaries
// ---------------------------------------------------------------------------

/// Hand a buffer at address `data_addr` of `len` bytes to a C function and
/// convert its result; the null address and an empty buffer are `Error::EINVAL`.
/// The simulated C function succeeds, and the result is the length as a
/// 32-bit value.
pub fn safe_ffi_wrapper(data_addr: usize, len: usize) -> (r: Result<u32, Error>)
    ensures
        data_addr == 0 || len == 0 ==> r == Err::<u32, Error>(Error::EINVAL),
        data_addr != 0 && len != 0 ==> r == Ok::<u32, Error>(len as u32),
{
    if data_addr == 0 || len == 0 {
        return Err(Error::EINVAL);
    }
    let ret: i32 = 0;
    to_result(ret)?;
    Ok(len as u32)
}

// ---------------------------------------------------------------------------
// 8. Collecting results, stopping at the first failure
// ---------------------------------------------------------------------------

/// Whether `items` holds a zero.
pub open spec fn has_zero(items: Seq<u32>) -> bool {
    exists|i: int| 0 <= i < items.len() && items[i] == 0
}

/// Each item doubled.
pub open spec fn doubled(items: Seq<u32>) -> Seq<u32> {
    Seq::new(items.len(), |i: int| (2 * items[i]) as u32)
}

/// Every item that is processed, that is every item up to the first zero, can
/// be doubled without overflow.
pub open spec fn processed_items_fit(items: Seq<u32>) -> bool {
    forall|i: int|
        0 <= i < items.len() && (forall|j: int| 0 <= j <= i ==> items[j] != 0)
            ==> #[trigger] items[i] <= 0x7fff_ffff
}

/// Every item of a batch that fits is doubled in place, and the batch keeps
/// its length.
pub proof fn lemma_doubled_items(items: Seq<u32>, i: int)
    requires
        0 <= i < items.len(),
        items[i] <= 0x7fff_ffff,
    ensures
        doubled(items).len() == items.len(),
        doubled(items)[i] == 2 * items[i],
{
}

fn process_item(item: u32) -> (r: Result<u32, Error>)
    requires
        item <= 0x7fff_ffff,
    ensures
        item == 0 ==> r == Err::<u32, Error>(Error::EINVAL),
        item != 0 ==> r == Ok::<u32, Error>((2 * item) as u32),
{
    if item == 0 {
        Err(Error::EINVAL)
    } else {
        Ok(item * 2)
    }
}

/// Process every item, doubling it; a zero item is `Error::EINVAL` and stops the
/// batch.
pub fn batch_operations(items: &[u32]) -> (r: Result<Vec<u32>, Error>)
    requires
        processed_items_fit(items@),
    ensures
        r is Ok <==> !has_zero(items@),
        r matches Ok(v) ==> v@ == doubled(items@),
        r matches Err(e) ==> e == Error::EINVAL,
{
    let mut out: Vec<u32> = Vec::new();
    let mut i: usize = 0;
    while i < items.len()
        invariant
            i <= items@.len(),
            processed_items_fit(items@),
            forall|j: int| 0 <= j < i ==> items@[j] != 0,
            out@ == doubled(items@.take(i as int)),
        decreases items@.len() - i,
    {
        let item = items[i];
        if item == 0 {
            return Err(Error::EINVAL);
        }
        assert(items@[i as int] <= 0x7fff_ffff);
        let doubled_item = process_item(item)?;
        out.push(doubled_item);
        assert(out@ =~= doubled(items@.take(i + 1)));
        i = i + 1;
    }
    assert(items@.take(i as int) =~= items@);
    Ok(out)
}

} // verus!
