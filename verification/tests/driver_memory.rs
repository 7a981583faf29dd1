//! Driver-level memory: pool info and untyped device allocations.

use accel::driver::memory::{AttachFlag, DeviceMemory, MemoryInfo};
use accel::driver::Driver;
use accel::{AccelError, Device, MemoryType};

const POOL: usize = 64 * 1024 * 1024;

fn setup() -> (Driver, accel::Context) {
    let mut driver = Driver::new(1, POOL);
    let device = Device::nth(&driver, 0).unwrap();
    let ctx = device.create_context_auto(&mut driver).unwrap();
    (driver, ctx)
}

#[test]
fn memory_info() -> Result<(), AccelError> {
    let mut driver = Driver::new(1, POOL);
    let device = Device::nth(&driver, 0)?;
    let ctx = device.create_context_auto(&mut driver)?;
    let mem_info = MemoryInfo::get(&mut driver, &ctx)?;
    assert!(mem_info.free > 0);
    assert!(mem_info.total > mem_info.free);
    Ok(())
}

#[test]
fn new() -> Result<(), AccelError> {
    let mut driver = Driver::new(1, POOL);
    let device = Device::nth(&driver, 0)?;
    let ctx = device.create_context_auto(&mut driver)?;
    let mem = DeviceMemory::non_managed(&mut driver, &ctx, 12)?;
    assert_eq!(mem.len(), 12);
    Ok(())
}

#[test]
fn pointer_attributes() -> Result<(), AccelError> {
    let mut driver = Driver::new(1, POOL);
    let device = Device::nth(&driver, 0)?;
    let ctx = device.create_context_auto(&mut driver)?;

    // non-managed
    let mem1 = DeviceMemory::non_managed(&mut driver, &ctx, 12)?;
    mem1.buffer_id(&mut driver)?;
    assert_eq!(mem1.memory_type(&mut driver)?, MemoryType::Device);
    assert!(!mem1.is_managed(&mut driver)?);
    assert!(mem1.is_mapped(&mut driver)?);

    // managed
    let mem2 = DeviceMemory::managed(&mut driver, &ctx, 12, AttachFlag::Global)?;
    assert_eq!(mem2.memory_type(&mut driver)?, MemoryType::Device);
    assert!(mem2.is_managed(&mut driver)?);
    assert!(mem2.is_mapped(&mut driver)?);

    // Buffer id of two different memory must be different
    assert_ne!(mem1.buffer_id(&mut driver)?, mem2.buffer_id(&mut driver)?);
    Ok(())
}

#[test]
fn zero_length_allocation_is_rejected() {
    let (mut driver, ctx) = setup();
    let before = accel::memory::free_memory(&mut driver, &ctx).unwrap();
    let r = DeviceMemory::non_managed(&mut driver, &ctx, 0);
    match r {
        Err(AccelError::CUDAError { api_name, error }) => {
            assert_eq!(api_name, "cuMemAlloc");
            assert_eq!(error, accel::error::CUDA_ERROR_INVALID_VALUE);
        }
        _ => panic!("zero-length allocation must fail with the driver's invalid-value error"),
    }
    // nothing was allocated
    assert_eq!(accel::memory::free_memory(&mut driver, &ctx).unwrap(), before);
}

#[test]
fn exhausted_pool_is_out_of_memory_and_leaks_nothing() {
    let (mut driver, ctx) = setup();
    let before = accel::memory::free_memory(&mut driver, &ctx).unwrap();
    let r = DeviceMemory::non_managed(&mut driver, &ctx, POOL);
    match r {
        Err(AccelError::CUDAError { api_name, error }) => {
            assert_eq!(api_name, "cuMemAlloc");
            assert_eq!(error, accel::error::CUDA_ERROR_OUT_OF_MEMORY);
        }
        _ => panic!("an allocation beyond the pool must fail with out-of-memory"),
    }
    assert_eq!(accel::memory::free_memory(&mut driver, &ctx).unwrap(), before);
}

#[test]
fn free_returns_bytes_to_the_pool() {
    let (mut driver, ctx) = setup();
    let before = accel::memory::free_memory(&mut driver, &ctx).unwrap();
    let mem = DeviceMemory::non_managed(&mut driver, &ctx, 4096).unwrap();
    assert_eq!(accel::memory::free_memory(&mut driver, &ctx).unwrap(), before - 4096);
    mem.free(&mut driver).unwrap();
    assert_eq!(accel::memory::free_memory(&mut driver, &ctx).unwrap(), before);
}

#[test]
fn total_memory_reports_the_pool_size() {
    let (mut driver, ctx) = setup();
    assert_eq!(accel::memory::total_memory(&mut driver, &ctx).unwrap(), POOL);
}
