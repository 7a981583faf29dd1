//! The error taxonomy: status-code interpretation, enumeration failures, and
//! the context-currency discipline.

use accel::driver::Driver;
use accel::error::{
    check, CUDA_ERROR_ASSERT, CUDA_ERROR_INVALID_CONTEXT, CUDA_ERROR_NOT_READY, CUDA_SUCCESS,
};
use accel::{AccelError, Allocatable, Device, DeviceMemory, Memory, PageLockedMemory};

const POOL: usize = 64 * 1024 * 1024;

#[test]
fn check_interprets_every_status_code() {
    assert!(check(CUDA_SUCCESS, "cuCtxCreate").is_ok());
    match check(CUDA_ERROR_ASSERT, "cuLaunchKernel") {
        Err(AccelError::DeviceAssertionFailed) => {}
        _ => panic!("an assert trap must map to the device-assertion error"),
    }
    match check(CUDA_ERROR_NOT_READY, "cuStreamQuery") {
        Err(AccelError::AsyncOperationNotReady) => {}
        _ => panic!("a not-ready status must map to the recoverable not-ready error"),
    }
    match check(CUDA_ERROR_INVALID_CONTEXT, "cuCtxSetCurrent") {
        Err(AccelError::CUDAError { api_name, error }) => {
            assert_eq!(api_name, "cuCtxSetCurrent");
            assert_eq!(error, CUDA_ERROR_INVALID_CONTEXT);
        }
        _ => panic!("any other status carries the entry point's name and raw code"),
    }
}

#[test]
fn error_descriptions_are_distinct() {
    let not_ready = AccelError::AsyncOperationNotReady.describe();
    let aliased = AccelError::AliasedCopy.describe();
    assert_ne!(not_ready, aliased);
    assert!(!AccelError::ContextError.describe().is_empty());
}

#[test]
fn out_of_range_device_enumeration() {
    let driver = Driver::new(2, POOL);
    assert!(Device::nth(&driver, 0).is_ok());
    assert!(Device::nth(&driver, 1).is_ok());
    match Device::nth(&driver, 2) {
        Err(AccelError::DeviceNotFound { id, count }) => {
            assert_eq!(id, 2);
            assert_eq!(count, 2);
        }
        _ => panic!("enumeration past the device count must fail with device-not-found"),
    }
}

#[test]
fn operations_on_a_destroyed_context_fail() {
    let mut driver = Driver::new(1, POOL);
    let device = Device::nth(&driver, 0).unwrap();
    let ctx = device.create_context_auto(&mut driver).unwrap();
    let mut dev = DeviceMemory::<i32>::zeros(&mut driver, &ctx, 4).unwrap();
    ctx.destroy(&mut driver).unwrap();
    match dev.set(&mut driver, 1) {
        Err(AccelError::ContextError) => {}
        _ => panic!("a device-side store needs a live context"),
    }
    match DeviceMemory::<i32>::zeros(&mut driver, &ctx, 4) {
        Err(AccelError::ContextError) => {}
        _ => panic!("allocation needs a live context"),
    }
    match ctx.destroy(&mut driver) {
        Err(AccelError::ContextError) => {}
        _ => panic!("a context is destroyed at most once"),
    }
}

#[test]
fn guard_restores_the_previous_current_context() {
    let mut driver = Driver::new(2, POOL);
    let d0 = Device::nth(&driver, 0).unwrap();
    let d1 = Device::nth(&driver, 1).unwrap();
    let ctx0 = d0.create_context_auto(&mut driver).unwrap();
    let ctx1 = d1.create_context_auto(&mut driver).unwrap();
    assert!(ctx1.is_current(&driver));

    // an operation on a handle of the other context binds and restores it
    let mut mem = PageLockedMemory::<i32>::zeros(&mut driver, &ctx0, 4).unwrap();
    let mut dev = DeviceMemory::<i32>::zeros(&mut driver, &ctx0, 4).unwrap();
    dev.set(&mut driver, 3).unwrap();
    mem.set(&mut driver, 3).unwrap();
    assert!(ctx1.is_current(&driver));
    assert!(!ctx0.is_current(&driver));
    assert_eq!(mem.num_elem(), 4);
}

#[test]
fn host_side_stores_survive_a_dead_context() {
    let mut driver = Driver::new(1, POOL);
    let device = Device::nth(&driver, 0).unwrap();
    let ctx = device.create_context_auto(&mut driver).unwrap();
    let mut pl = PageLockedMemory::<i32>::zeros(&mut driver, &ctx, 4).unwrap();
    ctx.destroy(&mut driver).unwrap();
    // a host-side kind stores without touching device state
    pl.set(&mut driver, 5).unwrap();
}
