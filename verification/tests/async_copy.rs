//! The async copy path: stream tickets, polling, and completion.

use accel::driver::Driver;
use accel::{
    AccelError, Allocatable, Continuous, Device, DeviceMemory, Memcpy, PageLockedMemory,
};

const POOL: usize = 64 * 1024 * 1024;

fn setup() -> (Driver, accel::Context) {
    let mut driver = Driver::new(1, POOL);
    let device = Device::nth(&driver, 0).unwrap();
    let ctx = device.create_context_auto(&mut driver).unwrap();
    (driver, ctx)
}

/// Scenario: issue an async copy; the destination has moved into the future,
/// so the host cannot touch it until the future is waited on — the undefined
/// access is unwritable, not merely discouraged. The source stays readable
/// throughout.
#[test]
fn async_copy_completes_with_source_contents() {
    let (mut driver, ctx) = setup();
    let mut src = PageLockedMemory::<i32>::zeros(&mut driver, &ctx, 12).unwrap();
    for i in 0..12 {
        src.write_at(i, i as i32 + 100);
    }
    let dest = DeviceMemory::<i32>::zeros(&mut driver, &ctx, 12).unwrap();

    let future = dest.copy_from_async(&mut driver, &src);
    // source is still freely readable while the copy is in flight
    assert_eq!(src.as_slice()[0], 100);
    // a non-blocking poll before completion is not a failure, just not ready
    match future.poll(&driver) {
        Err(AccelError::AsyncOperationNotReady) => {}
        _ => panic!("polling before completion must report the operation as not ready"),
    }

    let (dest, outcome) = future.wait(&mut driver);
    outcome.unwrap();
    for i in 0..12 {
        assert_eq!(dest.as_slice()[i], i as i32 + 100);
    }
}

#[test]
fn poll_is_ready_once_the_stream_synchronizes() {
    let (mut driver, ctx) = setup();
    let src = PageLockedMemory::<i32>::from_elem(&mut driver, &ctx, 4, 8).unwrap();
    let dest = DeviceMemory::<i32>::zeros(&mut driver, &ctx, 4).unwrap();
    let future = dest.copy_from_async(&mut driver, &src);
    assert!(future.poll(&driver).is_err());
    driver.stream_synchronize();
    future.poll(&driver).unwrap();
    let (dest, outcome) = future.wait(&mut driver);
    outcome.unwrap();
    assert_eq!(dest.as_slice(), &[8i32; 4]);
}

#[test]
fn async_copy_checks_surface_at_wait() {
    let (mut driver, ctx) = setup();
    let src = PageLockedMemory::<i32>::from_elem(&mut driver, &ctx, 12, 1).unwrap();
    let dest = DeviceMemory::<i32>::from_elem(&mut driver, &ctx, 24, 2).unwrap();
    let issued_before = driver.stream_issued;
    let future = dest.copy_from_async(&mut driver, &src);
    // the failed issue reached no stream operation
    assert_eq!(driver.stream_issued, issued_before);
    let (dest, outcome) = future.wait(&mut driver);
    match outcome {
        Err(AccelError::SizeMismatch { dest: d, source: s }) => {
            assert_eq!(d, 24);
            assert_eq!(s, 12);
        }
        _ => panic!("the issue-time size check must surface when the future is waited on"),
    }
    assert_eq!(dest.as_slice(), &[2i32; 24]);
}
