//! Kernel launches: geometry, argument marshaling, the module cache, and the
//! launch's effect on the rest of the state.

use accel::driver::Driver;
use accel::execution::{mut_arg, DevicePtr, DevicePtrMut, KernelParam};
use accel::{
    load_kernel, AccelError, Allocatable, Block, Continuous, Device, DeviceMemory, Grid,
    KernelFn0, KernelFn4, Launchable0, Launchable4, Memory, PageLockedMemory,
};

const POOL: usize = 64 * 1024 * 1024;

fn setup() -> (Driver, accel::Context) {
    let mut driver = Driver::new(1, POOL);
    let device = Device::nth(&driver, 0).unwrap();
    let ctx = device.create_context_auto(&mut driver).unwrap();
    (driver, ctx)
}

/// Scenario: launch a 0-argument kernel with grid 1 and block 4 against a
/// compiled no-op artifact; the launch succeeds and no device memory changes.
#[test]
fn launch_noop_kernel() {
    let (mut driver, ctx) = setup();
    let dev = DeviceMemory::<i32>::from_elem(&mut driver, &ctx, 12, 42).unwrap();
    let free_before = accel::memory::free_memory(&mut driver, &ctx).unwrap();

    let kernel = KernelFn0::new(&ctx, vec![0u8; 16], "noop".to_owned());
    kernel
        .launch(&mut driver, Grid::from(1u32), Block::from(4u32))
        .unwrap();

    // no device-memory change
    assert_eq!(dev.as_slice(), &[42i32; 12]);
    assert_eq!(accel::memory::free_memory(&mut driver, &ctx).unwrap(), free_before);
    // exactly one call was dispatched, with the given geometry
    assert_eq!(driver.launches.len(), 1);
    assert_eq!(driver.launches[0].grid, Grid { x: 1, y: 1, z: 1 });
    assert_eq!(driver.launches[0].block, Block { x: 4, y: 1, z: 1 });
    assert_eq!(driver.launches[0].shared_bytes, 0);
    assert!(driver.launches[0].params.is_empty());
}

#[test]
fn launch_marshals_arguments_in_order() {
    let (mut driver, ctx) = setup();
    let a = DeviceMemory::<i32>::from_elem(&mut driver, &ctx, 12, 1).unwrap();
    let b = DeviceMemory::<i32>::from_elem(&mut driver, &ctx, 12, 2).unwrap();
    let mut c = DeviceMemory::<i32>::zeros(&mut driver, &ctx, 12).unwrap();
    let a_addr = a.head_addr();
    let b_addr = b.head_addr();
    let c_addr = c.head_addr();

    let kernel: KernelFn4<DevicePtr<i32>, DevicePtr<i32>, DevicePtrMut<i32>, usize> =
        KernelFn4::new(&ctx, vec![1u8; 8], "add".to_owned());
    kernel
        .launch(
            &mut driver,
            Grid::from(1u32),
            Block::from(12u32),
            (&a, &b, mut_arg(&mut c), 12usize),
        )
        .unwrap();

    let rec = driver.launches.last().unwrap();
    assert_eq!(rec.params.len(), 4);
    assert_eq!(rec.params[0], KernelParam::Ptr { addr: a_addr, mutable: false });
    assert_eq!(rec.params[1], KernelParam::Ptr { addr: b_addr, mutable: false });
    assert_eq!(rec.params[2], KernelParam::Ptr { addr: c_addr, mutable: true });
    assert_eq!(
        rec.params[3],
        KernelParam::Value { bits: 12, bytes: std::mem::size_of::<usize>() }
    );
}

#[test]
fn zero_geometry_axis_is_rejected_by_the_driver() {
    let (mut driver, ctx) = setup();
    let kernel = KernelFn0::new(&ctx, vec![], "noop".to_owned());
    match kernel.launch(&mut driver, Grid::new(1, 0, 1), Block::from(4u32)) {
        Err(AccelError::CUDAError { api_name, error }) => {
            assert_eq!(api_name, "cuLaunchKernel");
            assert_eq!(error, accel::error::CUDA_ERROR_INVALID_VALUE);
        }
        _ => panic!("a zero geometry axis must surface as the driver's invalid-value error"),
    }
    assert!(driver.launches.is_empty());
}

#[test]
fn modules_are_cached_by_name() {
    let (mut driver, ctx) = setup();
    let k1 = load_kernel(&mut driver, &ctx, &[1, 2, 3], &"vecadd".to_owned()).unwrap();
    let k2 = load_kernel(&mut driver, &ctx, &[1, 2, 3], &"vecadd".to_owned()).unwrap();
    let k3 = load_kernel(&mut driver, &ctx, &[1, 2, 3], &"scale".to_owned()).unwrap();
    assert_eq!(k1.func_handle(), k2.func_handle());
    assert_ne!(k1.func_handle(), k3.func_handle());
    assert_eq!(driver.modules.len(), 2);
}

#[test]
fn grid_and_block_shorthand_conversions() {
    assert_eq!(Grid::from(7u32), Grid { x: 7, y: 1, z: 1 });
    assert_eq!(Grid::from((2u32, 3u32)), Grid { x: 2, y: 3, z: 1 });
    assert_eq!(Grid::from((2u32, 3u32, 4u32)), Grid { x: 2, y: 3, z: 4 });
    assert_eq!(Block::from(5u32), Block { x: 5, y: 1, z: 1 });
    assert_eq!(Block::from((5u32, 6u32)), Block { x: 5, y: 6, z: 1 });
    assert_eq!(Block::from((5u32, 6u32, 7u32)), Block { x: 5, y: 6, z: 7 });
    assert_eq!(Grid::new(1, 2, 3), Grid { x: 1, y: 2, z: 3 });
    assert_eq!(Block::new(1, 2, 3), Block { x: 1, y: 2, z: 3 });
}

#[test]
fn launch_on_destroyed_context_fails_before_dispatch() {
    let (mut driver, ctx) = setup();
    let kernel = KernelFn0::new(&ctx, vec![], "noop".to_owned());
    ctx.destroy(&mut driver).unwrap();
    match kernel.launch(&mut driver, Grid::from(1u32), Block::from(1u32)) {
        Err(AccelError::ContextError) => {}
        _ => panic!("a launch against a dead context must fail with a context error"),
    }
    assert!(driver.launches.is_empty());
}

#[test]
fn host_memory_stays_valid_while_kernel_argument_lists_are_built() {
    let (mut driver, ctx) = setup();
    let mut pl = PageLockedMemory::<i32>::from_elem(&mut driver, &ctx, 4, 9).unwrap();
    {
        let arg = mut_arg(&mut pl);
        // the marshaled form carries the handle's address and mutability
        let p = accel::execution::DeviceSend::as_kernel_parameter(&arg);
        match p {
            KernelParam::Ptr { mutable, .. } => assert!(mutable),
            _ => panic!("a mutably borrowed handle marshals to a writable pointer"),
        }
    }
    // the borrow has ended; the handle is observable again
    assert_eq!(pl.as_slice(), &[9i32; 4]);
}
