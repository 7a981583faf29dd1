//! Unified addressing: head addresses are distinct per allocation and stable
//! for a handle's lifetime; scalars marshal to their 64-bit image.

use accel::driver::Driver;
use accel::execution::{mut_arg, DevicePtrMut, KernelParam};
use accel::{
    Allocatable, Block, Device, DeviceMemory, Grid, KernelFn1, Launchable1, Memcpy, Memory,
    PageLockedMemory,
};

const POOL: usize = 64 * 1024 * 1024;

fn setup() -> (Driver, accel::Context) {
    let mut driver = Driver::new(1, POOL);
    let device = Device::nth(&driver, 0).unwrap();
    let ctx = device.create_context(&mut driver);
    (driver, ctx)
}

#[test]
fn head_addresses_are_distinct_and_stable() {
    let (mut driver, ctx) = setup();
    let mut a = DeviceMemory::<i32>::zeros(&mut driver, &ctx, 8).unwrap();
    let b = PageLockedMemory::<i32>::from_elem(&mut driver, &ctx, 8, 3).unwrap();
    assert_ne!(a.head_addr(), b.head_addr());
    assert_ne!(a.head_addr(), 0);

    let before = a.head_addr();
    a.set(&mut driver, 11).unwrap();
    assert_eq!(a.head_addr(), before);
    a.copy_from(&mut driver, &b).unwrap();
    assert_eq!(a.head_addr(), before);
    assert_eq!(a.head_addr_mut(), before);
}

#[test]
fn scalar_arguments_extend_to_their_64_bit_image() {
    let (mut driver, ctx) = setup();
    let mut out = DeviceMemory::<i32>::zeros(&mut driver, &ctx, 1).unwrap();
    let kernel: KernelFn1<i32> = KernelFn1::new(&ctx, vec![2u8; 4], "store".to_owned());
    kernel
        .launch(&mut driver, Grid::from(1u32), Block::from(1u32), (-1i32,))
        .unwrap();
    let rec = driver.launches.last().unwrap();
    assert_eq!(rec.params[0], KernelParam::Value { bits: u64::MAX, bytes: 4 });

    // a writable slot records the destination's address with its mutability
    let out_addr = out.head_addr();
    let kernel2: KernelFn1<DevicePtrMut<i32>> =
        KernelFn1::new(&ctx, vec![2u8; 4], "store_ptr".to_owned());
    kernel2
        .launch(&mut driver, Grid::from(1u32), Block::from(1u32), (mut_arg(&mut out),))
        .unwrap();
    let rec2 = driver.launches.last().unwrap();
    assert_eq!(rec2.params[0], KernelParam::Ptr { addr: out_addr, mutable: true });
}

#[test]
fn launches_preserve_program_order() {
    let (mut driver, ctx) = setup();
    let k = accel::KernelFn0::new(&ctx, vec![], "first".to_owned());
    let l = accel::KernelFn0::new(&ctx, vec![], "second".to_owned());
    accel::Launchable0::launch(&k, &mut driver, Grid::from(1u32), Block::from(1u32)).unwrap();
    accel::Launchable0::launch(&l, &mut driver, Grid::from(2u32), Block::from(1u32)).unwrap();
    assert_eq!(driver.launches.len(), 2);
    assert_eq!(driver.launches[0].grid, Grid { x: 1, y: 1, z: 1 });
    assert_eq!(driver.launches[1].grid, Grid { x: 2, y: 1, z: 1 });
    assert_ne!(driver.launches[0].func, driver.launches[1].func);
}
