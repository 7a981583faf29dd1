//! Typed memory handles: allocation, byte sizes, fills and checked copies.

use accel::driver::Driver;
use accel::memory::array::{Array, Extent3};
use accel::{
    AccelError, Allocatable, Continuous, Device, DeviceMemory, Memcpy, Memory, MemoryType,
    PageLockedMemory, RegisteredMemory,
};

const POOL: usize = 64 * 1024 * 1024;

fn setup() -> (Driver, accel::Context) {
    let mut driver = Driver::new(1, POOL);
    let device = Device::nth(&driver, 0).unwrap();
    let ctx = device.create_context_auto(&mut driver).unwrap();
    (driver, ctx)
}

#[test]
fn device() -> Result<(), AccelError> {
    let mut driver = Driver::new(1, POOL);
    let device = Device::nth(&driver, 0)?;
    let ctx = device.create_context_auto(&mut driver)?;
    let mut mem = DeviceMemory::<i32>::new(&mut driver, &ctx, 12)?;
    assert_eq!(mem.num_elem(), 12);
    assert_eq!(mem.byte_size(), 12 * 4 /* size of i32 */);
    mem.write_at(0, 3);
    assert_eq!(mem.as_slice()[0], 3);
    Ok(())
}

#[test]
fn byte_size_is_count_times_element_size() {
    let (mut driver, ctx) = setup();
    let dev = DeviceMemory::<i64>::zeros(&mut driver, &ctx, 7).unwrap();
    assert_eq!(dev.byte_size(), 7 * 8);
    assert_eq!(dev.byte_size(), dev.num_elem() * std::mem::size_of::<i64>());

    let pl = PageLockedMemory::<u16>::zeros(&mut driver, &ctx, 5).unwrap();
    assert_eq!(pl.byte_size(), 5 * 2);
    assert_eq!(pl.byte_size(), pl.num_elem() * std::mem::size_of::<u16>());

    let reg = RegisteredMemory::new(&mut driver, &ctx, vec![0u8; 9]).unwrap();
    assert_eq!(reg.byte_size(), 9);
    assert_eq!(reg.byte_size(), reg.num_elem() * std::mem::size_of::<u8>());

    let arr = Array::<u32>::zeros(&mut driver, &ctx, Extent3 { x: 2, y: 3, z: 2 }).unwrap();
    assert_eq!(arr.num_elem(), 12);
    assert_eq!(arr.byte_size(), 12 * 4);
    assert_eq!(arr.byte_size(), arr.num_elem() * std::mem::size_of::<u32>());
}

#[test]
fn memory_kinds() {
    let (mut driver, ctx) = setup();
    let dev = DeviceMemory::<i32>::zeros(&mut driver, &ctx, 4).unwrap();
    let pl = PageLockedMemory::<i32>::zeros(&mut driver, &ctx, 4).unwrap();
    let reg = RegisteredMemory::new(&mut driver, &ctx, vec![0i32; 4]).unwrap();
    let arr = Array::<i32>::zeros(&mut driver, &ctx, Extent3 { x: 4, y: 1, z: 1 }).unwrap();
    assert_eq!(dev.memory_type(), MemoryType::Device);
    assert_eq!(pl.memory_type(), MemoryType::PageLocked);
    assert_eq!(reg.memory_type(), MemoryType::Host);
    assert_eq!(arr.memory_type(), MemoryType::Array);
}

#[test]
fn set_fills_every_element() {
    let (mut driver, ctx) = setup();
    let mut dev = DeviceMemory::<i32>::zeros(&mut driver, &ctx, 12).unwrap();
    dev.set(&mut driver, 1234).unwrap();
    for &v in dev.as_slice() {
        assert_eq!(v, 1234);
    }
    let mut pl = PageLockedMemory::<i32>::zeros(&mut driver, &ctx, 12).unwrap();
    pl.set(&mut driver, -7).unwrap();
    for &v in pl.as_slice() {
        assert_eq!(v, -7);
    }
}

#[test]
fn from_elem_initializes_uniformly() {
    let (mut driver, ctx) = setup();
    let dev = DeviceMemory::<u64>::from_elem(&mut driver, &ctx, 6, 99).unwrap();
    assert_eq!(dev.as_slice(), &[99u64; 6]);
}

/// Scenario: allocate device memory for 12 `int32` elements, zero it, read it
/// back through a synchronous copy into page-locked host memory of the same
/// count.
#[test]
fn read_back_zeroed_device_memory() {
    let (mut driver, ctx) = setup();
    let mut dev = DeviceMemory::<i32>::from_elem(&mut driver, &ctx, 12, 5).unwrap();
    dev.set_zero_u8(&mut driver).unwrap();
    let mut host = PageLockedMemory::<i32>::from_elem(&mut driver, &ctx, 12, 1).unwrap();
    host.copy_from(&mut driver, &dev).unwrap();
    for i in 0..12 {
        assert_eq!(host.as_slice()[i], 0);
    }
}

/// Scenario: allocate device memory for 4 `int32`, fill with 1234, copy to
/// host memory.
#[test]
fn read_back_filled_device_memory() {
    let (mut driver, ctx) = setup();
    let mut dev = DeviceMemory::<i32>::zeros(&mut driver, &ctx, 4).unwrap();
    dev.set(&mut driver, 1234).unwrap();
    let mut host = RegisteredMemory::new(&mut driver, &ctx, vec![0i32; 4]).unwrap();
    host.copy_from(&mut driver, &dev).unwrap();
    for i in 0..4 {
        assert_eq!(host.as_slice()[i], 1234);
    }
}

#[test]
fn copy_matrix_all_kind_pairings() {
    let (mut driver, ctx) = setup();
    let n = 8usize;
    let mut src_host = PageLockedMemory::<i32>::zeros(&mut driver, &ctx, n).unwrap();
    for i in 0..n {
        src_host.write_at(i, (i as i32) * 3 - 5);
    }
    let pattern: Vec<i32> = src_host.as_slice().to_vec();

    // host -> device
    let mut dev1 = DeviceMemory::<i32>::zeros(&mut driver, &ctx, n).unwrap();
    dev1.copy_from(&mut driver, &src_host).unwrap();
    assert_eq!(dev1.as_slice(), pattern.as_slice());

    // device -> device
    let mut dev2 = DeviceMemory::<i32>::zeros(&mut driver, &ctx, n).unwrap();
    dev2.copy_from(&mut driver, &dev1).unwrap();
    assert_eq!(dev2.as_slice(), pattern.as_slice());

    // device -> host (registered)
    let mut reg = RegisteredMemory::new(&mut driver, &ctx, vec![0i32; n]).unwrap();
    reg.copy_from(&mut driver, &dev2).unwrap();
    assert_eq!(reg.as_slice(), pattern.as_slice());

    // host -> host
    let mut pl2 = PageLockedMemory::<i32>::zeros(&mut driver, &ctx, n).unwrap();
    pl2.copy_from(&mut driver, &reg).unwrap();
    assert_eq!(pl2.as_slice(), pattern.as_slice());

    // registered -> registered
    let mut reg2 = RegisteredMemory::new(&mut driver, &ctx, vec![0i32; n]).unwrap();
    reg2.copy_from(&mut driver, &reg).unwrap();
    assert_eq!(reg2.as_slice(), pattern.as_slice());

    // device -> page-locked
    let mut pl3 = PageLockedMemory::<i32>::zeros(&mut driver, &ctx, n).unwrap();
    pl3.copy_from(&mut driver, &dev1).unwrap();
    assert_eq!(pl3.as_slice(), pattern.as_slice());

    // registered -> device
    let mut dev3 = DeviceMemory::<i32>::zeros(&mut driver, &ctx, n).unwrap();
    dev3.copy_from(&mut driver, &reg).unwrap();
    assert_eq!(dev3.as_slice(), pattern.as_slice());
}

#[test]
fn copy_of_unequal_counts_fails_and_leaves_destination_unchanged() {
    let (mut driver, ctx) = setup();
    let src = PageLockedMemory::<i32>::from_elem(&mut driver, &ctx, 12, 7).unwrap();
    let mut dest = DeviceMemory::<i32>::from_elem(&mut driver, &ctx, 24, 9).unwrap();
    match dest.copy_from(&mut driver, &src) {
        Err(AccelError::SizeMismatch { dest: d, source: s }) => {
            assert_eq!(d, 24);
            assert_eq!(s, 12);
        }
        _ => panic!("copies between handles of unequal element counts must fail"),
    }
    assert_eq!(dest.as_slice(), &[9i32; 24]);
}

#[test]
fn page_locked_write_at() {
    let (mut driver, ctx) = setup();
    let mut mem = PageLockedMemory::<i32>::zeros(&mut driver, &ctx, 12).unwrap();
    mem.write_at(0, 3);
    assert_eq!(mem.num_elem(), 12);
    assert_eq!(mem.as_slice()[0], 3);
}

#[test]
fn unregister_hands_the_buffer_back() {
    let (mut driver, ctx) = setup();
    let mut reg = RegisteredMemory::new(&mut driver, &ctx, vec![1i32, 2, 3]).unwrap();
    reg.set(&mut driver, 4).unwrap();
    let (buf, outcome) = reg.unregister(&mut driver);
    outcome.unwrap();
    assert_eq!(buf, vec![4, 4, 4]);
}

#[test]
fn typed_buffer_ids_are_distinct() {
    let (mut driver, ctx) = setup();
    let a = DeviceMemory::<i32>::zeros(&mut driver, &ctx, 12).unwrap();
    let b = DeviceMemory::<i32>::zeros(&mut driver, &ctx, 12).unwrap();
    assert_ne!(a.buffer_id(&mut driver).unwrap(), b.buffer_id(&mut driver).unwrap());
    assert!(a.is_managed(&mut driver).unwrap());
    assert!(a.is_mapped(&mut driver).unwrap());
}

#[test]
fn array_attributes() {
    let (mut driver, ctx) = setup();
    let arr = Array::<u32>::zeros(&mut driver, &ctx, Extent3 { x: 3, y: 2, z: 1 }).unwrap();
    assert_eq!(arr.extents(), Extent3 { x: 3, y: 2, z: 1 });
    assert!(!arr.is_managed(&mut driver).unwrap());
    assert!(arr.is_mapped(&mut driver).unwrap());
    let dev = DeviceMemory::<u32>::zeros(&mut driver, &ctx, 6).unwrap();
    assert_ne!(
        arr.buffer_id(&mut driver).unwrap(),
        dev.buffer_id(&mut driver).unwrap()
    );
}
