//! Host-side runtime for a massively parallel coprocessor: typed memory
//! handles over a unified 64-bit address space, a context-currency guard,
//! and an arity-checked kernel-launch layer.
//!
//! The driver's process-global state (current context, allocation registry,
//! per-device memory accounting, module cache, default stream) is explicit:
//! every operation threads a [`driver::Driver`] value, and each entry point
//! of the driver catalog is a function whose effect on that state is stated
//! and proved.

pub mod block;
pub mod context;
pub mod device;
pub mod driver;
pub mod error;
pub mod execution;
pub mod grid;
pub mod memory;
pub mod module;
pub mod stream;

pub use block::Block;
pub use context::{Context, Contexted};
pub use device::Device;
pub use driver::Driver;
pub use error::AccelError;
pub use execution::{
    launch_raw, mut_arg, DevicePtr, DevicePtrMut, DeviceSend, KernelParam, Launchable0,
    Launchable1, Launchable2, Launchable3, Launchable4, MutArg,
};
pub use grid::Grid;
pub use memory::array::Array;
pub use memory::device::DeviceMemory;
pub use memory::page_locked::PageLockedMemory;
pub use memory::registered::RegisteredMemory;
pub use memory::scalar::Scalar;
pub use memory::{Allocatable, Continuous, Memcpy, Memory, MemoryType};
pub use module::{load_kernel, Kernel, KernelFn0, KernelFn1, KernelFn2, KernelFn3, KernelFn4};
pub use stream::CopyFuture;
