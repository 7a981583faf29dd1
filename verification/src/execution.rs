//! Kernel execution: argument marshaling and the arity-indexed launch
//! contracts.
//!
//! A compiled kernel declares one device-side target type per argument slot.
//! A host value may fill a slot only when its [`DeviceSend::Target`] is
//! exactly that slot's declared type, so a mismatched argument list is a
//! build-time rejection, never a launch failure. At call time the geometry is
//! normalized, the context guard is acquired, the arguments are marshaled
//! into the call's parameter array in declaration order, the call is
//! dispatched on the default stream, and the launch blocks until the kernel
//! completes.

use vstd::prelude::*;

use crate::block::Block;
use crate::context::{guard, release, Contexted};
use crate::driver::{Driver, LaunchRecord};
use crate::error::{check, AccelError};
use crate::grid::Grid;
use crate::memory::scalar::Scalar;
use crate::memory::Memory;
use crate::module::{load_kernel, Kernel};

verus! {

/// One marshaled kernel argument, as it stands in the call's argument array.
#[derive(Clone, Copy, Debug, PartialEq, Eq, Structural)]
pub enum KernelParam {
    /// A pointer into the unified address space, with its mutability.
    Ptr { addr: u64, mutable: bool },
    /// A plain scalar, passed by value.
    Value { bits: u64, bytes: usize },
}

/// Device-side type of a slot that reads a span of `T` elements.
#[verifier::reject_recursive_types(T)]
pub struct DevicePtr<T> {
    _elem: core::marker::PhantomData<T>,
}

/// Device-side type of a slot that writes a span of `T` elements.
#[verifier::reject_recursive_types(T)]
pub struct DevicePtrMut<T> {
    _elem: core::marker::PhantomData<T>,
}

/// A host value that can fill a kernel argument slot: it has a declared
/// device-side representation and marshals itself into the call's argument
/// array.
pub trait DeviceSend {
    /// The device-side type the value produces; it must equal the slot's
    /// declared target type for the call to type-check.
    type Target;

    /// The marshaled form of the value.
    spec fn spec_param(&self) -> KernelParam;

    /// Marshal the value into the call's argument array.
    fn as_kernel_parameter(&self) -> (p: KernelParam)
        ensures
            p == self.spec_param(),
    ;
}

/// A borrowed memory handle marshals to its head address, as a read-only
/// pointer to its element type.
impl<'a, M: Memory> DeviceSend for &'a M {
    type Target = DevicePtr<<M as Memory>::Elem>;

    open spec fn spec_param(&self) -> KernelParam {
        KernelParam::Ptr { addr: (**self).spec_head(), mutable: false }
    }

    fn as_kernel_parameter(&self) -> KernelParam {
        KernelParam::Ptr { addr: (*self).head_addr(), mutable: false }
    }
}

/// A mutably borrowed memory handle, marshaled to its head address as a
/// writable pointer. The borrow lives as long as the argument, so the handle
/// cannot be read or written by the host while a call that may write it is
/// being built and dispatched.
#[verifier::reject_recursive_types(M)]
pub struct MutArg<'a, M> {
    addr: u64,
    _borrow: core::marker::PhantomData<&'a mut M>,
}

/// Marshal a mutably borrowed memory handle into an argument for a slot
/// declared writable.
pub fn mut_arg<'a, M: Memory>(m: &'a mut M) -> (a: MutArg<'a, M>)
    ensures
        *final(m) == *old(m),
        a.spec_param() == (KernelParam::Ptr { addr: old(m).spec_head(), mutable: true }),
{
    let addr = m.head_addr_mut();
    MutArg { addr, _borrow: core::marker::PhantomData }
}

impl<'a, M: Memory> DeviceSend for MutArg<'a, M> {
    type Target = DevicePtrMut<<M as Memory>::Elem>;

    closed spec fn spec_param(&self) -> KernelParam {
        KernelParam::Ptr { addr: self.addr, mutable: true }
    }

    fn as_kernel_parameter(&self) -> KernelParam {
        KernelParam::Ptr { addr: self.addr, mutable: true }
    }
}

/// A plain scalar is passed by value, extended to its 64-bit image.
impl DeviceSend for u8 {
    type Target = u8;

    open spec fn spec_param(&self) -> KernelParam {
        KernelParam::Value { bits: self.spec_bits(), bytes: 1 }
    }

    fn as_kernel_parameter(&self) -> KernelParam {
        KernelParam::Value { bits: self.to_bits(), bytes: 1 }
    }
}

impl DeviceSend for u16 {
    type Target = u16;

    open spec fn spec_param(&self) -> KernelParam {
        KernelParam::Value { bits: self.spec_bits(), bytes: 2 }
    }

    fn as_kernel_parameter(&self) -> KernelParam {
        KernelParam::Value { bits: self.to_bits(), bytes: 2 }
    }
}

impl DeviceSend for u32 {
    type Target = u32;

    open spec fn spec_param(&self) -> KernelParam {
        KernelParam::Value { bits: self.spec_bits(), bytes: 4 }
    }

    fn as_kernel_parameter(&self) -> KernelParam {
        KernelParam::Value { bits: self.to_bits(), bytes: 4 }
    }
}

impl DeviceSend for u64 {
    type Target = u64;

    open spec fn spec_param(&self) -> KernelParam {
        KernelParam::Value { bits: self.spec_bits(), bytes: 8 }
    }

    fn as_kernel_parameter(&self) -> KernelParam {
        KernelParam::Value { bits: self.to_bits(), bytes: 8 }
    }
}

impl DeviceSend for usize {
    type Target = usize;

    open spec fn spec_param(&self) -> KernelParam {
        KernelParam::Value {
            bits: self.spec_bits(),
            bytes: vstd::layout::size_of::<usize>() as usize,
        }
    }

    fn as_kernel_parameter(&self) -> KernelParam {
        KernelParam::Value { bits: self.to_bits(), bytes: core::mem::size_of::<usize>() }
    }
}

impl DeviceSend for i8 {
    type Target = i8;

    open spec fn spec_param(&self) -> KernelParam {
        KernelParam::Value { bits: self.spec_bits(), bytes: 1 }
    }

    fn as_kernel_parameter(&self) -> KernelParam {
        KernelParam::Value { bits: self.to_bits(), bytes: 1 }
    }
}

impl DeviceSend for i16 {
    type Target = i16;

    open spec fn spec_param(&self) -> KernelParam {
        KernelParam::Value { bits: self.spec_bits(), bytes: 2 }
    }

    fn as_kernel_parameter(&self) -> KernelParam {
        KernelParam::Value { bits: self.to_bits(), bytes: 2 }
    }
}

impl DeviceSend for i32 {
    type Target = i32;

    open spec fn spec_param(&self) -> KernelParam {
        KernelParam::Value { bits: self.spec_bits(), bytes: 4 }
    }

    fn as_kernel_parameter(&self) -> KernelParam {
        KernelParam::Value { bits: self.to_bits(), bytes: 4 }
    }
}

impl DeviceSend for i64 {
    type Target = i64;

    open spec fn spec_param(&self) -> KernelParam {
        KernelParam::Value { bits: self.spec_bits(), bytes: 8 }
    }

    fn as_kernel_parameter(&self) -> KernelParam {
        KernelParam::Value { bits: self.to_bits(), bytes: 8 }
    }
}

impl DeviceSend for isize {
    type Target = isize;

    open spec fn spec_param(&self) -> KernelParam {
        KernelParam::Value {
            bits: self.spec_bits(),
            bytes: vstd::layout::size_of::<isize>() as usize,
        }
    }

    fn as_kernel_parameter(&self) -> KernelParam {
        KernelParam::Value { bits: self.to_bits(), bytes: core::mem::size_of::<isize>() }
    }
}

/// Dispatch a kernel with marshaled arguments and block until it completes.
///
/// The single verified launch path behind every [`Launchable0`]-family
/// contract: the context guard is acquired, the call is issued on the default
/// stream with zero dynamic shared memory, the stream is synchronized, and
/// the guard is released. Succeeds exactly when the kernel's context is
/// alive, its function handle came from a loaded module, and every geometry
/// axis is positive; the geometry check is the driver's and surfaces as its
/// invalid-value error.
pub fn launch_raw(
    driver: &mut Driver,
    kernel: &Kernel,
    grid: Grid,
    block: Block,
    params: Vec<KernelParam>,
) -> (r: Result<(), AccelError>)
    requires
        old(driver).wf(),
    ensures
        final(driver).wf(),
        final(driver).ctx_state() == old(driver).ctx_state(),
        final(driver).mem_state() == old(driver).mem_state(),
        final(driver).module_state() == old(driver).module_state(),
        final(driver).stream_issued == old(driver).stream_issued,
        r is Ok <==> (old(driver).ctx_alive(kernel.spec_context().id) && kernel.spec_func() < old(driver).next_func && grid.wf() && block.wf()),
        r is Ok ==> {
            &&& final(driver).launch_log() == old(driver).launch_log().push(
                (LaunchRecord { func: kernel.spec_func(), grid, block, shared_bytes: 0, params }),
            )
            &&& final(driver).stream_completed == old(driver).stream_issued
        },
        r is Err ==> Driver::same_state(old(driver), final(driver)),
        !old(driver).ctx_alive(kernel.spec_context().id) ==> r == Err::<(), AccelError>(
            AccelError::ContextError,
        ),
        (old(driver).ctx_alive(kernel.spec_context().id) && kernel.spec_func() >= old(driver).next_func) ==> (r matches Err(AccelError::CUDAError { api_name, error }) && api_name@
            == "cuLaunchKernel"@ && error == crate::error::CUDA_ERROR_INVALID_HANDLE),
        (old(driver).ctx_alive(kernel.spec_context().id) && kernel.spec_func() < old(driver).next_func && !(grid.wf() && block.wf())) ==> (r matches Err(AccelError::CUDAError {
            api_name,
            error,
        }) && api_name@ == "cuLaunchKernel"@ && error == crate::error::CUDA_ERROR_INVALID_VALUE),
{
    let ctx = kernel.context();
    let g = match guard(driver, &ctx) {
        Ok(g) => g,
        Err(e) => {
            return Err(e);
        },
    };
    let status = driver.launch_kernel(kernel.func_handle(), grid, block, params);
    if status == crate::error::CUDA_SUCCESS {
        driver.stream_synchronize();
    }
    release(driver, g);
    check(status, "cuLaunchKernel")
}

/// A kernel taking no arguments. `get_kernel` produces the compiled function;
/// the provided `launch` dispatches it through the one verified launch path.
pub trait Launchable0: Sized {
    /// The compiled kernel to dispatch; producing it may only touch the
    /// driver's module cache.
    fn get_kernel(&self, driver: &mut Driver) -> (r: Result<Kernel, AccelError>)
        requires
            old(driver).wf(),
        ensures
            final(driver).wf(),
            final(driver).ctx_state() == old(driver).ctx_state(),
            final(driver).mem_state() == old(driver).mem_state(),
            final(driver).stream_state() == old(driver).stream_state(),
            final(driver).launch_log() == old(driver).launch_log(),
            r matches Ok(k) ==> k.valid_in(final(driver)),
    ;

    /// Launch with the given geometry and no arguments, blocking until the
    /// kernel completes. On success exactly one call is dispatched, with this
    /// geometry, an empty argument array and zero dynamic shared memory; no
    /// memory handle, pool, context or module changes.
    fn launch(&self, driver: &mut Driver, grid: Grid, block: Block) -> (r: Result<(), AccelError>)
        requires
            old(driver).wf(),
        ensures
            final(driver).wf(),
            final(driver).ctx_state() == old(driver).ctx_state(),
            final(driver).mem_state() == old(driver).mem_state(),
            final(driver).stream_issued == old(driver).stream_issued,
            r is Ok ==> grid.wf() && block.wf(),
            r is Ok ==> final(driver).launch_log().len() == old(driver).launch_log().len() + 1
                && final(driver).launch_log().subrange(0, old(driver).launch_log().len() as int)
                == old(driver).launch_log() && final(driver).launch_log().last().grid == grid
                && final(driver).launch_log().last().block == block && final(driver).launch_log().last().shared_bytes == 0 && final(driver).launch_log().last().params@.len() == 0,
            r is Err ==> final(driver).launch_log() == old(driver).launch_log(),
    {
        let ghost log0 = driver.launch_log();
        let kernel = match self.get_kernel(driver) {
            Ok(k) => k,
            Err(e) => {
                return Err(e);
            },
        };
        let r = launch_raw(driver, &kernel, grid, block, Vec::new());
        proof {
            if r is Ok {
                assert(driver.launch_log().subrange(0, log0.len() as int) =~= log0);
            }
        }
        r
    }
}

/// A kernel taking one argument, of the declared target type.
pub trait Launchable1: Sized {
    /// Device-side type of the argument slot.
    type Target1;

    /// The compiled kernel to dispatch; producing it may only touch the
    /// driver's module cache.
    fn get_kernel(&self, driver: &mut Driver) -> (r: Result<Kernel, AccelError>)
        requires
            old(driver).wf(),
        ensures
            final(driver).wf(),
            final(driver).ctx_state() == old(driver).ctx_state(),
            final(driver).mem_state() == old(driver).mem_state(),
            final(driver).stream_state() == old(driver).stream_state(),
            final(driver).launch_log() == old(driver).launch_log(),
            r matches Ok(k) ==> k.valid_in(final(driver)),
    ;

    /// Launch with the given geometry and argument tuple, blocking until the
    /// kernel completes. The argument's type must marshal to the declared
    /// slot type; on success exactly one call is dispatched carrying its
    /// marshaled form.
    fn launch<A1: DeviceSend<Target = Self::Target1>>(
        &self,
        driver: &mut Driver,
        grid: Grid,
        block: Block,
        args: (A1,),
    ) -> (r: Result<(), AccelError>)
        requires
            old(driver).wf(),
        ensures
            final(driver).wf(),
            final(driver).ctx_state() == old(driver).ctx_state(),
            final(driver).mem_state() == old(driver).mem_state(),
            final(driver).stream_issued == old(driver).stream_issued,
            r is Ok ==> grid.wf() && block.wf(),
            r is Ok ==> final(driver).launch_log().len() == old(driver).launch_log().len() + 1
                && final(driver).launch_log().subrange(0, old(driver).launch_log().len() as int)
                == old(driver).launch_log() && final(driver).launch_log().last().grid == grid
                && final(driver).launch_log().last().block == block && final(driver).launch_log().last().shared_bytes == 0 && final(driver).launch_log().last().params@ == seq![args.0.spec_param()],
            r is Err ==> final(driver).launch_log() == old(driver).launch_log(),
    {
        let ghost log0 = driver.launch_log();
        let kernel = match self.get_kernel(driver) {
            Ok(k) => k,
            Err(e) => {
                return Err(e);
            },
        };
        let mut params: Vec<KernelParam> = Vec::new();
        params.push(args.0.as_kernel_parameter());
        proof {
            assert(params@ =~= seq![args.0.spec_param()]);
        }
        let r = launch_raw(driver, &kernel, grid, block, params);
        proof {
            if r is Ok {
                assert(driver.launch_log().subrange(0, log0.len() as int) =~= log0);
            }
        }
        r
    }
}

/// A kernel taking two arguments, of the declared target types.
pub trait Launchable2: Sized {
    /// Device-side type of the first argument slot.
    type Target1;

    /// Device-side type of the second argument slot.
    type Target2;

    /// The compiled kernel to dispatch; producing it may only touch the
    /// driver's module cache.
    fn get_kernel(&self, driver: &mut Driver) -> (r: Result<Kernel, AccelError>)
        requires
            old(driver).wf(),
        ensures
            final(driver).wf(),
            final(driver).ctx_state() == old(driver).ctx_state(),
            final(driver).mem_state() == old(driver).mem_state(),
            final(driver).stream_state() == old(driver).stream_state(),
            final(driver).launch_log() == old(driver).launch_log(),
            r matches Ok(k) ==> k.valid_in(final(driver)),
    ;

    /// Launch with the given geometry and argument tuple, blocking until the
    /// kernel completes; each argument's type must marshal to its slot's
    /// declared type.
    fn launch<A1: DeviceSend<Target = Self::Target1>, A2: DeviceSend<Target = Self::Target2>>(
        &self,
        driver: &mut Driver,
        grid: Grid,
        block: Block,
        args: (A1, A2),
    ) -> (r: Result<(), AccelError>)
        requires
            old(driver).wf(),
        ensures
            final(driver).wf(),
            final(driver).ctx_state() == old(driver).ctx_state(),
            final(driver).mem_state() == old(driver).mem_state(),
            final(driver).stream_issued == old(driver).stream_issued,
            r is Ok ==> grid.wf() && block.wf(),
            r is Ok ==> final(driver).launch_log().len() == old(driver).launch_log().len() + 1
                && final(driver).launch_log().subrange(0, old(driver).launch_log().len() as int)
                == old(driver).launch_log() && final(driver).launch_log().last().grid == grid
                && final(driver).launch_log().last().block == block && final(driver).launch_log().last().shared_bytes == 0 && final(driver).launch_log().last().params@ == seq![args.0.spec_param(), args.1.spec_param()],
            r is Err ==> final(driver).launch_log() == old(driver).launch_log(),
    {
        let ghost log0 = driver.launch_log();
        let kernel = match self.get_kernel(driver) {
            Ok(k) => k,
            Err(e) => {
                return Err(e);
            },
        };
        let mut params: Vec<KernelParam> = Vec::new();
        params.push(args.0.as_kernel_parameter());
        params.push(args.1.as_kernel_parameter());
        proof {
            assert(params@ =~= seq![args.0.spec_param(), args.1.spec_param()]);
        }
        let r = launch_raw(driver, &kernel, grid, block, params);
        proof {
            if r is Ok {
                assert(driver.launch_log().subrange(0, log0.len() as int) =~= log0);
            }
        }
        r
    }
}

/// A kernel taking three arguments, of the declared target types.
pub trait Launchable3: Sized {
    /// Device-side type of the first argument slot.
    type Target1;

    /// Device-side type of the second argument slot.
    type Target2;

    /// Device-side type of the third argument slot.
    type Target3;

    /// The compiled kernel to dispatch; producing it may only touch the
    /// driver's module cache.
    fn get_kernel(&self, driver: &mut Driver) -> (r: Result<Kernel, AccelError>)
        requires
            old(driver).wf(),
        ensures
            final(driver).wf(),
            final(driver).ctx_state() == old(driver).ctx_state(),
            final(driver).mem_state() == old(driver).mem_state(),
            final(driver).stream_state() == old(driver).stream_state(),
            final(driver).launch_log() == old(driver).launch_log(),
            r matches Ok(k) ==> k.valid_in(final(driver)),
    ;

    /// Launch with the given geometry and argument tuple, blocking until the
    /// kernel completes; each argument's type must marshal to its slot's
    /// declared type.
    fn launch<
        A1: DeviceSend<Target = Self::Target1>,
        A2: DeviceSend<Target = Self::Target2>,
        A3: DeviceSend<Target = Self::Target3>,
    >(
        &self,
        driver: &mut Driver,
        grid: Grid,
        block: Block,
        args: (A1, A2, A3),
    ) -> (r: Result<(), AccelError>)
        requires
            old(driver).wf(),
        ensures
            final(driver).wf(),
            final(driver).ctx_state() == old(driver).ctx_state(),
            final(driver).mem_state() == old(driver).mem_state(),
            final(driver).stream_issued == old(driver).stream_issued,
            r is Ok ==> grid.wf() && block.wf(),
            r is Ok ==> final(driver).launch_log().len() == old(driver).launch_log().len() + 1
                && final(driver).launch_log().subrange(0, old(driver).launch_log().len() as int)
                == old(driver).launch_log() && final(driver).launch_log().last().grid == grid
                && final(driver).launch_log().last().block == block && final(driver).launch_log().last().shared_bytes == 0 && final(driver).launch_log().last().params@ == seq![
                args.0.spec_param(),
                args.1.spec_param(),
                args.2.spec_param(),
            ],
            r is Err ==> final(driver).launch_log() == old(driver).launch_log(),
    {
        let ghost log0 = driver.launch_log();
        let kernel = match self.get_kernel(driver) {
            Ok(k) => k,
            Err(e) => {
                return Err(e);
            },
        };
        let mut params: Vec<KernelParam> = Vec::new();
        params.push(args.0.as_kernel_parameter());
        params.push(args.1.as_kernel_parameter());
        params.push(args.2.as_kernel_parameter());
        proof {
            assert(params@ =~= seq![
                args.0.spec_param(),
                args.1.spec_param(),
                args.2.spec_param(),
            ]);
        }
        let r = launch_raw(driver, &kernel, grid, block, params);
        proof {
            if r is Ok {
                assert(driver.launch_log().subrange(0, log0.len() as int) =~= log0);
            }
        }
        r
    }
}

/// A kernel taking four arguments, of the declared target types.
pub trait Launchable4: Sized {
    /// Device-side type of the first argument slot.
    type Target1;

    /// Device-side type of the second argument slot.
    type Target2;

    /// Device-side type of the third argument slot.
    type Target3;

    /// Device-side type of the fourth argument slot.
    type Target4;

    /// The compiled kernel to dispatch; producing it may only touch the
    /// driver's module cache.
    fn get_kernel(&self, driver: &mut Driver) -> (r: Result<Kernel, AccelError>)
        requires
            old(driver).wf(),
        ensures
            final(driver).wf(),
            final(driver).ctx_state() == old(driver).ctx_state(),
            final(driver).mem_state() == old(driver).mem_state(),
            final(driver).stream_state() == old(driver).stream_state(),
            final(driver).launch_log() == old(driver).launch_log(),
            r matches Ok(k) ==> k.valid_in(final(driver)),
    ;

    /// Launch with the given geometry and argument tuple, blocking until the
    /// kernel completes; each argument's type must marshal to its slot's
    /// declared type.
    fn launch<
        A1: DeviceSend<Target = Self::Target1>,
        A2: DeviceSend<Target = Self::Target2>,
        A3: DeviceSend<Target = Self::Target3>,
        A4: DeviceSend<Target = Self::Target4>,
    >(
        &self,
        driver: &mut Driver,
        grid: Grid,
        block: Block,
        args: (A1, A2, A3, A4),
    ) -> (r: Result<(), AccelError>)
        requires
            old(driver).wf(),
        ensures
            final(driver).wf(),
            final(driver).ctx_state() == old(driver).ctx_state(),
            final(driver).mem_state() == old(driver).mem_state(),
            final(driver).stream_issued == old(driver).stream_issued,
            r is Ok ==> grid.wf() && block.wf(),
            r is Ok ==> final(driver).launch_log().len() == old(driver).launch_log().len() + 1
                && final(driver).launch_log().subrange(0, old(driver).launch_log().len() as int)
                == old(driver).launch_log() && final(driver).launch_log().last().grid == grid
                && final(driver).launch_log().last().block == block && final(driver).launch_log().last().shared_bytes == 0 && final(driver).launch_log().last().params@ == seq![
                args.0.spec_param(),
                args.1.spec_param(),
                args.2.spec_param(),
                args.3.spec_param(),
            ],
            r is Err ==> final(driver).launch_log() == old(driver).launch_log(),
    {
        let ghost log0 = driver.launch_log();
        let kernel = match self.get_kernel(driver) {
            Ok(k) => k,
            Err(e) => {
                return Err(e);
            },
        };
        let mut params: Vec<KernelParam> = Vec::new();
        params.push(args.0.as_kernel_parameter());
        params.push(args.1.as_kernel_parameter());
        params.push(args.2.as_kernel_parameter());
        params.push(args.3.as_kernel_parameter());
        proof {
            assert(params@ =~= seq![
                args.0.spec_param(),
                args.1.spec_param(),
                args.2.spec_param(),
                args.3.spec_param(),
            ]);
        }
        let r = launch_raw(driver, &kernel, grid, block, params);
        proof {
            if r is Ok {
                assert(driver.launch_log().subrange(0, log0.len() as int) =~= log0);
            }
        }
        r
    }
}

} // verus!
