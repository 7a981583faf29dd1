//! Compiled-kernel artifacts: an opaque device instruction image plus an
//! entry-point name, loaded once per process and cached by that name.

use vstd::prelude::*;

use crate::context::{guard, release, Context, Contexted};
use crate::driver::Driver;
use crate::error::AccelError;

verus! {

/// Handle to one loaded kernel function, bound to the context it was loaded
/// into.
#[derive(Clone, Copy)]
pub struct Kernel {
    ctx: Context,
    func: u64,
}

impl Kernel {
    /// The kernel's function handle inside the driver.
    pub closed spec fn spec_func(&self) -> u64 {
        self.func
    }

    /// True while the kernel can be dispatched: its context is alive and its
    /// handle came from a loaded module.
    pub open spec fn valid_in(&self, d: &Driver) -> bool {
        &&& d.ctx_alive(self.spec_context().id)
        &&& self.spec_func() < d.next_func
    }

    /// The kernel's function handle, for the dispatch call.
    pub fn func_handle(&self) -> (f: u64)
        ensures
            f == self.spec_func(),
    {
        self.func
    }
}

impl Contexted for Kernel {
    closed spec fn spec_context(&self) -> Context {
        self.ctx
    }

    fn context(&self) -> Context {
        self.ctx
    }
}

/// Load a compiled kernel into a context, or hand back the function handle a
/// previous load produced: modules are loaded once per process and cached by
/// entry-point name, so repeated launches avoid the reload cost. The image is
/// an opaque blob produced by an external offline compilation step; the core
/// never inspects it.
pub fn load_kernel(driver: &mut Driver, ctx: &Context, image: &[u8], name: &String) -> (r: Result<
    Kernel,
    AccelError,
>)
    requires
        old(driver).wf(),
        old(driver).next_func < u64::MAX,
    ensures
        final(driver).wf(),
        final(driver).ctx_state() == old(driver).ctx_state(),
        final(driver).mem_state() == old(driver).mem_state(),
        final(driver).stream_state() == old(driver).stream_state(),
        final(driver).launch_log() == old(driver).launch_log(),
        final(driver).next_func >= old(driver).next_func,
        r is Ok <==> old(driver).ctx_alive(ctx.id),
        r is Err ==> r == Err::<Kernel, AccelError>(AccelError::ContextError) && *final(driver)
            == *old(driver),
        r matches Ok(k) ==> {
            &&& k.valid_in(final(driver))
            &&& k.spec_context() == *ctx
            &&& (exists|i: int|
                0 <= i < old(driver).modules@.len() && (#[trigger] old(driver).modules@[i]).name@
                    == name@) ==> {
                &&& Driver::same_state(old(driver), final(driver))
                &&& exists|i: int|
                    0 <= i < old(driver).modules@.len() && (#[trigger] old(
                        driver,
                    ).modules@[i]).name@ == name@ && k.spec_func() == old(driver).modules@[i].func
            }
            &&& (forall|i: int|
                0 <= i < old(driver).modules@.len() ==> (#[trigger] old(driver).modules@[i]).name@
                    != name@) ==> {
                &&& k.spec_func() == old(driver).next_func
                &&& final(driver).next_func == old(driver).next_func + 1
                &&& final(driver).modules@.len() == old(driver).modules@.len() + 1
                &&& final(driver).modules@.last().name@ == name@
                &&& final(driver).modules@.last().func == k.spec_func()
            }
        },
{
    let _ = image;
    let g = match guard(driver, ctx) {
        Ok(g) => g,
        Err(e) => {
            return Err(e);
        },
    };
    let (status, func) = driver.module_get_or_load(name);
    let _ = status;
    release(driver, g);
    Ok(Kernel { ctx: *ctx, func })
}

/// A compiled kernel artifact taking no arguments, paired with the context to
/// run it in; the pairing a kernel author's build step would generate.
pub struct KernelFn0 {
    ctx: Context,
    image: Vec<u8>,
    name: String,
}

impl KernelFn0 {
    /// Pair an opaque compiled image and its entry-point name with a context.
    pub fn new(ctx: &Context, image: Vec<u8>, name: String) -> (k: KernelFn0) {
        KernelFn0 { ctx: *ctx, image, name }
    }
}

impl crate::execution::Launchable0 for KernelFn0 {
    fn get_kernel(&self, driver: &mut Driver) -> Result<Kernel, AccelError> {
        if driver.next_func == u64::MAX {
            return Err(
                AccelError::CUDAError {
                    api_name: "cuModuleLoadData".to_owned(),
                    error: crate::error::CUDA_ERROR_OUT_OF_MEMORY,
                },
            );
        }
        load_kernel(driver, &self.ctx, self.image.as_slice(), &self.name)
    }
}

/// A compiled kernel artifact taking one argument of device-side type `T1`.
#[verifier::reject_recursive_types(T1)]
pub struct KernelFn1<T1> {
    ctx: Context,
    image: Vec<u8>,
    name: String,
    _targets: core::marker::PhantomData<T1>,
}

impl<T1> KernelFn1<T1> {
    /// Pair an opaque compiled image and its entry-point name with a context.
    pub fn new(ctx: &Context, image: Vec<u8>, name: String) -> (k: KernelFn1<T1>) {
        KernelFn1 { ctx: *ctx, image, name, _targets: core::marker::PhantomData }
    }
}

impl<T1> crate::execution::Launchable1 for KernelFn1<T1> {
    type Target1 = T1;

    fn get_kernel(&self, driver: &mut Driver) -> Result<Kernel, AccelError> {
        if driver.next_func == u64::MAX {
            return Err(
                AccelError::CUDAError {
                    api_name: "cuModuleLoadData".to_owned(),
                    error: crate::error::CUDA_ERROR_OUT_OF_MEMORY,
                },
            );
        }
        load_kernel(driver, &self.ctx, self.image.as_slice(), &self.name)
    }
}

/// A compiled kernel artifact taking two arguments of the given device-side
/// types.
#[verifier::reject_recursive_types(T1)]
#[verifier::reject_recursive_types(T2)]
pub struct KernelFn2<T1, T2> {
    ctx: Context,
    image: Vec<u8>,
    name: String,
    _targets: core::marker::PhantomData<(T1, T2)>,
}

impl<T1, T2> KernelFn2<T1, T2> {
    /// Pair an opaque compiled image and its entry-point name with a context.
    pub fn new(ctx: &Context, image: Vec<u8>, name: String) -> (k: KernelFn2<T1, T2>) {
        KernelFn2 { ctx: *ctx, image, name, _targets: core::marker::PhantomData }
    }
}

impl<T1, T2> crate::execution::Launchable2 for KernelFn2<T1, T2> {
    type Target1 = T1;

    type Target2 = T2;

    fn get_kernel(&self, driver: &mut Driver) -> Result<Kernel, AccelError> {
        if driver.next_func == u64::MAX {
            return Err(
                AccelError::CUDAError {
                    api_name: "cuModuleLoadData".to_owned(),
                    error: crate::error::CUDA_ERROR_OUT_OF_MEMORY,
                },
            );
        }
        load_kernel(driver, &self.ctx, self.image.as_slice(), &self.name)
    }
}

/// A compiled kernel artifact taking three arguments of the given device-side
/// types.
#[verifier::reject_recursive_types(T1)]
#[verifier::reject_recursive_types(T2)]
#[verifier::reject_recursive_types(T3)]
pub struct KernelFn3<T1, T2, T3> {
    ctx: Context,
    image: Vec<u8>,
    name: String,
    _targets: core::marker::PhantomData<(T1, T2, T3)>,
}

impl<T1, T2, T3> KernelFn3<T1, T2, T3> {
    /// Pair an opaque compiled image and its entry-point name with a context.
    pub fn new(ctx: &Context, image: Vec<u8>, name: String) -> (k: KernelFn3<T1, T2, T3>) {
        KernelFn3 { ctx: *ctx, image, name, _targets: core::marker::PhantomData }
    }
}

impl<T1, T2, T3> crate::execution::Launchable3 for KernelFn3<T1, T2, T3> {
    type Target1 = T1;

    type Target2 = T2;

    type Target3 = T3;

    fn get_kernel(&self, driver: &mut Driver) -> Result<Kernel, AccelError> {
        if driver.next_func == u64::MAX {
            return Err(
                AccelError::CUDAError {
                    api_name: "cuModuleLoadData".to_owned(),
                    error: crate::error::CUDA_ERROR_OUT_OF_MEMORY,
                },
            );
        }
        load_kernel(driver, &self.ctx, self.image.as_slice(), &self.name)
    }
}

/// A compiled kernel artifact taking four arguments of the given device-side
/// types.
#[verifier::reject_recursive_types(T1)]
#[verifier::reject_recursive_types(T2)]
#[verifier::reject_recursive_types(T3)]
#[verifier::reject_recursive_types(T4)]
pub struct KernelFn4<T1, T2, T3, T4> {
    ctx: Context,
    image: Vec<u8>,
    name: String,
    _targets: core::marker::PhantomData<(T1, T2, T3, T4)>,
}

impl<T1, T2, T3, T4> KernelFn4<T1, T2, T3, T4> {
    /// Pair an opaque compiled image and its entry-point name with a context.
    pub fn new(ctx: &Context, image: Vec<u8>, name: String) -> (k: KernelFn4<T1, T2, T3, T4>) {
        KernelFn4 { ctx: *ctx, image, name, _targets: core::marker::PhantomData }
    }
}

impl<T1, T2, T3, T4> crate::execution::Launchable4 for KernelFn4<T1, T2, T3, T4> {
    type Target1 = T1;

    type Target2 = T2;

    type Target3 = T3;

    type Target4 = T4;

    fn get_kernel(&self, driver: &mut Driver) -> Result<Kernel, AccelError> {
        if driver.next_func == u64::MAX {
            return Err(
                AccelError::CUDAError {
                    api_name: "cuModuleLoadData".to_owned(),
                    error: crate::error::CUDA_ERROR_OUT_OF_MEMORY,
                },
            );
        }
        load_kernel(driver, &self.ctx, self.image.as_slice(), &self.name)
    }
}

} // verus!
