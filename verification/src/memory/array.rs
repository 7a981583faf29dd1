//! Array memory: an opaque multi-dimensional device allocation for texture
//! and surface use, not slice-accessible.

use vstd::prelude::*;

use crate::context::{guard, release, Context, Contexted};
use crate::driver::Driver;
use crate::error::{check, AccelError};
use crate::memory::scalar::Scalar;
use crate::memory::{fill_elements, lemma_attr_is_own, live_in, pointer_attribute, Allocatable, Memory, MemoryType};

verus! {

/// Up to three extents of an array allocation; unused axes are 1.
#[derive(Clone, Copy, Debug, PartialEq, Eq, Structural)]
pub struct Extent3 {
    pub x: usize,
    pub y: usize,
    pub z: usize,
}

/// A properly aligned device-side allocation addressed by up to three
/// extents, exclusively owned by the handle and released through
/// [`Array::free`]. Unlike the other kinds it offers no slice view.
pub struct Array<T: Scalar> {
    ctx: Context,
    buf: Vec<T>,
    addr: u64,
    id: u64,
    extents: Extent3,
}

impl<T: Scalar> Memory for Array<T> {
    type Elem = T;

    closed spec fn contents(&self) -> Seq<T> {
        self.buf@
    }

    open spec fn spec_kind(&self) -> MemoryType {
        MemoryType::Array
    }

    closed spec fn spec_head(&self) -> u64 {
        self.addr
    }

    closed spec fn spec_ctx(&self) -> Context {
        self.ctx
    }

    closed spec fn spec_id(&self) -> u64 {
        self.id
    }

    open spec fn spec_managed(&self) -> bool {
        false
    }

    closed spec fn inv(&self) -> bool {
        &&& self.buf@.len() >= 1
        &&& self.buf@.len() * vstd::layout::size_of::<T>() <= usize::MAX
        &&& self.buf@.len() == self.extents.x * self.extents.y * self.extents.z
    }

    fn head_addr(&self) -> u64 {
        self.addr
    }

    fn head_addr_mut(&mut self) -> u64 {
        self.addr
    }

    fn num_elem(&self) -> usize {
        self.buf.len()
    }

    fn byte_size(&self) -> usize {
        self.buf.len() * core::mem::size_of::<T>()
    }

    fn memory_type(&self) -> MemoryType {
        MemoryType::Array
    }

    fn set(&mut self, driver: &mut Driver, value: T) -> Result<(), AccelError> {
        let g = match guard(driver, &self.ctx) {
            Ok(g) => g,
            Err(e) => {
                return Err(e);
            },
        };
        fill_elements(&mut self.buf, value);
        release(driver, g);
        Ok(())
    }

    fn set_zero_u8(&mut self, driver: &mut Driver) -> Result<(), AccelError> {
        let g = match guard(driver, &self.ctx) {
            Ok(g) => g,
            Err(e) => {
                return Err(e);
            },
        };
        fill_elements(&mut self.buf, T::zero());
        release(driver, g);
        Ok(())
    }
}

impl<T: Scalar> Contexted for Array<T> {
    open spec fn spec_context(&self) -> Context {
        self.spec_ctx()
    }

    fn context(&self) -> Context {
        self.ctx
    }
}

impl<T: Scalar> Allocatable for Array<T> {
    type Shape = Extent3;

    open spec fn shape_count(shape: Extent3) -> nat {
        (shape.x * shape.y * shape.z) as nat
    }

    open spec fn alloc_kind() -> MemoryType {
        MemoryType::Array
    }

    open spec fn alloc_managed() -> bool {
        false
    }

    open spec fn alloc_api() -> Seq<char> {
        "cuArrayCreate"@
    }

    fn uninitialized(driver: &mut Driver, ctx: &Context, shape: Extent3) -> Result<
        Array<T>,
        AccelError,
    > {
        let g = match guard(driver, ctx) {
            Ok(g) => g,
            Err(e) => {
                return Err(e);
            },
        };
        proof {
            assert(shape.x * shape.y >= 1 && shape.z >= 1 && shape.x * shape.y <= shape.x
                * shape.y * shape.z && shape.x * shape.y * shape.z <= usize::MAX) by (nonlinear_arith)
                requires
                    shape.x * shape.y * shape.z >= 1,
                    (shape.x * shape.y * shape.z) * vstd::layout::size_of::<T>() <= usize::MAX,
                    vstd::layout::size_of::<T>() >= 1,
            ;
        }
        let count = shape.x * shape.y * shape.z;
        proof {
            vstd::arithmetic::mul::lemma_mul_ordering(
                count as int,
                vstd::layout::size_of::<T>() as int,
            );
        }
        let bytes = count * core::mem::size_of::<T>();
        let (status, addr, id) = driver.mem_alloc(ctx.id, bytes, MemoryType::Array, false);
        release(driver, g);
        match check(status, "cuArrayCreate") {
            Ok(()) => {
                let buf = vec![T::zero(); count];
                let m = Array { ctx: *ctx, buf, addr, id, extents: shape };
                proof {
                    assert(crate::memory::matches_handle(
                        driver.allocations@[driver.allocations@.len() - 1],
                        &m,
                    ));
                }
                Ok(m)
            },
            Err(e) => {
                proof {
                    reveal_strlit("cuArrayCreate");
                    assert(Self::alloc_api() == "cuArrayCreate"@);
                    assert(e matches AccelError::CUDAError { api_name, error } ==> api_name@
                        == "cuArrayCreate"@);
                }
                Err(e)
            },
        }
    }
}

impl<T: Scalar> Array<T> {
    /// The array's extents, as it was allocated.
    pub fn extents(&self) -> (e: Extent3)
        ensures
            e == self.spec_extents(),
    {
        self.extents
    }

    /// The array's extents.
    pub closed spec fn spec_extents(&self) -> Extent3 {
        self.extents
    }

    /// The driver-assigned identity of the allocation, queried by address.
    pub fn buffer_id(&self, driver: &mut Driver) -> (r: Result<u64, AccelError>)
        requires
            old(driver).wf(),
        ensures
            final(driver).wf(),
            Driver::same_state(old(driver), final(driver)),
            !old(driver).ctx_alive(self.spec_ctx().id) ==> r == Err::<u64, AccelError>(
                AccelError::ContextError,
            ),
            (old(driver).ctx_alive(self.spec_ctx().id) && live_in(self, old(driver))) ==> r == Ok::<
                u64,
                AccelError,
            >(self.spec_id()),
    {
        match pointer_attribute(driver, &self.ctx, self.addr) {
            Ok(rec) => {
                proof {
                    if live_in(self, old(driver)) {
                        lemma_attr_is_own(self, old(driver), rec);
                    }
                }
                Ok(rec.id)
            },
            Err(e) => Err(e),
        }
    }

    /// Whether the allocation is managed by unified addressing; array memory
    /// is not.
    pub fn is_managed(&self, driver: &mut Driver) -> (r: Result<bool, AccelError>)
        requires
            old(driver).wf(),
        ensures
            final(driver).wf(),
            Driver::same_state(old(driver), final(driver)),
            !old(driver).ctx_alive(self.spec_ctx().id) ==> r == Err::<bool, AccelError>(
                AccelError::ContextError,
            ),
            (old(driver).ctx_alive(self.spec_ctx().id) && live_in(self, old(driver))) ==> r == Ok::<
                bool,
                AccelError,
            >(false),
    {
        match pointer_attribute(driver, &self.ctx, self.addr) {
            Ok(rec) => {
                proof {
                    if live_in(self, old(driver)) {
                        lemma_attr_is_own(self, old(driver), rec);
                    }
                }
                Ok(rec.managed)
            },
            Err(e) => Err(e),
        }
    }

    /// Whether the address is mapped to a backing allocation; true for every
    /// live handle.
    pub fn is_mapped(&self, driver: &mut Driver) -> (r: Result<bool, AccelError>)
        requires
            old(driver).wf(),
        ensures
            final(driver).wf(),
            Driver::same_state(old(driver), final(driver)),
            !old(driver).ctx_alive(self.spec_ctx().id) ==> r == Err::<bool, AccelError>(
                AccelError::ContextError,
            ),
            (old(driver).ctx_alive(self.spec_ctx().id) && live_in(self, old(driver))) ==> r == Ok::<
                bool,
                AccelError,
            >(true),
    {
        match pointer_attribute(driver, &self.ctx, self.addr) {
            Ok(rec) => {
                let _ = rec;
                Ok(true)
            },
            Err(e) => Err(e),
        }
    }

    /// Release the allocation: its registry entry is removed and its bytes
    /// return to the device's pool. Fails with a context error when the
    /// handle's context is dead; the allocation is then abandoned.
    pub fn free(self, driver: &mut Driver) -> (r: Result<(), AccelError>)
        requires
            old(driver).wf(),
        ensures
            final(driver).wf(),
            final(driver).ctx_state() == old(driver).ctx_state(),
            final(driver).module_state() == old(driver).module_state(),
            final(driver).stream_state() == old(driver).stream_state(),
            final(driver).launch_log() == old(driver).launch_log(),
            r is Ok <==> old(driver).ctx_alive(self.spec_ctx().id),
            r is Err ==> r == Err::<(), AccelError>(AccelError::ContextError)
                && Driver::same_state(old(driver), final(driver)),
            r is Ok ==> crate::memory::free_effects(
                old(driver),
                final(driver),
                self.spec_head(),
            ),
            r is Ok ==> forall|i: int|
                0 <= i < final(driver).allocations@.len()
                    ==> (#[trigger] final(driver).allocations@[i]).addr != self.spec_head(),
    {
        crate::memory::free_registered(driver, &self.ctx, self.addr)
    }
}

} // verus!
