//! Device-resident memory, one span in the unified address space.
//!
//! The allocation is managed by unified addressing, so the host can read and
//! write it element-wise as well; every store and copy still runs under the
//! context guard.

use vstd::prelude::*;

use crate::context::{guard, release, Context, Contexted};
use crate::driver::Driver;
use crate::error::{check, AccelError};
use crate::memory::page_locked::PageLockedMemory;
use crate::memory::scalar::Scalar;
use crate::memory::{
    copy_elements, fill_elements, lemma_attr_is_own, live_in, pointer_attribute, Allocatable,
    Continuous, Memcpy, Memory, MemoryType,
};

verus! {

/// Memory allocated in device address space, exclusively owned by the handle
/// and released through [`DeviceMemory::free`].
pub struct DeviceMemory<T: Scalar> {
    ctx: Context,
    buf: Vec<T>,
    addr: u64,
    id: u64,
}

impl<T: Scalar> Memory for DeviceMemory<T> {
    type Elem = T;

    closed spec fn contents(&self) -> Seq<T> {
        self.buf@
    }

    open spec fn spec_kind(&self) -> MemoryType {
        MemoryType::Device
    }

    closed spec fn spec_head(&self) -> u64 {
        self.addr
    }

    closed spec fn spec_ctx(&self) -> Context {
        self.ctx
    }

    closed spec fn spec_id(&self) -> u64 {
        self.id
    }

    open spec fn spec_managed(&self) -> bool {
        true
    }

    closed spec fn inv(&self) -> bool {
        &&& self.buf@.len() >= 1
        &&& self.buf@.len() * vstd::layout::size_of::<T>() <= usize::MAX
    }

    fn head_addr(&self) -> u64 {
        self.addr
    }

    fn head_addr_mut(&mut self) -> u64 {
        self.addr
    }

    fn num_elem(&self) -> usize {
        self.buf.len()
    }

    fn byte_size(&self) -> usize {
        self.buf.len() * core::mem::size_of::<T>()
    }

    fn memory_type(&self) -> MemoryType {
        MemoryType::Device
    }

    fn set(&mut self, driver: &mut Driver, value: T) -> Result<(), AccelError> {
        let g = match guard(driver, &self.ctx) {
            Ok(g) => g,
            Err(e) => {
                return Err(e);
            },
        };
        fill_elements(&mut self.buf, value);
        release(driver, g);
        Ok(())
    }

    fn set_zero_u8(&mut self, driver: &mut Driver) -> Result<(), AccelError> {
        let g = match guard(driver, &self.ctx) {
            Ok(g) => g,
            Err(e) => {
                return Err(e);
            },
        };
        fill_elements(&mut self.buf, T::zero());
        release(driver, g);
        Ok(())
    }
}

impl<T: Scalar> Contexted for DeviceMemory<T> {
    open spec fn spec_context(&self) -> Context {
        self.spec_ctx()
    }

    fn context(&self) -> Context {
        proof {
            assert(self.spec_context() == self.spec_ctx());
            assert(self.spec_ctx() == self.ctx);
        }
        self.ctx
    }
}

impl<T: Scalar> Allocatable for DeviceMemory<T> {
    type Shape = usize;

    open spec fn shape_count(shape: usize) -> nat {
        shape as nat
    }

    open spec fn alloc_kind() -> MemoryType {
        MemoryType::Device
    }

    open spec fn alloc_managed() -> bool {
        true
    }

    open spec fn alloc_api() -> Seq<char> {
        "cuMemAllocManaged"@
    }

    fn uninitialized(driver: &mut Driver, ctx: &Context, shape: usize) -> Result<
        DeviceMemory<T>,
        AccelError,
    > {
        let g = match guard(driver, ctx) {
            Ok(g) => g,
            Err(e) => {
                return Err(e);
            },
        };
        proof {
            vstd::arithmetic::mul::lemma_mul_ordering(
                shape as int,
                vstd::layout::size_of::<T>() as int,
            );
        }
        let bytes = shape * core::mem::size_of::<T>();
        let (status, addr, id) = driver.mem_alloc(ctx.id, bytes, MemoryType::Device, true);
        release(driver, g);
        match check(status, "cuMemAllocManaged") {
            Ok(()) => {
                let buf = vec![T::zero(); shape];
                let m = DeviceMemory { ctx: *ctx, buf, addr, id };
                proof {
                    assert(crate::memory::matches_handle(
                        driver.allocations@[driver.allocations@.len() - 1],
                        &m,
                    ));
                }
                Ok(m)
            },
            Err(e) => {
                proof {
                    reveal_strlit("cuMemAllocManaged");
                    assert(Self::alloc_api() == "cuMemAllocManaged"@);
                    assert(e matches AccelError::CUDAError { api_name, error } ==> api_name@
                        == "cuMemAllocManaged"@);
                }
                Err(e)
            },
        }
    }
}

impl<T: Scalar> Continuous for DeviceMemory<T> {
    fn as_slice(&self) -> &[T] {
        self.buf.as_slice()
    }

    fn write_at(&mut self, i: usize, value: T) {
        self.buf[i] = value;
    }
}

impl<T: Scalar> DeviceMemory<T> {
    /// Overwrite the span from a host slice of the same length; the data move
    /// shared by the copy paths into this handle. Callers hold the context
    /// guard.
    pub(crate) fn store_from(&mut self, src: &[T])
        requires
            old(self).inv(),
            old(self).contents().len() == src@.len(),
        ensures
            final(self).inv(),
            crate::memory::same_handle(old(self), final(self)),
            final(self).contents() == src@,
    {
        copy_elements(&mut self.buf, src);
    }

    /// Allocate without initialization; [`Allocatable::uninitialized`] under
    /// the handle's own name.
    pub fn new(driver: &mut Driver, ctx: &Context, size: usize) -> (r: Result<
        DeviceMemory<T>,
        AccelError,
    >)
        requires
            old(driver).wf(),
            size >= 1,
            size * vstd::layout::size_of::<T>() <= usize::MAX,
            vstd::layout::size_of::<T>() >= 1,
        ensures
            final(driver).wf(),
            r is Ok <==> (old(driver).ctx_alive(ctx.id) && old(driver).can_alloc(
                ctx.id,
                (size * vstd::layout::size_of::<T>()) as usize,
                MemoryType::Device,
            )),
            r matches Ok(m) ==> {
                &&& m.inv()
                &&& m.contents().len() == size
                &&& m.spec_kind() == MemoryType::Device
                &&& crate::memory::alloc_effects(old(driver), final(driver), *ctx, &m)
                &&& live_in(&m, final(driver))
            },
            r is Err ==> Driver::same_state(old(driver), final(driver)),
    {
        Self::uninitialized(driver, ctx, size)
    }

    /// The driver-assigned identity of the allocation, queried by address;
    /// distinct for every allocation even after an address is reused.
    pub fn buffer_id(&self, driver: &mut Driver) -> (r: Result<u64, AccelError>)
        requires
            old(driver).wf(),
        ensures
            final(driver).wf(),
            Driver::same_state(old(driver), final(driver)),
            !old(driver).ctx_alive(self.spec_ctx().id) ==> r == Err::<u64, AccelError>(
                AccelError::ContextError,
            ),
            (old(driver).ctx_alive(self.spec_ctx().id) && live_in(self, old(driver))) ==> r == Ok::<
                u64,
                AccelError,
            >(self.spec_id()),
    {
        match pointer_attribute(driver, &self.ctx, self.addr) {
            Ok(rec) => {
                proof {
                    if live_in(self, old(driver)) {
                        lemma_attr_is_own(self, old(driver), rec);
                    }
                }
                Ok(rec.id)
            },
            Err(e) => Err(e),
        }
    }

    /// Whether the allocation is managed by unified addressing; device memory
    /// from this allocator always is.
    pub fn is_managed(&self, driver: &mut Driver) -> (r: Result<bool, AccelError>)
        requires
            old(driver).wf(),
        ensures
            final(driver).wf(),
            Driver::same_state(old(driver), final(driver)),
            !old(driver).ctx_alive(self.spec_ctx().id) ==> r == Err::<bool, AccelError>(
                AccelError::ContextError,
            ),
            (old(driver).ctx_alive(self.spec_ctx().id) && live_in(self, old(driver))) ==> r == Ok::<
                bool,
                AccelError,
            >(true),
    {
        match pointer_attribute(driver, &self.ctx, self.addr) {
            Ok(rec) => {
                proof {
                    if live_in(self, old(driver)) {
                        lemma_attr_is_own(self, old(driver), rec);
                    }
                }
                Ok(rec.managed)
            },
            Err(e) => Err(e),
        }
    }

    /// Whether the address is mapped to a backing allocation; true for every
    /// live handle.
    pub fn is_mapped(&self, driver: &mut Driver) -> (r: Result<bool, AccelError>)
        requires
            old(driver).wf(),
        ensures
            final(driver).wf(),
            Driver::same_state(old(driver), final(driver)),
            !old(driver).ctx_alive(self.spec_ctx().id) ==> r == Err::<bool, AccelError>(
                AccelError::ContextError,
            ),
            (old(driver).ctx_alive(self.spec_ctx().id) && live_in(self, old(driver))) ==> r == Ok::<
                bool,
                AccelError,
            >(true),
    {
        match pointer_attribute(driver, &self.ctx, self.addr) {
            Ok(rec) => {
                let _ = rec;
                Ok(true)
            },
            Err(e) => Err(e),
        }
    }

    /// Release the allocation: its registry entry is removed and its bytes
    /// return to the device's pool. Fails with a context error when the
    /// handle's context is dead; the allocation is then abandoned.
    pub fn free(self, driver: &mut Driver) -> (r: Result<(), AccelError>)
        requires
            old(driver).wf(),
        ensures
            final(driver).wf(),
            final(driver).ctx_state() == old(driver).ctx_state(),
            final(driver).module_state() == old(driver).module_state(),
            final(driver).stream_state() == old(driver).stream_state(),
            final(driver).launch_log() == old(driver).launch_log(),
            r is Ok <==> old(driver).ctx_alive(self.spec_ctx().id),
            r is Err ==> r == Err::<(), AccelError>(AccelError::ContextError)
                && Driver::same_state(old(driver), final(driver)),
            r is Ok ==> crate::memory::free_effects(
                old(driver),
                final(driver),
                self.spec_head(),
            ),
            r is Ok ==> forall|i: int|
                0 <= i < final(driver).allocations@.len()
                    ==> (#[trigger] final(driver).allocations@[i]).addr != self.spec_head(),
    {
        crate::memory::free_registered(driver, &self.ctx, self.addr)
    }
}

impl<T: Scalar> Memcpy<DeviceMemory<T>> for DeviceMemory<T> {
    fn copy_from(&mut self, driver: &mut Driver, src: &DeviceMemory<T>) -> Result<(), AccelError> {
        if self.buf.len() != src.num_elem() {
            return Err(AccelError::SizeMismatch { dest: self.buf.len(), source: src.num_elem() });
        }
        if self.addr == src.head_addr() {
            return Err(AccelError::AliasedCopy);
        }
        let g = match guard(driver, &self.ctx) {
            Ok(g) => g,
            Err(e) => {
                return Err(e);
            },
        };
        copy_elements(&mut self.buf, src.as_slice());
        release(driver, g);
        Ok(())
    }
}

impl<T: Scalar> Memcpy<PageLockedMemory<T>> for DeviceMemory<T> {
    fn copy_from(&mut self, driver: &mut Driver, src: &PageLockedMemory<T>) -> Result<
        (),
        AccelError,
    > {
        if self.buf.len() != src.num_elem() {
            return Err(AccelError::SizeMismatch { dest: self.buf.len(), source: src.num_elem() });
        }
        if self.addr == src.head_addr() {
            return Err(AccelError::AliasedCopy);
        }
        let g = match guard(driver, &self.ctx) {
            Ok(g) => g,
            Err(e) => {
                return Err(e);
            },
        };
        copy_elements(&mut self.buf, src.as_slice());
        release(driver, g);
        Ok(())
    }
}

impl<T: Scalar> Memcpy<DeviceMemory<T>> for PageLockedMemory<T> {
    fn copy_from(&mut self, driver: &mut Driver, src: &DeviceMemory<T>) -> Result<(), AccelError> {
        if self.num_elem() != src.num_elem() {
            return Err(
                AccelError::SizeMismatch { dest: self.num_elem(), source: src.num_elem() },
            );
        }
        if self.head_addr() == src.head_addr() {
            return Err(AccelError::AliasedCopy);
        }
        let src_ctx = src.context();
        let g = match guard(driver, &src_ctx) {
            Ok(g) => g,
            Err(e) => {
                return Err(e);
            },
        };
        self.store_from(src.as_slice());
        release(driver, g);
        Ok(())
    }
}

} // verus!
