//! Host memory pinned against OS paging.
//!
//! Pinning exempts the pages from OS paging, which speeds transfers and lets
//! the device reach them through unified addressing. Allocating excessive
//! amounts of pinned memory can degrade system performance, so these handles
//! are best used as staging areas for host/device exchange.

use vstd::prelude::*;

use crate::context::{guard, release, Context, Contexted};
use crate::driver::Driver;
use crate::error::{check, AccelError};
use crate::memory::scalar::Scalar;
use crate::memory::{
    copy_elements, fill_elements, Allocatable, Continuous, Memcpy, Memory, MemoryType,
};

verus! {

/// Page-locked host memory: the handle owns both the host buffer and its
/// registration with the driver, and releases them through
/// [`PageLockedMemory::free`].
pub struct PageLockedMemory<T: Scalar> {
    ctx: Context,
    buf: Vec<T>,
    addr: u64,
    id: u64,
}

impl<T: Scalar> Memory for PageLockedMemory<T> {
    type Elem = T;

    closed spec fn contents(&self) -> Seq<T> {
        self.buf@
    }

    open spec fn spec_kind(&self) -> MemoryType {
        MemoryType::PageLocked
    }

    closed spec fn spec_head(&self) -> u64 {
        self.addr
    }

    closed spec fn spec_ctx(&self) -> Context {
        self.ctx
    }

    closed spec fn spec_id(&self) -> u64 {
        self.id
    }

    open spec fn spec_managed(&self) -> bool {
        false
    }

    closed spec fn inv(&self) -> bool {
        &&& self.buf@.len() >= 1
        &&& self.buf@.len() * vstd::layout::size_of::<T>() <= usize::MAX
    }

    fn head_addr(&self) -> u64 {
        self.addr
    }

    fn head_addr_mut(&mut self) -> u64 {
        self.addr
    }

    fn num_elem(&self) -> usize {
        self.buf.len()
    }

    fn byte_size(&self) -> usize {
        self.buf.len() * core::mem::size_of::<T>()
    }

    fn memory_type(&self) -> MemoryType {
        MemoryType::PageLocked
    }

    fn set(&mut self, _driver: &mut Driver, value: T) -> Result<(), AccelError> {
        fill_elements(&mut self.buf, value);
        Ok(())
    }

    fn set_zero_u8(&mut self, _driver: &mut Driver) -> Result<(), AccelError> {
        fill_elements(&mut self.buf, T::zero());
        Ok(())
    }
}

impl<T: Scalar> Contexted for PageLockedMemory<T> {
    open spec fn spec_context(&self) -> Context {
        self.spec_ctx()
    }

    fn context(&self) -> Context {
        self.ctx
    }
}

impl<T: Scalar> Allocatable for PageLockedMemory<T> {
    type Shape = usize;

    open spec fn shape_count(shape: usize) -> nat {
        shape as nat
    }

    open spec fn alloc_kind() -> MemoryType {
        MemoryType::PageLocked
    }

    open spec fn alloc_managed() -> bool {
        false
    }

    open spec fn alloc_api() -> Seq<char> {
        "cuMemAllocHost"@
    }

    fn uninitialized(driver: &mut Driver, ctx: &Context, shape: usize) -> Result<
        PageLockedMemory<T>,
        AccelError,
    > {
        let g = match guard(driver, ctx) {
            Ok(g) => g,
            Err(e) => {
                return Err(e);
            },
        };
        proof {
            vstd::arithmetic::mul::lemma_mul_ordering(shape as int, vstd::layout::size_of::<T>() as int);
        }
        let bytes = shape * core::mem::size_of::<T>();
        let (status, addr, id) = driver.mem_alloc(ctx.id, bytes, MemoryType::PageLocked, false);
        release(driver, g);
        match check(status, "cuMemAllocHost") {
            Ok(()) => {
                let buf = vec![T::zero(); shape];
                let m = PageLockedMemory { ctx: *ctx, buf, addr, id };
                proof {
                    assert(crate::memory::matches_handle(
                        driver.allocations@[driver.allocations@.len() - 1],
                        &m,
                    ));
                }
                Ok(m)
            },
            Err(e) => {
                proof {
                    reveal_strlit("cuMemAllocHost");
                    assert(Self::alloc_api() == "cuMemAllocHost"@);
                    assert(e matches AccelError::CUDAError { api_name, error } ==> api_name@
                        == "cuMemAllocHost"@);
                }
                Err(e)
            },
        }
    }
}

impl<T: Scalar> Continuous for PageLockedMemory<T> {
    fn as_slice(&self) -> &[T] {
        self.buf.as_slice()
    }

    fn write_at(&mut self, i: usize, value: T) {
        self.buf[i] = value;
    }
}

impl<T: Scalar> PageLockedMemory<T> {
    /// Overwrite the buffer from a host slice of the same length; the data
    /// move shared by the copy paths into this handle.
    pub(crate) fn store_from(&mut self, src: &[T])
        requires
            old(self).inv(),
            old(self).contents().len() == src@.len(),
        ensures
            final(self).inv(),
            crate::memory::same_handle(old(self), final(self)),
            final(self).contents() == src@,
    {
        copy_elements(&mut self.buf, src);
    }

    /// Allocate without initialization; [`Allocatable::uninitialized`] under
    /// the handle's own name.
    pub fn new(driver: &mut Driver, ctx: &Context, size: usize) -> (r: Result<
        PageLockedMemory<T>,
        AccelError,
    >)
        requires
            old(driver).wf(),
            size >= 1,
            size * vstd::layout::size_of::<T>() <= usize::MAX,
            vstd::layout::size_of::<T>() >= 1,
        ensures
            final(driver).wf(),
            r is Ok <==> (old(driver).ctx_alive(ctx.id) && old(driver).can_alloc(
                ctx.id,
                (size * vstd::layout::size_of::<T>()) as usize,
                MemoryType::PageLocked,
            )),
            r matches Ok(m) ==> {
                &&& m.inv()
                &&& m.contents().len() == size
                &&& m.spec_kind() == MemoryType::PageLocked
                &&& crate::memory::alloc_effects(old(driver), final(driver), *ctx, &m)
                &&& crate::memory::live_in(&m, final(driver))
            },
            r is Err ==> Driver::same_state(old(driver), final(driver)),
    {
        Self::uninitialized(driver, ctx, size)
    }

    /// Unpin and free the buffer, removing its registry entry. Fails with a
    /// context error when the handle's context is dead; the buffer is then
    /// abandoned.
    pub fn free(self, driver: &mut Driver) -> (r: Result<(), AccelError>)
        requires
            old(driver).wf(),
        ensures
            final(driver).wf(),
            final(driver).ctx_state() == old(driver).ctx_state(),
            final(driver).module_state() == old(driver).module_state(),
            final(driver).stream_state() == old(driver).stream_state(),
            final(driver).launch_log() == old(driver).launch_log(),
            r is Ok <==> old(driver).ctx_alive(self.spec_ctx().id),
            r is Err ==> r == Err::<(), AccelError>(AccelError::ContextError)
                && Driver::same_state(old(driver), final(driver)),
            r is Ok ==> crate::memory::free_effects(
                old(driver),
                final(driver),
                self.spec_head(),
            ),
            r is Ok ==> forall|i: int|
                0 <= i < final(driver).allocations@.len()
                    ==> (#[trigger] final(driver).allocations@[i]).addr != self.spec_head(),
    {
        crate::memory::free_registered(driver, &self.ctx, self.addr)
    }
}

impl<T: Scalar> Memcpy<PageLockedMemory<T>> for PageLockedMemory<T> {
    fn copy_from(&mut self, _driver: &mut Driver, src: &PageLockedMemory<T>) -> Result<
        (),
        AccelError,
    > {
        if self.buf.len() != src.num_elem() {
            return Err(AccelError::SizeMismatch { dest: self.buf.len(), source: src.num_elem() });
        }
        if self.addr == src.head_addr() {
            return Err(AccelError::AliasedCopy);
        }
        copy_elements(&mut self.buf, src.as_slice());
        Ok(())
    }
}

} // verus!
