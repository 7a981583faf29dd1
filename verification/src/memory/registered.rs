//! Caller-owned host memory registered with the driver.
//!
//! The handle does not allocate: it takes a caller's buffer, owns only the
//! registration side-effect, and hands the buffer back from
//! [`RegisteredMemory::unregister`]. Ownership of the buffer moves through the
//! handle, so the registration cannot outlive the memory it registered.

use vstd::prelude::*;

use crate::context::{guard, release, Context, Contexted};
use crate::driver::Driver;
use crate::error::{check, AccelError};
use crate::memory::device::DeviceMemory;
use crate::memory::page_locked::PageLockedMemory;
use crate::memory::scalar::Scalar;
use crate::memory::{copy_elements, fill_elements, Continuous, Memcpy, Memory, MemoryType};

verus! {

/// Host memory made transfer-efficient by registering it with the driver's
/// memory system, without taking ownership of more than the registration.
pub struct RegisteredMemory<T: Scalar> {
    ctx: Context,
    buf: Vec<T>,
    addr: u64,
    id: u64,
}

impl<T: Scalar> Memory for RegisteredMemory<T> {
    type Elem = T;

    closed spec fn contents(&self) -> Seq<T> {
        self.buf@
    }

    open spec fn spec_kind(&self) -> MemoryType {
        MemoryType::Host
    }

    closed spec fn spec_head(&self) -> u64 {
        self.addr
    }

    closed spec fn spec_ctx(&self) -> Context {
        self.ctx
    }

    closed spec fn spec_id(&self) -> u64 {
        self.id
    }

    open spec fn spec_managed(&self) -> bool {
        false
    }

    closed spec fn inv(&self) -> bool {
        &&& self.buf@.len() >= 1
        &&& self.buf@.len() * vstd::layout::size_of::<T>() <= usize::MAX
    }

    fn head_addr(&self) -> u64 {
        self.addr
    }

    fn head_addr_mut(&mut self) -> u64 {
        self.addr
    }

    fn num_elem(&self) -> usize {
        self.buf.len()
    }

    fn byte_size(&self) -> usize {
        self.buf.len() * core::mem::size_of::<T>()
    }

    fn memory_type(&self) -> MemoryType {
        MemoryType::Host
    }

    fn set(&mut self, _driver: &mut Driver, value: T) -> Result<(), AccelError> {
        fill_elements(&mut self.buf, value);
        Ok(())
    }

    fn set_zero_u8(&mut self, _driver: &mut Driver) -> Result<(), AccelError> {
        fill_elements(&mut self.buf, T::zero());
        Ok(())
    }
}

impl<T: Scalar> Contexted for RegisteredMemory<T> {
    open spec fn spec_context(&self) -> Context {
        self.spec_ctx()
    }

    fn context(&self) -> Context {
        self.ctx
    }
}

impl<T: Scalar> Continuous for RegisteredMemory<T> {
    fn as_slice(&self) -> &[T] {
        self.buf.as_slice()
    }

    fn write_at(&mut self, i: usize, value: T) {
        self.buf[i] = value;
    }
}

impl<T: Scalar> RegisteredMemory<T> {
    /// Register a caller's buffer with the driver's memory system. The buffer
    /// moves into the handle and comes back from
    /// [`RegisteredMemory::unregister`]; the registration is recorded in the
    /// unified address space as page-locked host memory, indistinguishable
    /// there from [`PageLockedMemory`].
    pub fn new(driver: &mut Driver, ctx: &Context, data: Vec<T>) -> (r: Result<
        RegisteredMemory<T>,
        AccelError,
    >)
        requires
            old(driver).wf(),
            data@.len() >= 1,
            data@.len() * vstd::layout::size_of::<T>() <= usize::MAX,
            vstd::layout::size_of::<T>() >= 1,
        ensures
            final(driver).wf(),
            r is Ok <==> (old(driver).ctx_alive(ctx.id) && old(driver).can_alloc(
                ctx.id,
                (data@.len() * vstd::layout::size_of::<T>()) as usize,
                MemoryType::PageLocked,
            )),
            r matches Ok(m) ==> {
                &&& m.inv()
                &&& m.contents() == data@
                &&& m.spec_kind() == MemoryType::Host
                &&& m.spec_ctx() == *ctx
                &&& m.spec_head() == old(driver).next_addr
                &&& m.spec_id() == old(driver).next_buffer_id
                &&& final(driver).allocations@ == old(driver).allocations@.push(
                    (crate::driver::AllocRecord {
                        id: old(driver).next_buffer_id,
                        addr: old(driver).next_addr,
                        bytes: (data@.len() * vstd::layout::size_of::<T>()) as usize,
                        kind: MemoryType::PageLocked,
                        managed: false,
                        device: old(driver).contexts@[ctx.id as int].device,
                    }),
                )
                &&& final(driver).next_buffer_id == old(driver).next_buffer_id + 1
                &&& final(driver).next_addr == old(driver).next_addr + (data@.len()
                    * vstd::layout::size_of::<T>()) as usize
                &&& final(driver).devices@ == old(driver).devices@
                &&& final(driver).ctx_state() == old(driver).ctx_state()
                &&& final(driver).module_state() == old(driver).module_state()
                &&& final(driver).stream_state() == old(driver).stream_state()
                &&& final(driver).launch_log() == old(driver).launch_log()
            },
            r is Err ==> Driver::same_state(old(driver), final(driver)),
            !old(driver).ctx_alive(ctx.id) ==> r == Err::<RegisteredMemory<T>, AccelError>(
                AccelError::ContextError,
            ),
            (old(driver).ctx_alive(ctx.id) && !old(driver).can_alloc(
                ctx.id,
                (data@.len() * vstd::layout::size_of::<T>()) as usize,
                MemoryType::PageLocked,
            )) ==> (r matches Err(AccelError::CUDAError { api_name, error }) && api_name@
                == "cuMemHostRegister"@ && error == crate::error::CUDA_ERROR_OUT_OF_MEMORY),
    {
        let g = match guard(driver, ctx) {
            Ok(g) => g,
            Err(e) => {
                return Err(e);
            },
        };
        proof {
            vstd::arithmetic::mul::lemma_mul_ordering(
                data@.len() as int,
                vstd::layout::size_of::<T>() as int,
            );
        }
        let bytes = data.len() * core::mem::size_of::<T>();
        let (status, addr, id) = driver.mem_alloc(ctx.id, bytes, MemoryType::PageLocked, false);
        release(driver, g);
        match check(status, "cuMemHostRegister") {
            Ok(()) => {
                Ok(RegisteredMemory { ctx: *ctx, buf: data, addr, id })
            },
            Err(e) => {
                proof {
                    reveal_strlit("cuMemHostRegister");
                }
                Err(e)
            },
        }
    }

    /// Overwrite the buffer from a host slice of the same length; the data
    /// move shared by the copy paths into this handle.
    pub(crate) fn store_from(&mut self, src: &[T])
        requires
            old(self).inv(),
            old(self).contents().len() == src@.len(),
        ensures
            final(self).inv(),
            crate::memory::same_handle(old(self), final(self)),
            final(self).contents() == src@,
    {
        copy_elements(&mut self.buf, src);
    }

    /// Drop the registration and hand the buffer back to its owner. A dead
    /// context fails the unregistration; the buffer comes back either way.
    pub fn unregister(self, driver: &mut Driver) -> (r: (Vec<T>, Result<(), AccelError>))
        requires
            old(driver).wf(),
        ensures
            final(driver).wf(),
            final(driver).ctx_state() == old(driver).ctx_state(),
            final(driver).module_state() == old(driver).module_state(),
            final(driver).stream_state() == old(driver).stream_state(),
            final(driver).launch_log() == old(driver).launch_log(),
            r.0@ == self.contents(),
            r.1 is Ok <==> old(driver).ctx_alive(self.spec_ctx().id),
            r.1 is Err ==> r.1 == Err::<(), AccelError>(AccelError::ContextError)
                && Driver::same_state(old(driver), final(driver)),
            r.1 is Ok ==> crate::memory::free_effects(
                old(driver),
                final(driver),
                self.spec_head(),
            ),
            r.1 is Ok ==> forall|i: int|
                0 <= i < final(driver).allocations@.len()
                    ==> (#[trigger] final(driver).allocations@[i]).addr != self.spec_head(),
    {
        let outcome = crate::memory::free_registered(driver, &self.ctx, self.addr);
        (self.buf, outcome)
    }
}

impl<T: Scalar> Memcpy<RegisteredMemory<T>> for RegisteredMemory<T> {
    fn copy_from(&mut self, _driver: &mut Driver, src: &RegisteredMemory<T>) -> Result<
        (),
        AccelError,
    > {
        if self.buf.len() != src.num_elem() {
            return Err(AccelError::SizeMismatch { dest: self.buf.len(), source: src.num_elem() });
        }
        if self.addr == src.head_addr() {
            return Err(AccelError::AliasedCopy);
        }
        copy_elements(&mut self.buf, src.as_slice());
        Ok(())
    }
}

impl<T: Scalar> Memcpy<PageLockedMemory<T>> for RegisteredMemory<T> {
    fn copy_from(&mut self, _driver: &mut Driver, src: &PageLockedMemory<T>) -> Result<
        (),
        AccelError,
    > {
        if self.buf.len() != src.num_elem() {
            return Err(AccelError::SizeMismatch { dest: self.buf.len(), source: src.num_elem() });
        }
        if self.addr == src.head_addr() {
            return Err(AccelError::AliasedCopy);
        }
        copy_elements(&mut self.buf, src.as_slice());
        Ok(())
    }
}

impl<T: Scalar> Memcpy<RegisteredMemory<T>> for PageLockedMemory<T> {
    fn copy_from(&mut self, _driver: &mut Driver, src: &RegisteredMemory<T>) -> Result<
        (),
        AccelError,
    > {
        if self.num_elem() != src.num_elem() {
            return Err(
                AccelError::SizeMismatch { dest: self.num_elem(), source: src.num_elem() },
            );
        }
        if self.head_addr() == src.head_addr() {
            return Err(AccelError::AliasedCopy);
        }
        self.store_from(src.as_slice());
        Ok(())
    }
}

impl<T: Scalar> Memcpy<DeviceMemory<T>> for RegisteredMemory<T> {
    fn copy_from(&mut self, driver: &mut Driver, src: &DeviceMemory<T>) -> Result<(), AccelError> {
        if self.buf.len() != src.num_elem() {
            return Err(AccelError::SizeMismatch { dest: self.buf.len(), source: src.num_elem() });
        }
        if self.addr == src.head_addr() {
            return Err(AccelError::AliasedCopy);
        }
        let src_ctx = src.context();
        let g = match guard(driver, &src_ctx) {
            Ok(g) => g,
            Err(e) => {
                return Err(e);
            },
        };
        copy_elements(&mut self.buf, src.as_slice());
        release(driver, g);
        Ok(())
    }
}

impl<T: Scalar> Memcpy<RegisteredMemory<T>> for DeviceMemory<T> {
    fn copy_from(&mut self, driver: &mut Driver, src: &RegisteredMemory<T>) -> Result<
        (),
        AccelError,
    > {
        if self.num_elem() != src.num_elem() {
            return Err(
                AccelError::SizeMismatch { dest: self.num_elem(), source: src.num_elem() },
            );
        }
        if self.head_addr() == src.head_addr() {
            return Err(AccelError::AliasedCopy);
        }
        let ctx = self.context();
        let g = match guard(driver, &ctx) {
            Ok(g) => g,
            Err(e) => {
                return Err(e);
            },
        };
        self.store_from(src.as_slice());
        release(driver, g);
        Ok(())
    }
}

} // verus!
