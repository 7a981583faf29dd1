//! The driver-level view of device memory: untyped byte allocations and the
//! device's memory pool, below the typed handles of [`crate::memory`].

use vstd::prelude::*;

use crate::context::{guard, release, Context};
use crate::driver::Driver;
use crate::error::{check, AccelError, CUDA_ERROR_INVALID_VALUE};
use crate::memory::MemoryType;

verus! {

/// Scope a managed allocation is attached to.
#[derive(Clone, Copy, PartialEq, Eq, Structural)]
pub enum AttachFlag {
    /// Reachable from any stream on any device.
    Global,
    /// Reachable by the host only, until attached elsewhere.
    Host,
    /// Reachable from a single stream.
    Single,
}

/// Total and free memory size of one device's pool, in bytes.
#[derive(Clone, Copy, PartialEq, Eq, Structural)]
pub struct MemoryInfo {
    pub free: usize,
    pub total: usize,
}

impl MemoryInfo {
    /// Read the pool of the context's device under the context guard.
    pub fn get(driver: &mut Driver, ctx: &Context) -> (r: Result<MemoryInfo, AccelError>)
        requires
            old(driver).wf(),
        ensures
            final(driver).wf(),
            Driver::same_state(old(driver), final(driver)),
            r is Ok <==> old(driver).ctx_alive(ctx.id),
            r is Err ==> r == Err::<MemoryInfo, AccelError>(AccelError::ContextError),
            r matches Ok(info) ==> {
                let device = old(driver).contexts@[ctx.id as int].device;
                &&& info.free == old(driver).devices@[device as int].free
                &&& info.total == old(driver).devices@[device as int].total
                &&& info.free <= info.total
            },
    {
        let g = match guard(driver, ctx) {
            Ok(g) => g,
            Err(e) => {
                return Err(e);
            },
        };
        let device = driver.contexts[ctx.id].device;
        let (free, total) = driver.mem_get_info(device);
        release(driver, g);
        Ok(MemoryInfo { free, total })
    }
}

/// An untyped span of device memory, sized in bytes; the raw form behind
/// [`crate::memory::device::DeviceMemory`].
pub struct DeviceMemory {
    ctx: Context,
    addr: u64,
    id: u64,
    size: usize,
    managed: bool,
}

impl DeviceMemory {
    /// Byte length of the allocation.
    pub closed spec fn spec_len(&self) -> usize {
        self.size
    }

    /// Head address of the allocation.
    pub closed spec fn spec_head(&self) -> u64 {
        self.addr
    }

    /// Driver-assigned identity of the allocation.
    pub closed spec fn spec_id(&self) -> u64 {
        self.id
    }

    /// The context the allocation is bound to.
    pub closed spec fn spec_ctx(&self) -> Context {
        self.ctx
    }

    /// Whether the allocation is managed by unified addressing.
    pub closed spec fn spec_managed(&self) -> bool {
        self.managed
    }

    /// True while the driver's registry holds this allocation's record.
    pub open spec fn live_in(&self, d: &Driver) -> bool {
        exists|i: int|
            0 <= i < d.allocations@.len() && #[trigger] d.allocations@[i] == (
            crate::driver::AllocRecord {
                id: self.spec_id(),
                addr: self.spec_head(),
                bytes: self.spec_len(),
                kind: MemoryType::Device,
                managed: self.spec_managed(),
                device: d.contexts@[self.spec_ctx().id as int].device,
            })
    }

    /// How allocating `size` bytes changes the driver and describes the
    /// resulting handle.
    pub open spec fn raw_alloc_post(
        d0: &Driver,
        d1: &Driver,
        ctx: Context,
        size: usize,
        managed: bool,
        m: &DeviceMemory,
    ) -> bool {
        let device = d0.contexts@[ctx.id as int].device;
        &&& m.spec_ctx() == ctx
        &&& m.spec_len() == size
        &&& m.spec_managed() == managed
        &&& m.spec_head() == d0.next_addr
        &&& m.spec_id() == d0.next_buffer_id
        &&& d1.allocations@ == d0.allocations@.push(
            (crate::driver::AllocRecord {
                id: d0.next_buffer_id,
                addr: d0.next_addr,
                bytes: size,
                kind: MemoryType::Device,
                managed,
                device,
            }),
        )
        &&& d1.next_buffer_id == d0.next_buffer_id + 1
        &&& d1.next_addr == d0.next_addr + size
        &&& d1.ctx_state() == d0.ctx_state()
        &&& d1.module_state() == d0.module_state()
        &&& d1.stream_state() == d0.stream_state()
        &&& d1.launch_log() == d0.launch_log()
        &&& d1.devices@ == d0.devices@.update(
            device as int,
            (crate::driver::DeviceState {
                total: d0.devices@[device as int].total,
                free: (d0.devices@[device as int].free - size) as usize,
            }),
        )
        &&& m.live_in(d1)
    }

    /// Allocate a span of device memory that is not managed by the unified
    /// memory system. A zero byte length is rejected before any driver call.
    pub fn non_managed(driver: &mut Driver, ctx: &Context, size: usize) -> (r: Result<
        DeviceMemory,
        AccelError,
    >)
        requires
            old(driver).wf(),
        ensures
            final(driver).wf(),
            r is Ok <==> (size >= 1 && old(driver).ctx_alive(ctx.id) && old(driver).can_alloc(
                ctx.id,
                size,
                MemoryType::Device,
            )),
            r matches Ok(m) ==> DeviceMemory::raw_alloc_post(
                old(driver),
                final(driver),
                *ctx,
                size,
                false,
                &m,
            ),
            r is Err ==> Driver::same_state(old(driver), final(driver)),
            size == 0 ==> (r matches Err(AccelError::CUDAError { api_name, error }) && api_name@
                == "cuMemAlloc"@ && error == CUDA_ERROR_INVALID_VALUE),
            (size >= 1 && !old(driver).ctx_alive(ctx.id)) ==> r == Err::<DeviceMemory, AccelError>(
                AccelError::ContextError,
            ),
    {
        raw_alloc(driver, ctx, size, false, "cuMemAlloc")
    }

    /// Allocate a span of device memory managed by the unified memory system,
    /// attached to the given scope. A zero byte length is rejected before any
    /// driver call.
    pub fn managed(driver: &mut Driver, ctx: &Context, size: usize, flag: AttachFlag) -> (r:
        Result<DeviceMemory, AccelError>)
        requires
            old(driver).wf(),
        ensures
            final(driver).wf(),
            r is Ok <==> (size >= 1 && old(driver).ctx_alive(ctx.id) && old(driver).can_alloc(
                ctx.id,
                size,
                MemoryType::Device,
            )),
            r matches Ok(m) ==> DeviceMemory::raw_alloc_post(
                old(driver),
                final(driver),
                *ctx,
                size,
                true,
                &m,
            ),
            r is Err ==> Driver::same_state(old(driver), final(driver)),
            size == 0 ==> (r matches Err(AccelError::CUDAError { api_name, error }) && api_name@
                == "cuMemAllocManaged"@ && error == CUDA_ERROR_INVALID_VALUE),
            (size >= 1 && !old(driver).ctx_alive(ctx.id)) ==> r == Err::<DeviceMemory, AccelError>(
                AccelError::ContextError,
            ),
    {
        let _ = flag;
        raw_alloc(driver, ctx, size, true, "cuMemAllocManaged")
    }

    /// Byte length of the allocation.
    pub fn len(&self) -> (n: usize)
        ensures
            n == self.spec_len(),
    {
        self.size
    }

    /// Unique identity of the allocation, queried from the registry by
    /// address.
    pub fn buffer_id(&self, driver: &mut Driver) -> (r: Result<u64, AccelError>)
        requires
            old(driver).wf(),
        ensures
            final(driver).wf(),
            Driver::same_state(old(driver), final(driver)),
            !old(driver).ctx_alive(self.spec_ctx().id) ==> r == Err::<u64, AccelError>(
                AccelError::ContextError,
            ),
            (old(driver).ctx_alive(self.spec_ctx().id) && self.live_in(old(driver))) ==> r == Ok::<
                u64,
                AccelError,
            >(self.spec_id()),
    {
        match self.get_attr(driver) {
            Ok(rec) => Ok(rec.id),
            Err(e) => Err(e),
        }
    }

    /// Whether the allocation is managed by the unified memory system.
    pub fn is_managed(&self, driver: &mut Driver) -> (r: Result<bool, AccelError>)
        requires
            old(driver).wf(),
        ensures
            final(driver).wf(),
            Driver::same_state(old(driver), final(driver)),
            !old(driver).ctx_alive(self.spec_ctx().id) ==> r == Err::<bool, AccelError>(
                AccelError::ContextError,
            ),
            (old(driver).ctx_alive(self.spec_ctx().id) && self.live_in(old(driver))) ==> r == Ok::<
                bool,
                AccelError,
            >(self.spec_managed()),
    {
        match self.get_attr(driver) {
            Ok(rec) => Ok(rec.managed),
            Err(e) => Err(e),
        }
    }

    /// The memory kind backing the allocation's address: device memory.
    pub fn memory_type(&self, driver: &mut Driver) -> (r: Result<MemoryType, AccelError>)
        requires
            old(driver).wf(),
        ensures
            final(driver).wf(),
            Driver::same_state(old(driver), final(driver)),
            !old(driver).ctx_alive(self.spec_ctx().id) ==> r == Err::<MemoryType, AccelError>(
                AccelError::ContextError,
            ),
            (old(driver).ctx_alive(self.spec_ctx().id) && self.live_in(old(driver))) ==> r == Ok::<
                MemoryType,
                AccelError,
            >(MemoryType::Device),
    {
        match self.get_attr(driver) {
            Ok(rec) => Ok(rec.kind),
            Err(e) => Err(e),
        }
    }

    /// Whether the address is mapped to a backing allocation; true for every
    /// live handle.
    pub fn is_mapped(&self, driver: &mut Driver) -> (r: Result<bool, AccelError>)
        requires
            old(driver).wf(),
        ensures
            final(driver).wf(),
            Driver::same_state(old(driver), final(driver)),
            !old(driver).ctx_alive(self.spec_ctx().id) ==> r == Err::<bool, AccelError>(
                AccelError::ContextError,
            ),
            (old(driver).ctx_alive(self.spec_ctx().id) && self.live_in(old(driver))) ==> r == Ok::<
                bool,
                AccelError,
            >(true),
    {
        match self.get_attr(driver) {
            Ok(rec) => {
                let _ = rec;
                Ok(true)
            },
            Err(e) => Err(e),
        }
    }

    /// Shared pointer-attribute lookup of the queries above.
    fn get_attr(&self, driver: &mut Driver) -> (r: Result<crate::driver::AllocRecord, AccelError>)
        requires
            old(driver).wf(),
        ensures
            final(driver).wf(),
            Driver::same_state(old(driver), final(driver)),
            !old(driver).ctx_alive(self.spec_ctx().id) ==> r == Err::<
                crate::driver::AllocRecord,
                AccelError,
            >(AccelError::ContextError),
            (old(driver).ctx_alive(self.spec_ctx().id) && self.live_in(old(driver))) ==> (r
                matches Ok(rec) && rec.id == self.spec_id() && rec.kind == MemoryType::Device
                && rec.managed == self.spec_managed()),
    {
        match crate::memory::pointer_attribute(driver, &self.ctx, self.addr) {
            Ok(rec) => {
                proof {
                    if self.live_in(old(driver)) {
                        let own = crate::driver::AllocRecord {
                            id: self.spec_id(),
                            addr: self.spec_head(),
                            bytes: self.spec_len(),
                            kind: MemoryType::Device,
                            managed: self.spec_managed(),
                            device: old(driver).contexts@[self.spec_ctx().id as int].device,
                        };
                        old(driver).lemma_addr_unique(rec, own);
                    }
                }
                Ok(rec)
            },
            Err(e) => Err(e),
        }
    }

    /// Release the allocation: its registry entry is removed and its bytes
    /// return to the device's pool. Fails with a context error when the
    /// handle's context is dead; the allocation is then abandoned.
    pub fn free(self, driver: &mut Driver) -> (r: Result<(), AccelError>)
        requires
            old(driver).wf(),
        ensures
            final(driver).wf(),
            final(driver).ctx_state() == old(driver).ctx_state(),
            final(driver).module_state() == old(driver).module_state(),
            final(driver).stream_state() == old(driver).stream_state(),
            final(driver).launch_log() == old(driver).launch_log(),
            r is Ok <==> old(driver).ctx_alive(self.spec_ctx().id),
            r is Err ==> r == Err::<(), AccelError>(AccelError::ContextError)
                && Driver::same_state(old(driver), final(driver)),
            r is Ok ==> crate::memory::free_effects(
                old(driver),
                final(driver),
                self.spec_head(),
            ),
            r is Ok ==> forall|i: int|
                0 <= i < final(driver).allocations@.len()
                    ==> (#[trigger] final(driver).allocations@[i]).addr != self.spec_head(),
    {
        crate::memory::free_registered(driver, &self.ctx, self.addr)
    }
}

/// Shared allocation path of [`DeviceMemory::non_managed`] and
/// [`DeviceMemory::managed`].
fn raw_alloc(
    driver: &mut Driver,
    ctx: &Context,
    size: usize,
    managed: bool,
    api_name: &str,
) -> (r: Result<DeviceMemory, AccelError>)
    requires
        old(driver).wf(),
    ensures
        final(driver).wf(),
        r is Ok <==> (size >= 1 && old(driver).ctx_alive(ctx.id) && old(driver).can_alloc(
            ctx.id,
            size,
            MemoryType::Device,
        )),
        r matches Ok(m) ==> DeviceMemory::raw_alloc_post(
            old(driver),
            final(driver),
            *ctx,
            size,
            managed,
            &m,
        ),
        r is Err ==> Driver::same_state(old(driver), final(driver)),
        size == 0 ==> (r matches Err(AccelError::CUDAError { api_name: n, error }) && n@
            == api_name@ && error == CUDA_ERROR_INVALID_VALUE),
        (size >= 1 && !old(driver).ctx_alive(ctx.id)) ==> r == Err::<DeviceMemory, AccelError>(
            AccelError::ContextError,
        ),
        (size >= 1 && old(driver).ctx_alive(ctx.id) && !old(driver).can_alloc(
            ctx.id,
            size,
            MemoryType::Device,
        )) ==> (r matches Err(AccelError::CUDAError { api_name: n, error }) && n@ == api_name@
            && error == crate::error::CUDA_ERROR_OUT_OF_MEMORY),
{
    if size == 0 {
        match check(CUDA_ERROR_INVALID_VALUE, api_name) {
            Ok(()) => {
                Err(AccelError::ContextError)
            },
            Err(e) => Err(e),
        }
    } else {
        let g = match guard(driver, ctx) {
            Ok(g) => g,
            Err(e) => {
                return Err(e);
            },
        };
        let (status, addr, id) = driver.mem_alloc(ctx.id, size, MemoryType::Device, managed);
        release(driver, g);
        match check(status, api_name) {
            Ok(()) => {
                let m = DeviceMemory { ctx: *ctx, addr, id, size, managed };
                proof {
                    assert(driver.allocations@[driver.allocations@.len() - 1] == (
                    crate::driver::AllocRecord {
                        id: m.spec_id(),
                        addr: m.spec_head(),
                        bytes: m.spec_len(),
                        kind: MemoryType::Device,
                        managed: m.spec_managed(),
                        device: driver.contexts@[m.spec_ctx().id as int].device,
                    }));
                }
                Ok(m)
            },
            Err(e) => Err(e),
        }
    }
}

} // verus!
