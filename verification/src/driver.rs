//! Explicit image of the device driver's process-global state.
//!
//! The driver's entry points form a fixed catalog of fallible calls: each one
//! here is a method returning a raw status code (and, for "allocate and
//! output" calls, an out-value), with its effect on the global state stated
//! and proved. [`crate::error::check`] is the single place those codes are
//! interpreted.
//!
//! The state an entry point touches — which context is current on the calling
//! thread, the allocation registry behind the unified address space, each
//! device's memory pool, the module cache, the default stream — is ambient
//! native state in a real process. Here it is one explicit [`Driver`] value
//! that every operation threads, so that the currency discipline and the
//! registry's invariants are checked rather than assumed.

pub mod memory;

use vstd::prelude::*;

use crate::block::Block;
use crate::error::{
    CUDA_ERROR_INVALID_CONTEXT, CUDA_ERROR_INVALID_HANDLE, CUDA_ERROR_INVALID_VALUE,
    CUDA_ERROR_OUT_OF_MEMORY, CUDA_SUCCESS,
};
use crate::execution::KernelParam;
use crate::grid::Grid;
use crate::memory::MemoryType;

verus! {

/// Lowest virtual address the allocator hands out; addresses below it never
/// name an allocation, so 0 is never a valid head address.
pub const UNIFIED_BASE_ADDR: u64 = 4096;

/// Device bytes a context reserves for its own bookkeeping when it is
/// created, returned when it is destroyed.
pub const CONTEXT_FOOTPRINT: usize = 16777216;

/// One device's memory pool, in bytes.
#[derive(Clone, Copy, PartialEq, Eq, Structural)]
pub struct DeviceState {
    /// Size of the pool.
    pub total: usize,
    /// Bytes not yet reserved by a context or an allocation.
    pub free: usize,
}

/// One execution context: its device, whether it is still alive, and the
/// bytes it reserved at creation.
#[derive(Clone, Copy, PartialEq, Eq, Structural)]
pub struct ContextState {
    pub device: usize,
    pub alive: bool,
    pub footprint: usize,
}

/// Registry entry of one allocation in the unified address space; the source
/// of every pointer-attribute query.
#[derive(Clone, Copy, PartialEq, Eq, Structural)]
pub struct AllocRecord {
    /// Driver-assigned identity, distinct from every other allocation's even
    /// after an address is reused.
    pub id: u64,
    /// Head address.
    pub addr: u64,
    /// Length in bytes, at least 1.
    pub bytes: usize,
    /// Which kind of memory backs the address.
    pub kind: MemoryType,
    /// Whether the allocation participates in unified addressing management.
    pub managed: bool,
    /// The device whose pool the allocation is charged to.
    pub device: usize,
}

/// One entry of the module cache: a compiled kernel loaded under its entry
/// function's name.
pub struct ModuleEntry {
    pub name: String,
    /// Function handle of the module's entry point.
    pub func: u64,
}

/// One dispatched kernel call, as the driver received it.
pub struct LaunchRecord {
    pub func: u64,
    pub grid: Grid,
    pub block: Block,
    /// Dynamic shared memory of the call; always 0, reserved for future use.
    pub shared_bytes: u32,
    /// The marshaled arguments, in declaration order.
    pub params: Vec<KernelParam>,
}

/// The driver's process-global state. The fields are public so that callers
/// can inspect the state (tests read the dispatch log, for instance); every
/// operation requires and preserves the invariant [`Driver::wf`].
pub struct Driver {
    /// The devices the driver enumerates.
    pub devices: Vec<DeviceState>,
    /// Every context ever created, indexed by its handle.
    pub contexts: Vec<ContextState>,
    /// The context currently bound to the calling thread, if any.
    pub current: Option<usize>,
    /// The live allocations of the unified address space.
    pub allocations: Vec<AllocRecord>,
    /// Next allocation identity; never reused.
    pub next_buffer_id: u64,
    /// Next head address; the space is never reused.
    pub next_addr: u64,
    /// Compiled kernels already loaded, cached by entry-point name.
    pub modules: Vec<ModuleEntry>,
    /// Next kernel function handle.
    pub next_func: u64,
    /// Every kernel call dispatched so far, in order.
    pub launches: Vec<LaunchRecord>,
    /// Operations issued to the default stream.
    pub stream_issued: u64,
    /// Operations of the default stream that have completed.
    pub stream_completed: u64,
}

impl Driver {
    /// True of a context handle that names a live context.
    pub open spec fn ctx_alive(&self, id: usize) -> bool {
        id < self.contexts@.len() && self.contexts@[id as int].alive
    }

    /// True of a context handle the current-context cell may hold.
    pub open spec fn current_ok(&self) -> bool {
        match self.current {
            Some(c) => self.ctx_alive(c),
            None => true,
        }
    }

    /// The registry's invariants: identities and head addresses are unique,
    /// every allocation lies below the allocator's watermark and is charged
    /// to a device the driver has.
    pub open spec fn registry_ok(&self) -> bool {
        let a = self.allocations@;
        &&& forall|i: int|
            0 <= i < a.len() ==> {
                &&& (#[trigger] a[i]).id < self.next_buffer_id
                &&& a[i].bytes >= 1
                &&& a[i].addr >= UNIFIED_BASE_ADDR
                &&& a[i].addr + a[i].bytes <= self.next_addr
                &&& a[i].device < self.devices@.len()
            }
        &&& forall|i: int, j: int|
            0 <= i < a.len() && 0 <= j < a.len() && i != j ==> #[trigger] a[i].id != #[trigger] a[j].id
        &&& forall|i: int, j: int|
            0 <= i < a.len() && 0 <= j < a.len() && i != j ==> #[trigger] a[i].addr != #[trigger] a[j].addr
    }

    /// The module cache's invariants: names are distinct, handles lie below
    /// the handle counter.
    pub open spec fn modules_ok(&self) -> bool {
        let m = self.modules@;
        &&& forall|i: int| 0 <= i < m.len() ==> (#[trigger] m[i]).func < self.next_func
        &&& forall|i: int, j: int|
            0 <= i < m.len() && 0 <= j < m.len() && i != j ==> #[trigger] m[i].name@ != #[trigger] m[j].name@
    }

    /// The driver's global invariant; every entry point preserves it.
    pub open spec fn wf(&self) -> bool {
        &&& self.current_ok()
        &&& self.registry_ok()
        &&& self.modules_ok()
        &&& self.next_addr >= UNIFIED_BASE_ADDR
        &&& forall|i: int|
            0 <= i < self.contexts@.len() ==> (#[trigger] self.contexts@[i]).device < self.devices@.len()
        &&& forall|d: int|
            0 <= d < self.devices@.len() ==> (#[trigger] self.devices@[d]).free <= self.devices@[d].total
        &&& self.stream_completed <= self.stream_issued
    }

    /// The memory side of the state: registry, pools and both allocator
    /// counters. Operations that only read memory keep it unchanged.
    pub open spec fn mem_state(&self) -> (Seq<AllocRecord>, Seq<DeviceState>, u64, u64) {
        (self.allocations@, self.devices@, self.next_buffer_id, self.next_addr)
    }

    /// The context side of the state: the context table and the current cell.
    pub open spec fn ctx_state(&self) -> (Seq<ContextState>, Option<usize>) {
        (self.contexts@, self.current)
    }

    /// The context table alone, which guarding and restoring do not touch.
    pub open spec fn ctx_table(&self) -> Seq<ContextState> {
        self.contexts@
    }

    /// The module cache side of the state.
    pub open spec fn module_state(&self) -> (Seq<ModuleEntry>, u64) {
        (self.modules@, self.next_func)
    }

    /// The default stream's counters.
    pub open spec fn stream_state(&self) -> (u64, u64) {
        (self.stream_issued, self.stream_completed)
    }

    /// The dispatch log.
    pub open spec fn launch_log(&self) -> Seq<LaunchRecord> {
        self.launches@
    }

    /// True when two driver states are observationally the same: an operation
    /// with this frame binds and restores contexts, and leaves every
    /// component as it found it.
    pub open spec fn same_state(a: &Driver, b: &Driver) -> bool {
        &&& b.ctx_state() == a.ctx_state()
        &&& b.mem_state() == a.mem_state()
        &&& b.module_state() == a.module_state()
        &&& b.stream_state() == a.stream_state()
        &&& b.launch_log() == a.launch_log()
    }

    /// A fresh driver over `device_count` devices, each with a pool of
    /// `memory_per_device` bytes: no context, no allocation, nothing loaded
    /// or in flight.
    pub fn new(device_count: usize, memory_per_device: usize) -> (d: Driver)
        ensures
            d.wf(),
            d.devices@.len() == device_count,
            forall|i: int|
                0 <= i < device_count ==> #[trigger] d.devices@[i] == (DeviceState {
                    total: memory_per_device,
                    free: memory_per_device,
                }),
            d.contexts@.len() == 0,
            d.current is None,
            d.allocations@.len() == 0,
            d.next_buffer_id == 0,
            d.next_addr == UNIFIED_BASE_ADDR,
            d.modules@.len() == 0,
            d.next_func == 0,
            d.launch_log().len() == 0,
            d.stream_state() == (0u64, 0u64),
    {
        Driver {
            devices: vec![DeviceState { total: memory_per_device, free: memory_per_device }; device_count],
            contexts: Vec::new(),
            current: None,
            allocations: Vec::new(),
            next_buffer_id: 0,
            next_addr: UNIFIED_BASE_ADDR,
            modules: Vec::new(),
            next_func: 0,
            launches: Vec::new(),
            stream_issued: 0,
            stream_completed: 0,
        }
    }

    /// Number of devices the driver enumerates.
    pub fn device_count(&self) -> (n: usize)
        ensures
            n == self.devices@.len(),
    {
        self.devices.len()
    }

    /// Entry point: create a context on `device`, reserving its footprint
    /// from the device's pool, and make it the thread-current context.
    pub fn ctx_create(&mut self, device: usize) -> (r: (u32, usize))
        requires
            old(self).wf(),
            device < old(self).devices@.len(),
        ensures
            final(self).wf(),
            r.0 == CUDA_SUCCESS <==> CONTEXT_FOOTPRINT <= old(self).devices@[device as int].free,
            r.0 == CUDA_SUCCESS ==> {
                &&& r.1 == old(self).contexts@.len()
                &&& final(self).contexts@ == old(self).contexts@.push(ContextState {
                    device,
                    alive: true,
                    footprint: CONTEXT_FOOTPRINT,
                })
                &&& final(self).current == Some(r.1)
                &&& final(self).devices@ == old(self).devices@.update(device as int, DeviceState {
                    total: old(self).devices@[device as int].total,
                    free: (old(self).devices@[device as int].free - CONTEXT_FOOTPRINT) as usize,
                })
            },
            r.0 != CUDA_SUCCESS ==> r.0 == CUDA_ERROR_OUT_OF_MEMORY && *final(self) == *old(self),
            final(self).allocations@ == old(self).allocations@,
            final(self).next_buffer_id == old(self).next_buffer_id,
            final(self).next_addr == old(self).next_addr,
            final(self).module_state() == old(self).module_state(),
            final(self).stream_state() == old(self).stream_state(),
            final(self).launch_log() == old(self).launch_log(),
    {
        let pool = self.devices[device];
        if CONTEXT_FOOTPRINT <= pool.free {
            let id = self.contexts.len();
            self.contexts.push(ContextState { device, alive: true, footprint: CONTEXT_FOOTPRINT });
            self.devices[device] = DeviceState { total: pool.total, free: pool.free - CONTEXT_FOOTPRINT };
            self.current = Some(id);
            (CUDA_SUCCESS, id)
        } else {
            (CUDA_ERROR_OUT_OF_MEMORY, 0)
        }
    }

    /// Entry point: destroy a context. Its footprint returns to the device's
    /// pool (never past the pool's size); if it was current, the thread is
    /// left with no current context.
    pub fn ctx_destroy(&mut self, id: usize) -> (status: u32)
        requires
            old(self).wf(),
        ensures
            final(self).wf(),
            status == CUDA_SUCCESS <==> old(self).ctx_alive(id),
            status != CUDA_SUCCESS ==> status == CUDA_ERROR_INVALID_CONTEXT && *final(self) == *old(self),
            status == CUDA_SUCCESS ==> {
                &&& final(self).contexts@ == old(self).contexts@.update(id as int, ContextState {
                    alive: false,
                    ..old(self).contexts@[id as int]
                })
                &&& final(self).current == (if old(self).current == Some(id) {
                    Option::<usize>::None
                } else {
                    old(self).current
                })
                &&& final(self).devices@ == old(self).devices@.update(
                    old(self).contexts@[id as int].device as int,
                    DeviceState {
                        total: old(self).devices@[old(self).contexts@[id as int].device as int].total,
                        free: Self::returned_free(
                            old(self).devices@[old(self).contexts@[id as int].device as int],
                            old(self).contexts@[id as int].footprint,
                        ),
                    },
                )
            },
            final(self).allocations@ == old(self).allocations@,
            final(self).next_buffer_id == old(self).next_buffer_id,
            final(self).next_addr == old(self).next_addr,
            final(self).module_state() == old(self).module_state(),
            final(self).stream_state() == old(self).stream_state(),
            final(self).launch_log() == old(self).launch_log(),
    {
        if id < self.contexts.len() && self.contexts[id].alive {
            let c = self.contexts[id];
            self.contexts[id] = ContextState { device: c.device, alive: false, footprint: c.footprint };
            let pool = self.devices[c.device];
            let returned = if c.footprint <= pool.total - pool.free {
                pool.free + c.footprint
            } else {
                pool.total
            };
            self.devices[c.device] = DeviceState { total: pool.total, free: returned };
            match self.current {
                Some(cur) => {
                    if cur == id {
                        self.current = None;
                    }
                },
                None => {},
            }
            CUDA_SUCCESS
        } else {
            CUDA_ERROR_INVALID_CONTEXT
        }
    }

    /// Entry point: bind a context to the calling thread.
    pub fn ctx_set_current(&mut self, id: usize) -> (status: u32)
        requires
            old(self).wf(),
        ensures
            final(self).wf(),
            status == CUDA_SUCCESS <==> old(self).ctx_alive(id),
            status == CUDA_SUCCESS ==> final(self).current == Some(id),
            status != CUDA_SUCCESS ==> status == CUDA_ERROR_INVALID_CONTEXT && *final(self) == *old(self),
            final(self).ctx_table() == old(self).ctx_table(),
            final(self).mem_state() == old(self).mem_state(),
            final(self).module_state() == old(self).module_state(),
            final(self).stream_state() == old(self).stream_state(),
            final(self).launch_log() == old(self).launch_log(),
    {
        if id < self.contexts.len() && self.contexts[id].alive {
            self.current = Some(id);
            CUDA_SUCCESS
        } else {
            CUDA_ERROR_INVALID_CONTEXT
        }
    }

    /// Entry point: restore a previously observed current-context cell (the
    /// release half of a scoped guard).
    pub fn ctx_restore(&mut self, prev: Option<usize>)
        requires
            old(self).wf(),
            prev matches Some(p) ==> old(self).ctx_alive(p),
        ensures
            final(self).wf(),
            final(self).current == prev,
            final(self).ctx_table() == old(self).ctx_table(),
            final(self).mem_state() == old(self).mem_state(),
            final(self).module_state() == old(self).module_state(),
            final(self).stream_state() == old(self).stream_state(),
            final(self).launch_log() == old(self).launch_log(),
    {
        self.current = prev;
    }

    /// Entry point: report the free and total memory of one device's pool,
    /// in bytes.
    pub fn mem_get_info(&self, device: usize) -> (r: (usize, usize))
        requires
            device < self.devices@.len(),
        ensures
            r.0 == self.devices@[device as int].free,
            r.1 == self.devices@[device as int].total,
    {
        let pool = self.devices[device];
        (pool.free, pool.total)
    }

    /// Entry point: allocate `bytes` bytes of the given kind on the device of
    /// the live context `ctx_id`, registering the allocation in the unified
    /// address space. Returns a status, the head address and the allocation's
    /// identity.
    pub fn mem_alloc(&mut self, ctx_id: usize, bytes: usize, kind: MemoryType, managed: bool) -> (r:
        (u32, u64, u64))
        requires
            old(self).wf(),
            old(self).ctx_alive(ctx_id),
            bytes >= 1,
        ensures
            final(self).wf(),
            final(self).ctx_state() == old(self).ctx_state(),
            final(self).module_state() == old(self).module_state(),
            final(self).stream_state() == old(self).stream_state(),
            final(self).launch_log() == old(self).launch_log(),
            r.0 == CUDA_SUCCESS <==> old(self).can_alloc(ctx_id, bytes, kind),
            r.0 != CUDA_SUCCESS ==> r.0 == CUDA_ERROR_OUT_OF_MEMORY && *final(self) == *old(self),
            r.0 == CUDA_SUCCESS ==> {
                let device = old(self).contexts@[ctx_id as int].device;
                let pool = old(self).devices@[device as int];
                &&& r.1 == old(self).next_addr
                &&& r.2 == old(self).next_buffer_id
                &&& final(self).allocations@ == old(self).allocations@.push(AllocRecord {
                    id: r.2,
                    addr: r.1,
                    bytes,
                    kind,
                    managed,
                    device,
                })
                &&& final(self).next_buffer_id == old(self).next_buffer_id + 1
                &&& final(self).next_addr == old(self).next_addr + bytes
                &&& final(self).devices@ == (if kind.is_device_side() {
                    old(self).devices@.update(device as int, DeviceState {
                        total: pool.total,
                        free: (pool.free - bytes) as usize,
                    })
                } else {
                    old(self).devices@
                })
            },
    {
        let device = self.contexts[ctx_id].device;
        let pool = self.devices[device];
        let device_side = matches!(kind, MemoryType::Device | MemoryType::Array);
        if self.next_buffer_id == u64::MAX {
            return (CUDA_ERROR_OUT_OF_MEMORY, 0, 0);
        }
        if bytes as u64 > u64::MAX - self.next_addr {
            return (CUDA_ERROR_OUT_OF_MEMORY, 0, 0);
        }
        if device_side && bytes > pool.free {
            return (CUDA_ERROR_OUT_OF_MEMORY, 0, 0);
        }
        let addr = self.next_addr;
        let id = self.next_buffer_id;
        self.allocations.push(AllocRecord { id, addr, bytes, kind, managed, device });
        self.next_buffer_id = id + 1;
        self.next_addr = addr + bytes as u64;
        if device_side {
            self.devices[device] = DeviceState { total: pool.total, free: pool.free - bytes };
        }
        (CUDA_SUCCESS, addr, id)
    }

    /// True when an allocation of `bytes` bytes of the given kind by the live
    /// context `ctx_id` succeeds: the address space has room, and a
    /// device-side kind fits in the device's pool.
    pub open spec fn can_alloc(&self, ctx_id: usize, bytes: usize, kind: MemoryType) -> bool {
        let device = self.contexts@[ctx_id as int].device;
        &&& self.next_buffer_id < u64::MAX
        &&& self.next_addr + bytes <= u64::MAX
        &&& (kind.is_device_side() ==> bytes <= self.devices@[device as int].free)
    }

    /// Entry point: release the allocation whose head address is `addr`,
    /// removing its registry entry and returning a device-side kind's bytes
    /// to its device's pool (never past the pool's size).
    pub fn mem_free(&mut self, addr: u64) -> (status: u32)
        requires
            old(self).wf(),
        ensures
            final(self).wf(),
            final(self).ctx_state() == old(self).ctx_state(),
            final(self).module_state() == old(self).module_state(),
            final(self).stream_state() == old(self).stream_state(),
            final(self).launch_log() == old(self).launch_log(),
            final(self).next_buffer_id == old(self).next_buffer_id,
            final(self).next_addr == old(self).next_addr,
            status == CUDA_SUCCESS <==> (exists|i: int|
                0 <= i < old(self).allocations@.len() && (#[trigger] old(self).allocations@[i]).addr
                    == addr),
            status != CUDA_SUCCESS ==> status == CUDA_ERROR_INVALID_VALUE && *final(self) == *old(
                self,
            ),
            status == CUDA_SUCCESS ==> (exists|i: int|
                {
                    &&& 0 <= i < old(self).allocations@.len()
                    &&& (#[trigger] old(self).allocations@[i]).addr == addr
                    &&& final(self).allocations@ == old(self).allocations@.remove(i)
                    &&& final(self).devices@ == (if old(self).allocations@[i].kind.is_device_side() {
                        old(self).devices@.update(old(self).allocations@[i].device as int, DeviceState {
                            total: old(self).devices@[old(self).allocations@[i].device as int].total,
                            free: Self::returned_free(
                                old(self).devices@[old(self).allocations@[i].device as int],
                                old(self).allocations@[i].bytes,
                            ),
                        })
                    } else {
                        old(self).devices@
                    })
                }),
    {
        let mut i: usize = 0;
        while i < self.allocations.len()
            invariant
                self == old(self),
                self.wf(),
                i <= self.allocations@.len(),
                forall|j: int| 0 <= j < i ==> (#[trigger] self.allocations@[j]).addr != addr,
            decreases self.allocations@.len() - i,
        {
            if self.allocations[i].addr == addr {
                let rec = self.allocations[i];
                proof {
                    assert(old(self).allocations@[i as int] == rec);
                    old(self).allocations@.remove_ensures(i as int);
                }
                self.allocations.remove(i);
                proof {
                    let a = old(self).allocations@;
                    let b = self.allocations@;
                    assert forall|k: int| 0 <= k < b.len() implies #[trigger] b[k] == (if k
                        < i as int {
                        a[k]
                    } else {
                        a[k + 1]
                    }) by {}
                }
                if matches!(rec.kind, MemoryType::Device | MemoryType::Array) {
                    let pool = self.devices[rec.device];
                    let restored = if rec.bytes <= pool.total - pool.free {
                        pool.free + rec.bytes
                    } else {
                        pool.total
                    };
                    self.devices[rec.device] = DeviceState { total: pool.total, free: restored };
                }
                return CUDA_SUCCESS;
            }
            i = i + 1;
        }
        CUDA_ERROR_INVALID_VALUE
    }

    /// The free bytes of a pool after `bytes` return to it, capped at the
    /// pool's size.
    pub open spec fn returned_free(pool: DeviceState, bytes: usize) -> usize {
        if pool.free + bytes <= pool.total {
            (pool.free + bytes) as usize
        } else {
            pool.total
        }
    }

    /// Entry point: look up the allocation backing an address of the unified
    /// address space, the ground truth of every pointer-attribute query.
    pub fn find_alloc(&self, addr: u64) -> (r: Option<AllocRecord>)
        ensures
            r matches Some(rec) ==> rec.addr == addr && (exists|i: int|
                0 <= i < self.allocations@.len() && #[trigger] self.allocations@[i] == rec),
            r is None <==> (forall|i: int|
                0 <= i < self.allocations@.len() ==> (#[trigger] self.allocations@[i]).addr != addr),
    {
        let mut i: usize = 0;
        while i < self.allocations.len()
            invariant
                i <= self.allocations@.len(),
                forall|j: int| 0 <= j < i ==> (#[trigger] self.allocations@[j]).addr != addr,
            decreases self.allocations@.len() - i,
        {
            if self.allocations[i].addr == addr {
                return Some(self.allocations[i]);
            }
            i = i + 1;
        }
        None
    }

    /// Entry point: load a compiled kernel under its entry-point name, or
    /// hand back the already-loaded function handle — modules are loaded once
    /// per process and cached by name.
    pub fn module_get_or_load(&mut self, name: &String) -> (r: (u32, u64))
        requires
            old(self).wf(),
            old(self).next_func < u64::MAX,
        ensures
            final(self).wf(),
            final(self).ctx_state() == old(self).ctx_state(),
            final(self).mem_state() == old(self).mem_state(),
            final(self).stream_state() == old(self).stream_state(),
            final(self).launch_log() == old(self).launch_log(),
            r.0 == CUDA_SUCCESS,
            r.1 < final(self).next_func,
            (exists|i: int|
                0 <= i < old(self).modules@.len() && (#[trigger] old(self).modules@[i]).name@
                    == name@) ==> {
                &&& *final(self) == *old(self)
                &&& exists|i: int|
                    0 <= i < old(self).modules@.len() && (#[trigger] old(self).modules@[i]).name@
                        == name@ && r.1 == old(self).modules@[i].func
            },
            (forall|i: int|
                0 <= i < old(self).modules@.len() ==> (#[trigger] old(self).modules@[i]).name@
                    != name@) ==> {
                &&& r.1 == old(self).next_func
                &&& final(self).next_func == old(self).next_func + 1
                &&& final(self).modules@.len() == old(self).modules@.len() + 1
                &&& final(self).modules@.subrange(0, old(self).modules@.len() as int) == old(
                    self,
                ).modules@
                &&& final(self).modules@.last().name@ == name@
                &&& final(self).modules@.last().func == r.1
            },
    {
        let mut i: usize = 0;
        while i < self.modules.len()
            invariant
                self == old(self),
                self.wf(),
                i <= self.modules@.len(),
                forall|j: int| 0 <= j < i ==> (#[trigger] self.modules@[j]).name@ != name@,
            decreases self.modules@.len() - i,
        {
            if self.modules[i].name == *name {
                return (CUDA_SUCCESS, self.modules[i].func);
            }
            i = i + 1;
        }
        let func = self.next_func;
        self.modules.push(ModuleEntry { name: name.clone(), func });
        self.next_func = func + 1;
        assert(final(self).modules@.subrange(0, old(self).modules@.len() as int) =~= old(
            self,
        ).modules@);
        (CUDA_SUCCESS, func)
    }

    /// Entry point: dispatch a kernel call on the default stream and block
    /// until it completes. Requires a current context, a function handle some
    /// loaded module produced, and a positive extent on every geometry axis;
    /// the call is recorded in dispatch order.
    pub fn launch_kernel(&mut self, func: u64, grid: Grid, block: Block, params: Vec<KernelParam>) -> (status:
        u32)
        requires
            old(self).wf(),
        ensures
            final(self).wf(),
            final(self).ctx_state() == old(self).ctx_state(),
            final(self).mem_state() == old(self).mem_state(),
            final(self).module_state() == old(self).module_state(),
            final(self).stream_state() == old(self).stream_state(),
            status == CUDA_SUCCESS <==> (old(self).current is Some && func < old(self).next_func
                && grid.wf() && block.wf()),
            old(self).current is None ==> status == CUDA_ERROR_INVALID_CONTEXT,
            (old(self).current is Some && func >= old(self).next_func) ==> status
                == CUDA_ERROR_INVALID_HANDLE,
            (old(self).current is Some && func < old(self).next_func && !(grid.wf() && block.wf()))
                ==> status == CUDA_ERROR_INVALID_VALUE,
            status == CUDA_SUCCESS ==> final(self).launches@ == old(self).launches@.push(
                (LaunchRecord { func, grid, block, shared_bytes: 0, params }),
            ),
            status != CUDA_SUCCESS ==> final(self).launches@ == old(self).launches@,
    {
        if matches!(self.current, None) {
            return CUDA_ERROR_INVALID_CONTEXT;
        }
        if func >= self.next_func {
            return CUDA_ERROR_INVALID_HANDLE;
        }
        if grid.x < 1 || grid.y < 1 || grid.z < 1 || block.x < 1 || block.y < 1 || block.z < 1 {
            return CUDA_ERROR_INVALID_VALUE;
        }
        self.launches.push(LaunchRecord { func, grid, block, shared_bytes: 0, params });
        CUDA_SUCCESS
    }

    /// Entry point: enqueue one asynchronous operation on the default stream,
    /// returning its ticket. A ticket is completed once the stream has been
    /// synchronized past it.
    pub fn stream_issue(&mut self) -> (ticket: u64)
        requires
            old(self).wf(),
            old(self).stream_issued < u64::MAX,
        ensures
            final(self).wf(),
            final(self).ctx_state() == old(self).ctx_state(),
            final(self).mem_state() == old(self).mem_state(),
            final(self).module_state() == old(self).module_state(),
            final(self).launch_log() == old(self).launch_log(),
            ticket == old(self).stream_issued + 1,
            final(self).stream_issued == ticket,
            final(self).stream_completed == old(self).stream_completed,
    {
        self.stream_issued = self.stream_issued + 1;
        self.stream_issued
    }

    /// Entry point: block until every operation issued to the default stream
    /// has completed.
    pub fn stream_synchronize(&mut self)
        requires
            old(self).wf(),
        ensures
            final(self).wf(),
            final(self).ctx_state() == old(self).ctx_state(),
            final(self).mem_state() == old(self).mem_state(),
            final(self).module_state() == old(self).module_state(),
            final(self).launch_log() == old(self).launch_log(),
            final(self).stream_issued == old(self).stream_issued,
            final(self).stream_completed == old(self).stream_issued,
    {
        self.stream_completed = self.stream_issued;
    }

    /// Two registry records with one head address are one record: the
    /// registry's addresses are unique while the driver is well-formed.
    pub proof fn lemma_addr_unique(&self, r1: AllocRecord, r2: AllocRecord)
        requires
            self.wf(),
            exists|i: int|
                0 <= i < self.allocations@.len() && #[trigger] self.allocations@[i] == r1,
            exists|i: int|
                0 <= i < self.allocations@.len() && #[trigger] self.allocations@[i] == r2,
            r1.addr == r2.addr,
        ensures
            r1 == r2,
    {
        let a = self.allocations@;
        let i = choose|i: int| 0 <= i < a.len() && #[trigger] a[i] == r1;
        let j = choose|j: int| 0 <= j < a.len() && #[trigger] a[j] == r2;
        assert(i == j);
    }

    /// Entry point: non-blocking query whether the stream has completed the
    /// operation with the given ticket.
    pub fn stream_is_done(&self, ticket: u64) -> (done: bool)
        ensures
            done == (ticket <= self.stream_completed),
    {
        ticket <= self.stream_completed
    }
}

} // verus!
