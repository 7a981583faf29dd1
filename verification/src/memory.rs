//! Memory management: one polymorphic interface over the four memory kinds.
//!
//! All memories live in a single unified 64-bit address space, so the kind
//! backing a pointer can be queried from the driver by address alone.
//!
//! | kind                 | where it lives | as slice | description                                  |
//! |:---------------------|:--------------:|:--------:|:---------------------------------------------|
//! | `RegisteredMemory`   | host           | yes      | caller-owned memory registered with the driver |
//! | `PageLockedMemory`   | host           | yes      | host memory pinned against OS paging          |
//! | `DeviceMemory`       | device         | yes      | one span of device memory, unified addressing |
//! | `Array`              | device         | no       | opaque multi-dimensional device allocation    |

pub mod array;
pub mod device;
pub mod page_locked;
pub mod registered;
pub mod scalar;

use vstd::prelude::*;

use crate::context::Context;
use crate::driver::{AllocRecord, DeviceState, Driver};
use crate::error::AccelError;
use crate::memory::scalar::Scalar;
use crate::stream::CopyFuture;

verus! {

/// Which of the four kinds a memory handle is; callers use it to pick copy
/// strategies.
#[derive(Clone, Copy, Debug, PartialEq, Eq, Structural)]
pub enum MemoryType {
    /// Host memory not managed by the driver's memory system.
    Host,
    /// Host memory managed by the driver's memory system (page-locked and
    /// registered memory).
    PageLocked,
    /// Device memory.
    Device,
    /// Array memory.
    Array,
}

impl MemoryType {
    /// True of the kinds that live on the device and are charged against the
    /// device's memory pool.
    pub open spec fn is_device_side(&self) -> bool {
        self == MemoryType::Device || self == MemoryType::Array
    }
}

/// Has a unique head address in the unified address space, an element count,
/// and a memory kind.
pub trait Memory: Sized {
    /// Scalar type of each element.
    type Elem: Scalar;

    /// The handle's elements, as the host observes them.
    spec fn contents(&self) -> Seq<Self::Elem>;

    /// Which of the four kinds the handle is.
    spec fn spec_kind(&self) -> MemoryType;

    /// The handle's head address.
    spec fn spec_head(&self) -> u64;

    /// The context the handle is bound to.
    spec fn spec_ctx(&self) -> Context;

    /// The driver-assigned identity of the handle's allocation.
    spec fn spec_id(&self) -> u64;

    /// Whether the handle's allocation is managed by unified addressing.
    spec fn spec_managed(&self) -> bool;

    /// The handle's internal well-formedness: a positive element count whose
    /// byte size fits the machine.
    spec fn inv(&self) -> bool;

    /// Head address of the memory, stable for the handle's lifetime.
    fn head_addr(&self) -> (a: u64)
        ensures
            a == self.spec_head(),
    ;

    /// Head address of the memory, for a slot that will be written.
    fn head_addr_mut(&mut self) -> (a: u64)
        ensures
            *final(self) == *old(self),
            a == old(self).spec_head(),
    ;

    /// Number of elements.
    fn num_elem(&self) -> (n: usize)
        ensures
            n == self.contents().len(),
    ;

    /// Byte length of the memory: element count times element size.
    fn byte_size(&self) -> (n: usize)
        requires
            self.inv(),
        ensures
            n == self.contents().len() * vstd::layout::size_of::<Self::Elem>(),
    ;

    /// Which kind the handle is; callers use it to pick copy strategies.
    fn memory_type(&self) -> (t: MemoryType)
        ensures
            t == self.spec_kind(),
    ;

    /// Fill every element with `value`. A host-side kind stores directly; a
    /// device-side kind runs under the context guard and fails with a context
    /// error when its context is dead.
    fn set(&mut self, driver: &mut Driver, value: Self::Elem) -> (r: Result<(), AccelError>)
        requires
            old(self).inv(),
            old(driver).wf(),
        ensures
            final(self).inv(),
            final(driver).wf(),
            Driver::same_state(old(driver), final(driver)),
            final(self).spec_kind() == old(self).spec_kind(),
            final(self).spec_head() == old(self).spec_head(),
            final(self).spec_ctx() == old(self).spec_ctx(),
            final(self).spec_id() == old(self).spec_id(),
            final(self).spec_managed() == old(self).spec_managed(),
            final(self).contents().len() == old(self).contents().len(),
            r is Ok <==> (old(self).spec_kind().is_device_side() ==> old(driver).ctx_alive(
                old(self).spec_ctx().id,
            )),
            r is Ok ==> final(self).contents() == Seq::new(
                old(self).contents().len(),
                |i: int| value,
            ),
            r is Err ==> final(self).contents() == old(self).contents() && r == Err::<
                (),
                AccelError,
            >(AccelError::ContextError),
    ;

    /// Zero every byte of the memory. Always expressible whatever the element
    /// width, since a zero byte pattern is granularity-agnostic; the same
    /// currency rule as [`Memory::set`] applies.
    fn set_zero_u8(&mut self, driver: &mut Driver) -> (r: Result<(), AccelError>)
        requires
            old(self).inv(),
            old(driver).wf(),
        ensures
            final(self).inv(),
            final(driver).wf(),
            Driver::same_state(old(driver), final(driver)),
            final(self).spec_kind() == old(self).spec_kind(),
            final(self).spec_head() == old(self).spec_head(),
            final(self).spec_ctx() == old(self).spec_ctx(),
            final(self).spec_id() == old(self).spec_id(),
            final(self).spec_managed() == old(self).spec_managed(),
            final(self).contents().len() == old(self).contents().len(),
            r is Ok <==> (old(self).spec_kind().is_device_side() ==> old(driver).ctx_alive(
                old(self).spec_ctx().id,
            )),
            r is Ok ==> final(self).contents() == Seq::new(
                old(self).contents().len(),
                |i: int| Self::Elem::spec_zero(),
            ),
            r is Err ==> final(self).contents() == old(self).contents() && r == Err::<
                (),
                AccelError,
            >(AccelError::ContextError),
    ;
}

/// True when two states of one handle agree on everything but the elements:
/// operations never move a handle, change its kind, context, identity or
/// element count.
pub open spec fn same_handle<M: Memory>(a: &M, b: &M) -> bool {
    &&& b.spec_kind() == a.spec_kind()
    &&& b.spec_head() == a.spec_head()
    &&& b.spec_ctx() == a.spec_ctx()
    &&& b.spec_id() == a.spec_id()
    &&& b.spec_managed() == a.spec_managed()
    &&& b.contents().len() == a.contents().len()
}

/// When a host-initiated store (fill or zero-fill) to `m` succeeds: always
/// for a host-side kind, and exactly when `m`'s context is alive for a
/// device-side kind.
pub open spec fn store_ok<M: Memory>(m: &M, d: &Driver) -> bool {
    m.spec_kind().is_device_side() ==> d.ctx_alive(m.spec_ctx().id)
}

/// The context a copy binds: the destination's for a copy into device-side
/// memory, the source's for a device-to-host copy, and none for a pure
/// host-to-host copy, which is a plain element copy without a driver call.
pub open spec fn copy_ctx<D: Memory, S: Memory>(dst: &D, src: &S) -> Option<Context> {
    if dst.spec_kind().is_device_side() {
        Some(dst.spec_ctx())
    } else if src.spec_kind().is_device_side() {
        Some(src.spec_ctx())
    } else {
        None
    }
}

/// What a checked copy from `src` into `dst` decides, in order: unequal
/// element counts fail with `SizeMismatch`; one allocation on both sides
/// fails with `AliasedCopy`; a dead context on the guarded side fails with
/// `ContextError`; otherwise the copy happens. The first two are caught
/// before any driver call is issued.
pub open spec fn copy_decision<D: Memory, S: Memory<Elem = <D as Memory>::Elem>>(
    dst: &D,
    src: &S,
    d: &Driver,
) -> Result<(), AccelError> {
    if dst.contents().len() != src.contents().len() {
        Err(
            AccelError::SizeMismatch {
                dest: dst.contents().len() as usize,
                source: src.contents().len() as usize,
            },
        )
    } else if dst.spec_head() == src.spec_head() {
        Err(AccelError::AliasedCopy)
    } else {
        match copy_ctx(dst, src) {
            Some(c) => if d.ctx_alive(c.id) {
                Ok(())
            } else {
                Err(AccelError::ContextError)
            },
            None => Ok(()),
        }
    }
}

/// True of a registry record that backs the handle `m`.
pub open spec fn matches_handle<M: Memory>(r: AllocRecord, m: &M) -> bool {
    &&& r.id == m.spec_id()
    &&& r.addr == m.spec_head()
    &&& r.bytes == m.contents().len() * vstd::layout::size_of::<M::Elem>()
    &&& r.kind == m.spec_kind()
    &&& r.managed == m.spec_managed()
}

/// True while the driver's registry holds the record backing `m`, which every
/// pointer-attribute query reads.
pub open spec fn live_in<M: Memory>(m: &M, d: &Driver) -> bool {
    exists|i: int|
        0 <= i < d.allocations@.len() && matches_handle(#[trigger] d.allocations@[i], m)
}

/// How one allocation changes the driver: a fresh record is registered at the
/// old watermark with the old next identity, both counters advance, a
/// device-side kind is charged to the context's device, and nothing else
/// moves.
pub open spec fn alloc_effects<M: Memory>(d0: &Driver, d1: &Driver, ctx: Context, m: &M) -> bool {
    let bytes = (m.contents().len() * vstd::layout::size_of::<M::Elem>()) as usize;
    let device = d0.contexts@[ctx.id as int].device;
    &&& m.spec_ctx() == ctx
    &&& m.spec_head() == d0.next_addr
    &&& m.spec_id() == d0.next_buffer_id
    &&& d1.allocations@ == d0.allocations@.push(
        AllocRecord {
            id: d0.next_buffer_id,
            addr: d0.next_addr,
            bytes,
            kind: m.spec_kind(),
            managed: m.spec_managed(),
            device,
        },
    )
    &&& d1.next_buffer_id == d0.next_buffer_id + 1
    &&& d1.next_addr == d0.next_addr + bytes
    &&& d1.contexts@ == d0.contexts@
    &&& d1.current == d0.current
    &&& d1.module_state() == d0.module_state()
    &&& d1.stream_state() == d0.stream_state()
    &&& d1.launch_log() == d0.launch_log()
    &&& d1.devices@ == (if m.spec_kind().is_device_side() {
        d0.devices@.update(
            device as int,
            DeviceState {
                total: d0.devices@[device as int].total,
                free: (d0.devices@[device as int].free - bytes) as usize,
            },
        )
    } else {
        d0.devices@
    })
}

/// Copy data from one memory handle into another, synchronously or against
/// the default stream.
pub trait Memcpy<Target: Memory<Elem = <Self as Memory>::Elem>>: Memory {
    /// Synchronous, typed, checked copy of `src`'s elements into `self`.
    /// Element types match by this trait's bound; unequal element counts and
    /// aliased handles are rejected before any driver call; a copy touching
    /// device memory runs under the context guard.
    fn copy_from(&mut self, driver: &mut Driver, src: &Target) -> (r: Result<(), AccelError>)
        requires
            old(self).inv(),
            src.inv(),
            old(driver).wf(),
        ensures
            final(self).inv(),
            final(driver).wf(),
            Driver::same_state(old(driver), final(driver)),
            same_handle(old(self), final(self)),
            r == copy_decision(old(self), src, old(driver)),
            r is Ok ==> final(self).contents() == src.contents(),
            r is Err ==> final(self).contents() == old(self).contents(),
    ;

    /// The same checked copy, issued against the default stream. The
    /// destination moves into the returned future and is not reachable until
    /// the future is waited on; the source stays freely readable, the copy
    /// only needs its contents stable for the call. The issue-time checks are
    /// those of [`Memcpy::copy_from`]; their verdict surfaces when the future
    /// is waited on.
    fn copy_from_async(self, driver: &mut Driver, src: &Target) -> (f: CopyFuture<Self>)
        requires
            self.inv(),
            src.inv(),
            old(driver).wf(),
            old(driver).stream_issued < u64::MAX,
        ensures
            final(driver).wf(),
            final(driver).ctx_state() == old(driver).ctx_state(),
            final(driver).mem_state() == old(driver).mem_state(),
            final(driver).module_state() == old(driver).module_state(),
            final(driver).launch_log() == old(driver).launch_log(),
            final(driver).stream_completed == old(driver).stream_completed,
            f.spec_outcome() == copy_decision(&self, src, old(driver)),
            f.spec_dest().inv(),
            same_handle(&self, &f.spec_dest()),
            f.spec_outcome() is Ok ==> {
                &&& f.spec_dest().contents() == src.contents()
                &&& final(driver).stream_issued == old(driver).stream_issued + 1
                &&& f.spec_ticket() == old(driver).stream_issued + 1
            },
            f.spec_outcome() is Err ==> {
                &&& f.spec_dest().contents() == self.contents()
                &&& final(driver).stream_issued == old(driver).stream_issued
                &&& f.spec_ticket() == 0
            },
    {
        let mut dest = self;
        let r = dest.copy_from(driver, src);
        CopyFuture::issue(driver, dest, r)
    }
}

/// Newly allocatable memory, from a context and a shape.
pub trait Allocatable: Memory {
    /// Shape of a fresh allocation; its element count must be positive.
    type Shape: Copy;

    /// How many elements a shape denotes.
    spec fn shape_count(shape: Self::Shape) -> nat;

    /// The kind this allocator produces.
    spec fn alloc_kind() -> MemoryType;

    /// Whether this allocator's memory is managed by unified addressing.
    spec fn alloc_managed() -> bool;

    /// Name of the driver entry point this allocator relies on, as reported
    /// in its out-of-memory error.
    spec fn alloc_api() -> Seq<char>;

    /// Allocate without initialization: the element values are unspecified
    /// until first written. A zero-element shape is a caller logic error and
    /// is excluded by contract; an exhausted pool or address space is a
    /// runtime condition and comes back as the driver's out-of-memory error,
    /// with nothing allocated or leaked.
    fn uninitialized(driver: &mut Driver, ctx: &Context, shape: Self::Shape) -> (r: Result<
        Self,
        AccelError,
    >)
        requires
            old(driver).wf(),
            Self::shape_count(shape) >= 1,
            Self::shape_count(shape) * vstd::layout::size_of::<Self::Elem>() <= usize::MAX,
            vstd::layout::size_of::<Self::Elem>() >= 1,
        ensures
            final(driver).wf(),
            r is Ok <==> (old(driver).ctx_alive(ctx.id) && old(driver).can_alloc(
                ctx.id,
                (Self::shape_count(shape) * vstd::layout::size_of::<Self::Elem>()) as usize,
                Self::alloc_kind(),
            )),
            r matches Ok(m) ==> {
                &&& m.inv()
                &&& m.contents().len() == Self::shape_count(shape)
                &&& m.spec_kind() == Self::alloc_kind()
                &&& m.spec_managed() == Self::alloc_managed()
                &&& alloc_effects(old(driver), final(driver), *ctx, &m)
                &&& live_in(&m, final(driver))
            },
            r is Err ==> Driver::same_state(old(driver), final(driver)),
            !old(driver).ctx_alive(ctx.id) ==> r == Err::<Self, AccelError>(
                AccelError::ContextError,
            ),
            (old(driver).ctx_alive(ctx.id) && !old(driver).can_alloc(
                ctx.id,
                (Self::shape_count(shape) * vstd::layout::size_of::<Self::Elem>()) as usize,
                Self::alloc_kind(),
            )) ==> (r matches Err(AccelError::CUDAError { api_name, error }) && api_name@
                == Self::alloc_api() && error == crate::error::CUDA_ERROR_OUT_OF_MEMORY),
    ;

    /// Allocate and fill every element with `elem`.
    fn from_elem(driver: &mut Driver, ctx: &Context, shape: Self::Shape, elem: Self::Elem) -> (r:
        Result<Self, AccelError>)
        requires
            old(driver).wf(),
            Self::shape_count(shape) >= 1,
            Self::shape_count(shape) * vstd::layout::size_of::<Self::Elem>() <= usize::MAX,
            vstd::layout::size_of::<Self::Elem>() >= 1,
        ensures
            final(driver).wf(),
            r is Ok <==> (old(driver).ctx_alive(ctx.id) && old(driver).can_alloc(
                ctx.id,
                (Self::shape_count(shape) * vstd::layout::size_of::<Self::Elem>()) as usize,
                Self::alloc_kind(),
            )),
            r matches Ok(m) ==> {
                &&& m.inv()
                &&& m.contents() == Seq::new(Self::shape_count(shape), |i: int| elem)
                &&& m.spec_kind() == Self::alloc_kind()
                &&& m.spec_managed() == Self::alloc_managed()
                &&& alloc_effects(old(driver), final(driver), *ctx, &m)
                &&& live_in(&m, final(driver))
            },
            r is Err ==> Driver::same_state(old(driver), final(driver)),
    {
        match Self::uninitialized(driver, ctx, shape) {
            Ok(mut m) => {
                match m.set(driver, elem) {
                    Ok(u) => {
                        let _ = u;
                        Ok(m)
                    },
                    Err(e) => Err(e),
                }
            },
            Err(e) => Err(e),
        }
    }

    /// Allocate and zero-fill.
    fn zeros(driver: &mut Driver, ctx: &Context, shape: Self::Shape) -> (r: Result<
        Self,
        AccelError,
    >)
        requires
            old(driver).wf(),
            Self::shape_count(shape) >= 1,
            Self::shape_count(shape) * vstd::layout::size_of::<Self::Elem>() <= usize::MAX,
            vstd::layout::size_of::<Self::Elem>() >= 1,
        ensures
            final(driver).wf(),
            r is Ok <==> (old(driver).ctx_alive(ctx.id) && old(driver).can_alloc(
                ctx.id,
                (Self::shape_count(shape) * vstd::layout::size_of::<Self::Elem>()) as usize,
                Self::alloc_kind(),
            )),
            r matches Ok(m) ==> {
                &&& m.inv()
                &&& m.contents() == Seq::new(
                    Self::shape_count(shape),
                    |i: int| Self::Elem::spec_zero(),
                )
                &&& m.spec_kind() == Self::alloc_kind()
                &&& m.spec_managed() == Self::alloc_managed()
                &&& alloc_effects(old(driver), final(driver), *ctx, &m)
                &&& live_in(&m, final(driver))
            },
            r is Err ==> Driver::same_state(old(driver), final(driver)),
    {
        match Self::uninitialized(driver, ctx, shape) {
            Ok(mut m) => {
                match m.set_zero_u8(driver) {
                    Ok(u) => {
                        let _ = u;
                        Ok(m)
                    },
                    Err(e) => Err(e),
                }
            },
            Err(e) => Err(e),
        }
    }
}

/// Memory with a continuous one-dimensional index, readable element-wise from
/// the host.
pub trait Continuous: Memory {
    /// The elements as a host slice.
    fn as_slice(&self) -> (s: &[Self::Elem])
        ensures
            s@ == self.contents(),
    ;

    /// Store one element from the host.
    fn write_at(&mut self, i: usize, value: Self::Elem)
        requires
            old(self).inv(),
            i < old(self).contents().len(),
        ensures
            final(self).inv(),
            same_handle(old(self), final(self)),
            final(self).contents() == old(self).contents().update(i as int, value),
    ;
}

/// Law: allocations made one after the other carry distinct driver-assigned
/// identities, whatever their kinds, shapes and devices — the identity
/// counter only grows, so an identity is never reused.
pub proof fn lemma_buffer_ids_distinct<M1: Memory, M2: Memory>(
    d0: Driver,
    d1: Driver,
    d2: Driver,
    c1: Context,
    c2: Context,
    m1: &M1,
    m2: &M2,
)
    requires
        alloc_effects(&d0, &d1, c1, m1),
        alloc_effects(&d1, &d2, c2, m2),
    ensures
        m1.spec_id() != m2.spec_id(),
{
}

/// Law: a fresh allocation's identity differs from that of every allocation
/// already live in the registry, even one whose address was reused.
pub proof fn lemma_fresh_id_distinct<M1: Memory, M2: Memory>(
    d0: Driver,
    d1: Driver,
    ctx: Context,
    live: &M1,
    fresh: &M2,
)
    requires
        d0.wf(),
        live_in(live, &d0),
        alloc_effects(&d0, &d1, ctx, fresh),
    ensures
        fresh.spec_id() != live.spec_id(),
{
    let a = d0.allocations@;
    let i = choose|i: int| 0 <= i < a.len() && matches_handle(#[trigger] a[i], live);
    assert(a[i].id < d0.next_buffer_id);
}

/// Total memory size in bytes of the context's device.
pub fn total_memory(driver: &mut Driver, ctx: &Context) -> (r: Result<usize, AccelError>)
    requires
        old(driver).wf(),
    ensures
        final(driver).wf(),
        Driver::same_state(old(driver), final(driver)),
        r is Ok <==> old(driver).ctx_alive(ctx.id),
        r is Err ==> r == Err::<usize, AccelError>(AccelError::ContextError),
        r matches Ok(n) ==> n == old(driver).devices@[old(driver).contexts@[ctx.id as int].device as int].total,
{
    match crate::driver::memory::MemoryInfo::get(driver, ctx) {
        Ok(info) => Ok(info.total),
        Err(e) => Err(e),
    }
}

/// Free memory size in bytes of the context's device.
pub fn free_memory(driver: &mut Driver, ctx: &Context) -> (r: Result<usize, AccelError>)
    requires
        old(driver).wf(),
    ensures
        final(driver).wf(),
        Driver::same_state(old(driver), final(driver)),
        r is Ok <==> old(driver).ctx_alive(ctx.id),
        r is Err ==> r == Err::<usize, AccelError>(AccelError::ContextError),
        r matches Ok(n) ==> n == old(driver).devices@[old(driver).contexts@[ctx.id as int].device as int].free,
{
    match crate::driver::memory::MemoryInfo::get(driver, ctx) {
        Ok(info) => Ok(info.free),
        Err(e) => Err(e),
    }
}

/// Fill every element of a host buffer with one value.
pub(crate) fn fill_elements<T: Scalar>(buf: &mut Vec<T>, value: T)
    ensures
        final(buf)@ == Seq::new(old(buf)@.len(), |i: int| value),
{
    let n = buf.len();
    let mut i: usize = 0;
    while i < n
        invariant
            i <= n,
            n == buf@.len(),
            buf@.len() == old(buf)@.len(),
            forall|j: int| 0 <= j < i ==> buf@[j] == value,
        decreases n - i,
    {
        buf[i] = value;
        i = i + 1;
    }
    proof {
        assert(buf@ =~= Seq::new(old(buf)@.len(), |k: int| value));
    }
}

/// How releasing the allocation at `addr` changes the driver's memory state:
/// the registry record (if any) is removed, a device-side kind's bytes return
/// to its device's pool (never past the pool's size), the allocator counters
/// stand still, and a missing record changes nothing.
pub open spec fn free_effects(d0: &Driver, d1: &Driver, addr: u64) -> bool {
    &&& d1.next_buffer_id == d0.next_buffer_id
    &&& d1.next_addr == d0.next_addr
    &&& ((forall|i: int|
        0 <= i < d0.allocations@.len() ==> (#[trigger] d0.allocations@[i]).addr != addr)
        ==> d1.mem_state() == d0.mem_state())
    &&& ((exists|i: int|
        0 <= i < d0.allocations@.len() && (#[trigger] d0.allocations@[i]).addr == addr)
        ==> (exists|i: int|
        {
            &&& 0 <= i < d0.allocations@.len()
            &&& (#[trigger] d0.allocations@[i]).addr == addr
            &&& d1.allocations@ == d0.allocations@.remove(i)
            &&& d1.devices@ == (if d0.allocations@[i].kind.is_device_side() {
                d0.devices@.update(
                    d0.allocations@[i].device as int,
                    DeviceState {
                        total: d0.devices@[d0.allocations@[i].device as int].total,
                        free: Driver::returned_free(
                            d0.devices@[d0.allocations@[i].device as int],
                            d0.allocations@[i].bytes,
                        ),
                    },
                )
            } else {
                d0.devices@
            })
        }))
}

/// Shared release path of the owning handles: bind the context, drop the
/// allocation's registry entry by head address (returning a device-side
/// kind's bytes to its pool), restore the previous context. A missing entry
/// is ignored, as a release path must not fail the caller's cleanup.
pub(crate) fn free_registered(driver: &mut Driver, ctx: &Context, addr: u64) -> (r: Result<
    (),
    AccelError,
>)
    requires
        old(driver).wf(),
    ensures
        final(driver).wf(),
        final(driver).ctx_state() == old(driver).ctx_state(),
        final(driver).module_state() == old(driver).module_state(),
        final(driver).stream_state() == old(driver).stream_state(),
        final(driver).launch_log() == old(driver).launch_log(),
        r is Ok <==> old(driver).ctx_alive(ctx.id),
        r is Err ==> r == Err::<(), AccelError>(AccelError::ContextError) && Driver::same_state(
            old(driver),
            final(driver),
        ),
        r is Ok ==> free_effects(old(driver), final(driver), addr),
        r is Ok ==> forall|i: int|
            0 <= i < final(driver).allocations@.len()
                ==> (#[trigger] final(driver).allocations@[i]).addr != addr,
{
    let g = match crate::context::guard(driver, ctx) {
        Ok(g) => g,
        Err(e) => {
            return Err(e);
        },
    };
    let status = driver.mem_free(addr);
    let _ = status;
    crate::context::release(driver, g);
    Ok(())
}

/// Shared pointer-attribute path of the device-side handles: bind the
/// context, look the address up in the unified address space's registry,
/// restore the previous context. The driver resolves attribute queries by
/// address alone.
pub(crate) fn pointer_attribute(driver: &mut Driver, ctx: &Context, addr: u64) -> (r: Result<
    AllocRecord,
    AccelError,
>)
    requires
        old(driver).wf(),
    ensures
        final(driver).wf(),
        Driver::same_state(old(driver), final(driver)),
        r is Ok <==> (old(driver).ctx_alive(ctx.id) && exists|i: int|
            0 <= i < old(driver).allocations@.len() && (#[trigger] old(
                driver,
            ).allocations@[i]).addr == addr),
        !old(driver).ctx_alive(ctx.id) ==> r == Err::<AllocRecord, AccelError>(
            AccelError::ContextError,
        ),
        r matches Ok(rec) ==> rec.addr == addr && (exists|i: int|
            0 <= i < old(driver).allocations@.len() && #[trigger] old(driver).allocations@[i]
                == rec),
        (old(driver).ctx_alive(ctx.id) && (forall|i: int|
            0 <= i < old(driver).allocations@.len() ==> (#[trigger] old(
                driver,
            ).allocations@[i]).addr != addr)) ==> (r matches Err(AccelError::CUDAError {
            api_name,
            error,
        }) && api_name@ == "cuPointerGetAttribute"@ && error
            == crate::error::CUDA_ERROR_INVALID_VALUE),
{
    let g = match crate::context::guard(driver, ctx) {
        Ok(g) => g,
        Err(e) => {
            return Err(e);
        },
    };
    let found = driver.find_alloc(addr);
    crate::context::release(driver, g);
    match found {
        Some(rec) => Ok(rec),
        None => {
            match crate::error::check(
                crate::error::CUDA_ERROR_INVALID_VALUE,
                "cuPointerGetAttribute",
            ) {
                Ok(()) => {
                    Err(AccelError::ContextError)
                },
                Err(e) => {
                    proof {
                        reveal_strlit("cuPointerGetAttribute");
                    }
                    Err(e)
                },
            }
        },
    }
}

/// The record a live handle's pointer-attribute query returns is the
/// handle's own: registry addresses are unique, so the lookup by head address
/// cannot hit another allocation.
pub(crate) proof fn lemma_attr_is_own<M: Memory>(m: &M, d: &Driver, rec: AllocRecord)
    requires
        d.wf(),
        live_in(m, d),
        rec.addr == m.spec_head(),
        exists|i: int| 0 <= i < d.allocations@.len() && #[trigger] d.allocations@[i] == rec,
    ensures
        matches_handle(rec, m),
{
    let a = d.allocations@;
    let i = choose|i: int| 0 <= i < a.len() && #[trigger] a[i] == rec;
    let j = choose|j: int| 0 <= j < a.len() && matches_handle(#[trigger] a[j], m);
    assert(a[i].addr == a[j].addr);
    assert(i == j);
}

/// Copy a host slice into a host buffer of the same length, element by
/// element.
pub(crate) fn copy_elements<T: Scalar>(buf: &mut Vec<T>, src: &[T])
    requires
        old(buf)@.len() == src@.len(),
    ensures
        final(buf)@ == src@,
{
    let n = buf.len();
    let mut i: usize = 0;
    while i < n
        invariant
            i <= n,
            n == buf@.len(),
            buf@.len() == src@.len(),
            forall|j: int| 0 <= j < i ==> buf@[j] == src@[j],
        decreases n - i,
    {
        buf[i] = *vstd::slice::slice_index_get(src, i);
        i = i + 1;
    }
    proof {
        assert(buf@ =~= src@);
    }
}

} // verus!
