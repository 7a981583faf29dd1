//! Execution contexts and the context-currency guard.
//!
//! Every operation that touches device state must run with its context bound
//! to the calling thread. The guard makes a context current and hands back a
//! scoped token; releasing the token restores whatever was current before, so
//! no operation leaks currency across unrelated calls.

use vstd::prelude::*;

use crate::driver::Driver;
use crate::error::AccelError;

verus! {

/// Handle to one execution context, bound to one device. Cloneable: several
/// owners may reference the same underlying context, which stays alive until
/// it is explicitly destroyed through [`Context::destroy`].
#[derive(Clone, Copy, PartialEq, Eq, Structural)]
pub struct Context {
    /// The driver's handle for this context.
    pub id: usize,
    /// The device the context is bound to.
    pub device: usize,
}

impl Context {
    /// True while the driver knows this handle as a live context on the
    /// device the handle claims.
    pub open spec fn valid_in(&self, d: &Driver) -> bool {
        &&& d.ctx_alive(self.id)
        &&& d.contexts@[self.id as int].device == self.device
    }

    /// Ask the driver whether this context is the thread-current one.
    pub fn is_current(&self, driver: &Driver) -> (b: bool)
        ensures
            b == (driver.current == Some(self.id)),
    {
        match driver.current {
            Some(c) => c == self.id,
            None => false,
        }
    }

    /// Destroy the context: its native handle is released exactly once, its
    /// footprint returns to the device's pool, and every later operation
    /// through any clone of the handle fails with a context error.
    pub fn destroy(&self, driver: &mut Driver) -> (r: Result<(), AccelError>)
        requires
            old(driver).wf(),
        ensures
            final(driver).wf(),
            final(driver).allocations@ == old(driver).allocations@,
            final(driver).next_buffer_id == old(driver).next_buffer_id,
            final(driver).next_addr == old(driver).next_addr,
            final(driver).devices@.len() == old(driver).devices@.len(),
            final(driver).module_state() == old(driver).module_state(),
            final(driver).stream_state() == old(driver).stream_state(),
            final(driver).launch_log() == old(driver).launch_log(),
            r is Ok <==> old(driver).ctx_alive(self.id),
            r is Ok ==> !final(driver).ctx_alive(self.id),
            r is Ok ==> {
                &&& final(driver).contexts@ == old(driver).contexts@.update(
                    self.id as int,
                    (crate::driver::ContextState {
                        alive: false,
                        ..old(driver).contexts@[self.id as int]
                    }),
                )
                &&& final(driver).devices@ == old(driver).devices@.update(
                    old(driver).contexts@[self.id as int].device as int,
                    (crate::driver::DeviceState {
                        total: old(driver).devices@[old(driver).contexts@[self.id as int].device as int].total,
                        free: Driver::returned_free(
                            old(driver).devices@[old(driver).contexts@[self.id as int].device as int],
                            old(driver).contexts@[self.id as int].footprint,
                        ),
                    }),
                )
            },
            r is Err ==> r == Err::<(), AccelError>(AccelError::ContextError) && *final(driver)
                == *old(driver),
    {
        let status = driver.ctx_destroy(self.id);
        if status == crate::error::CUDA_SUCCESS {
            Ok(())
        } else {
            Err(AccelError::ContextError)
        }
    }
}

/// Token of one acquired guard: proof that its context was made current, and
/// the memory of what to restore.
pub struct ScopedCurrent {
    ctx: usize,
    prev: Option<usize>,
}

impl ScopedCurrent {
    /// The context the guard bound.
    pub closed spec fn spec_ctx(&self) -> usize {
        self.ctx
    }

    /// The current-context cell as it stood before the guard bound its own.
    pub closed spec fn spec_prev(&self) -> Option<usize> {
        self.prev
    }
}

/// Make `ctx` the thread-current context, returning a scoped token that
/// [`release`] uses to restore the previous current context. Fails with a
/// context error when `ctx` is dead, before any other driver call is made.
pub fn guard(driver: &mut Driver, ctx: &Context) -> (r: Result<ScopedCurrent, AccelError>)
    requires
        old(driver).wf(),
    ensures
        final(driver).wf(),
        final(driver).ctx_table() == old(driver).ctx_table(),
        final(driver).mem_state() == old(driver).mem_state(),
        final(driver).module_state() == old(driver).module_state(),
        final(driver).stream_state() == old(driver).stream_state(),
        final(driver).launch_log() == old(driver).launch_log(),
        r is Ok <==> old(driver).ctx_alive(ctx.id),
        r matches Ok(g) ==> {
            &&& g.spec_ctx() == ctx.id
            &&& g.spec_prev() == old(driver).current
            &&& final(driver).current == Some(ctx.id)
            &&& (g.spec_prev() matches Some(p) ==> final(driver).ctx_alive(p))
        },
        r is Err ==> r == Err::<ScopedCurrent, AccelError>(AccelError::ContextError)
            && *final(driver) == *old(driver),
{
    let prev = driver.current;
    let status = driver.ctx_set_current(ctx.id);
    if status == crate::error::CUDA_SUCCESS {
        Ok(ScopedCurrent { ctx: ctx.id, prev })
    } else {
        Err(AccelError::ContextError)
    }
}

/// Release a guard token: the current-context cell returns to what the guard
/// saw when it bound its context.
pub fn release(driver: &mut Driver, g: ScopedCurrent)
    requires
        old(driver).wf(),
        g.spec_prev() matches Some(p) ==> old(driver).ctx_alive(p),
    ensures
        final(driver).wf(),
        final(driver).ctx_table() == old(driver).ctx_table(),
        final(driver).mem_state() == old(driver).mem_state(),
        final(driver).module_state() == old(driver).module_state(),
        final(driver).stream_state() == old(driver).stream_state(),
        final(driver).launch_log() == old(driver).launch_log(),
        final(driver).current == g.spec_prev(),
{
    driver.ctx_restore(g.prev);
}

/// Everything that carries its execution context: memory handles, kernels.
pub trait Contexted {
    /// The context the value is bound to.
    spec fn spec_context(&self) -> Context;

    /// The context the value is bound to.
    fn context(&self) -> (c: Context)
        ensures
            c == self.spec_context(),
    ;
}

} // verus!
