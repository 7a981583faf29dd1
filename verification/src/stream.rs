//! The async half of the copy scheduler: a future that completes when the
//! default stream finishes the transfer.
//!
//! The destination handle moves into the future when the copy is issued and
//! comes back only from [`CopyFuture::wait`], so the host cannot read or
//! write the destination while the transfer may still be in flight — the
//! hazard the contract calls undefined is unwritable. Dropping the future
//! without waiting abandons, but does not cancel, the in-flight operation.

use vstd::prelude::*;

use crate::driver::Driver;
use crate::error::AccelError;

verus! {

/// A copy issued against the default stream, owning its destination until the
/// transfer is known complete.
pub struct CopyFuture<D> {
    dest: D,
    ticket: u64,
    outcome: Result<(), AccelError>,
}

impl<D> CopyFuture<D> {
    /// The destination handle, as it will come back from [`CopyFuture::wait`].
    pub closed spec fn spec_dest(&self) -> D {
        self.dest
    }

    /// The stream ticket of the issued operation; 0 when the issue-time
    /// checks already failed and nothing reached the stream.
    pub closed spec fn spec_ticket(&self) -> u64 {
        self.ticket
    }

    /// The verdict of the issue-time checks, handed out again at
    /// [`CopyFuture::wait`].
    pub closed spec fn spec_outcome(&self) -> Result<(), AccelError> {
        self.outcome
    }

    /// Wrap a copy's destination and verdict into a future. A clean verdict
    /// enqueues one operation on the default stream; a failed one leaves the
    /// stream untouched and the future trivially complete.
    pub fn issue(driver: &mut Driver, dest: D, outcome: Result<(), AccelError>) -> (f: CopyFuture<
        D,
    >)
        requires
            old(driver).wf(),
            old(driver).stream_issued < u64::MAX,
        ensures
            final(driver).wf(),
            final(driver).ctx_state() == old(driver).ctx_state(),
            final(driver).mem_state() == old(driver).mem_state(),
            final(driver).module_state() == old(driver).module_state(),
            final(driver).launch_log() == old(driver).launch_log(),
            final(driver).stream_completed == old(driver).stream_completed,
            f.spec_dest() == dest,
            f.spec_outcome() == outcome,
            outcome is Ok ==> final(driver).stream_issued == old(driver).stream_issued + 1
                && f.spec_ticket() == old(driver).stream_issued + 1,
            outcome is Err ==> final(driver).stream_issued == old(driver).stream_issued
                && f.spec_ticket() == 0,
    {
        if outcome.is_ok() {
            let ticket = driver.stream_issue();
            CopyFuture { dest, ticket, outcome }
        } else {
            CopyFuture { dest, ticket: 0, outcome }
        }
    }

    /// Non-blocking poll: ready once the stream has completed the issued
    /// operation, else the recoverable not-ready error. A future whose
    /// issue-time checks failed is ready at once; its verdict comes from
    /// [`CopyFuture::wait`].
    pub fn poll(&self, driver: &Driver) -> (r: Result<(), AccelError>)
        ensures
            r is Ok <==> self.spec_ticket() <= driver.stream_completed,
            r is Err ==> r == Err::<(), AccelError>(AccelError::AsyncOperationNotReady),
    {
        if driver.stream_is_done(self.ticket) {
            Ok(())
        } else {
            Err(AccelError::AsyncOperationNotReady)
        }
    }

    /// Block until the stream has completed the transfer, then hand the
    /// destination back together with the issue-time verdict.
    pub fn wait(self, driver: &mut Driver) -> (r: (D, Result<(), AccelError>))
        requires
            old(driver).wf(),
        ensures
            final(driver).wf(),
            final(driver).ctx_state() == old(driver).ctx_state(),
            final(driver).mem_state() == old(driver).mem_state(),
            final(driver).module_state() == old(driver).module_state(),
            final(driver).launch_log() == old(driver).launch_log(),
            final(driver).stream_issued == old(driver).stream_issued,
            final(driver).stream_completed == old(driver).stream_issued,
            r.0 == self.spec_dest(),
            r.1 == self.spec_outcome(),
    {
        driver.stream_synchronize();
        (self.dest, self.outcome)
    }
}

} // verus!
