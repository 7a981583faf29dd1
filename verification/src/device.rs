//! Device enumeration and context creation.

use vstd::prelude::*;

use crate::context::Context;
use crate::driver::{Driver, CONTEXT_FOOTPRINT};
use crate::error::{AccelError, CUDA_ERROR_OUT_OF_MEMORY, CUDA_SUCCESS};

verus! {

/// Handle to one device the driver enumerates.
#[derive(Clone, Copy, PartialEq, Eq, Structural)]
pub struct Device {
    /// The device's index in the driver's enumeration.
    pub id: usize,
}

impl Device {
    /// The `id`-th device, or `DeviceNotFound` when the enumeration is out of
    /// range.
    pub fn nth(driver: &Driver, id: usize) -> (r: Result<Device, AccelError>)
        ensures
            r is Ok <==> id < driver.devices@.len(),
            r matches Ok(d) ==> d == (Device { id }),
            r is Err ==> r == Err::<Device, AccelError>(AccelError::DeviceNotFound {
                id,
                count: driver.devices@.len() as usize,
            }),
    {
        let count = driver.device_count();
        if id < count {
            Ok(Device { id })
        } else {
            Err(AccelError::DeviceNotFound { id, count })
        }
    }

    /// Create a context on this device and make it current. The context
    /// reserves its footprint from the device's pool; the call fails with the
    /// driver's out-of-memory error when the pool cannot cover it.
    pub fn create_context_auto(&self, driver: &mut Driver) -> (r: Result<Context, AccelError>)
        requires
            old(driver).wf(),
            self.id < old(driver).devices@.len(),
        ensures
            final(driver).wf(),
            final(driver).allocations@ == old(driver).allocations@,
            final(driver).next_buffer_id == old(driver).next_buffer_id,
            final(driver).next_addr == old(driver).next_addr,
            final(driver).module_state() == old(driver).module_state(),
            final(driver).stream_state() == old(driver).stream_state(),
            final(driver).launch_log() == old(driver).launch_log(),
            r is Ok <==> CONTEXT_FOOTPRINT <= old(driver).devices@[self.id as int].free,
            r matches Ok(c) ==> {
                &&& c.id == old(driver).contexts@.len()
                &&& c.device == self.id
                &&& c.valid_in(final(driver))
                &&& final(driver).current == Some(c.id)
                &&& final(driver).contexts@ == old(driver).contexts@.push(
                    (crate::driver::ContextState {
                        device: self.id,
                        alive: true,
                        footprint: CONTEXT_FOOTPRINT,
                    }),
                )
                &&& final(driver).devices@ == old(driver).devices@.update(
                    self.id as int,
                    (crate::driver::DeviceState {
                        total: old(driver).devices@[self.id as int].total,
                        free: (old(driver).devices@[self.id as int].free
                            - CONTEXT_FOOTPRINT) as usize,
                    }),
                )
            },
            r is Err ==> {
                &&& *final(driver) == *old(driver)
                &&& r matches Err(AccelError::CUDAError { api_name, error }) && api_name@
                    == "cuCtxCreate"@ && error == CUDA_ERROR_OUT_OF_MEMORY
            },
    {
        let (status, id) = driver.ctx_create(self.id);
        if status == CUDA_SUCCESS {
            Ok(Context { id, device: self.id })
        } else {
            match crate::error::check(status, "cuCtxCreate") {
                Ok(_) => Err(AccelError::InitFailed),
                Err(e) => Err(e),
            }
        }
    }

    /// Create a context on this device and make it current, for callers that
    /// have already sized the pool: the footprint must fit.
    pub fn create_context(&self, driver: &mut Driver) -> (c: Context)
        requires
            old(driver).wf(),
            self.id < old(driver).devices@.len(),
            CONTEXT_FOOTPRINT <= old(driver).devices@[self.id as int].free,
        ensures
            final(driver).wf(),
            final(driver).allocations@ == old(driver).allocations@,
            final(driver).next_buffer_id == old(driver).next_buffer_id,
            final(driver).next_addr == old(driver).next_addr,
            final(driver).module_state() == old(driver).module_state(),
            final(driver).stream_state() == old(driver).stream_state(),
            final(driver).launch_log() == old(driver).launch_log(),
            c.id == old(driver).contexts@.len(),
            c.device == self.id,
            c.valid_in(final(driver)),
            final(driver).current == Some(c.id),
            final(driver).contexts@ == old(driver).contexts@.push(
                (crate::driver::ContextState {
                    device: self.id,
                    alive: true,
                    footprint: CONTEXT_FOOTPRINT,
                }),
            ),
            final(driver).devices@ == old(driver).devices@.update(
                self.id as int,
                (crate::driver::DeviceState {
                    total: old(driver).devices@[self.id as int].total,
                    free: (old(driver).devices@[self.id as int].free
                        - CONTEXT_FOOTPRINT) as usize,
                }),
            ),
    {
        let (status, id) = driver.ctx_create(self.id);
        let _ = status;
        Context { id, device: self.id }
    }
}

} // verus!
