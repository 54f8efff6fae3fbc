//! The handle through which the library talks to the compute runtime, and the
//! four calls that it makes. The runtime keeps its active backend and device
//! as state of the whole process; the handle stands for that state. It
//! records what the runtime listed and counted and every call that was made,
//! and only the calls below write that record. A backend is asked for only if
//! the runtime listed it, a device only if the runtime counted it.
//!
//! The runtime hands each error to the handler that is registered with it.
//! The one it starts with ends the process. A program that registers another
//! makes a refused call return, and the record then says what was asked of the
//! runtime, not what the runtime did.

use vstd::prelude::*;
use crate::device::{covers, is_backend_listing, Backend, BackendReport, Device, RuntimeCall};

verus! {

/// The library's handle on the runtime's active context.
pub(crate) struct Runtime {
    listed: Ghost<Seq<Backend>>,
    counted: Ghost<Seq<BackendReport>>,
    requested: Ghost<Option<Backend>>,
    issued: Ghost<Seq<RuntimeCall>>,
}

impl Runtime {
    /// The backends that the runtime listed when it was last asked.
    pub(crate) closed spec fn listed(&self) -> Seq<Backend> {
        self.listed@
    }

    /// Every count of devices that the runtime gave, oldest first, each with
    /// the backend that had been asked for when the count was taken.
    pub(crate) closed spec fn counted(&self) -> Seq<BackendReport> {
        self.counted@
    }

    /// The backend that was last asked for, if any was.
    pub(crate) closed spec fn requested(&self) -> Option<Backend> {
        self.requested@
    }

    /// The calls made through this handle, oldest first.
    pub(crate) closed spec fn issued(&self) -> Seq<RuntimeCall> {
        self.issued@
    }

    /// A handle through which nothing was asked yet.
    pub(crate) fn attach() -> (runtime: Runtime)
        ensures
            runtime.listed() == Seq::<Backend>::empty(),
            runtime.counted() == Seq::<BackendReport>::empty(),
            runtime.requested() == None::<Backend>,
            runtime.issued() == Seq::<RuntimeCall>::empty(),
    {
        Runtime {
            listed: Ghost(Seq::empty()),
            counted: Ghost(Seq::empty()),
            requested: Ghost(None),
            issued: Ghost(Seq::empty()),
        }
    }

    /// Calls `arrayfire::get_available_backends` and hands its result on, each
    /// backend under this library's name for it. Which backends come depends
    /// on the machine. The function builds the list from three flags in a
    /// fixed order, OpenCL, CUDA, CPU: so it never holds `DEFAULT`, holds no
    /// backend twice, and keeps that order. The handle records the list and
    /// the call.
    #[verifier::external_body]
    pub(crate) fn get_available_backends(&mut self) -> (backends: Vec<Backend>)
        ensures
            is_backend_listing(backends@),
            final(self).listed() == backends@,
            final(self).counted() == old(self).counted(),
            final(self).requested() == old(self).requested(),
            final(self).issued() == old(self).issued().push(RuntimeCall::GetAvailableBackends),
    {
        arrayfire::get_available_backends()
            .into_iter()
            .map(|backend| match backend {
                arrayfire::Backend::DEFAULT => Backend::DEFAULT,
                arrayfire::Backend::CPU => Backend::CPU,
                arrayfire::Backend::CUDA => Backend::CUDA,
                arrayfire::Backend::OPENCL => Backend::OPENCL,
            })
            .collect()
    }

    /// Calls `arrayfire::device_count`, which counts the devices of the
    /// backend that is active at the time of the call. The number depends on
    /// the machine, so nothing is claimed of it. The handle records it with
    /// the backend that was last asked for, and records the call.
    #[verifier::external_body]
    pub(crate) fn device_count(&mut self) -> (count: i32)
        requires
            old(self).requested() is Some,
        ensures
            final(self).listed() == old(self).listed(),
            final(self).counted() == old(self).counted().push(
                BackendReport { backend: old(self).requested().unwrap(), num_devices: count },
            ),
            final(self).requested() == old(self).requested(),
            final(self).issued() == old(self).issued().push(RuntimeCall::DeviceCount),
    {
        arrayfire::device_count()
    }

    /// Calls `arrayfire::set_backend` with the runtime's name for `backend`,
    /// which must be one that the runtime listed: a backend that the machine
    /// lacks is an error to the runtime. The handle records the backend as the
    /// one asked for, and records the call.
    #[verifier::external_body]
    pub(crate) fn set_backend(&mut self, backend: Backend)
        requires
            old(self).listed().contains(backend),
        ensures
            final(self).listed() == old(self).listed(),
            final(self).counted() == old(self).counted(),
            final(self).requested() == Some(backend),
            final(self).issued() == old(self).issued().push(RuntimeCall::SetBackend(backend)),
    {
        arrayfire::set_backend(match backend {
            Backend::DEFAULT => arrayfire::Backend::DEFAULT,
            Backend::CPU => arrayfire::Backend::CPU,
            Backend::CUDA => arrayfire::Backend::CUDA,
            Backend::OPENCL => arrayfire::Backend::OPENCL,
        })
    }

    /// Calls `arrayfire::set_device` with `id`, an index within the active
    /// backend. The index must not be negative and must lie below a count
    /// that the runtime gave for the backend last asked for: any other index
    /// is an error to the runtime. The handle records the call.
    #[verifier::external_body]
    pub(crate) fn set_device(&mut self, id: i32)
        requires
            old(self).requested() is Some,
            exists|k: int|
                0 <= k < old(self).counted().len() && covers(
                    #[trigger] old(self).counted()[k],
                    Device { backend: old(self).requested().unwrap(), id },
                ),
        ensures
            final(self).listed() == old(self).listed(),
            final(self).counted() == old(self).counted(),
            final(self).requested() == old(self).requested(),
            final(self).issued() == old(self).issued().push(RuntimeCall::SetDevice(id)),
    {
        arrayfire::set_device(id)
    }
}

} // verus!
