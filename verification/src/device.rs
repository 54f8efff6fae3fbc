//! Devices, the catalog of devices that a runtime reports, and the plan of
//! runtime calls that one switch of the active device takes.

use vstd::prelude::*;
use crate::laws::{catalog_membership, registered_backend_is_listed};
use crate::runtime::Runtime;

verus! {

/// A compute backend of the runtime.
#[derive(PartialEq, Eq, Structural, Clone, Copy, Debug)]
pub enum Backend {
    /// Whatever the runtime picks by itself.
    DEFAULT,
    /// The host processor.
    CPU,
    /// The CUDA backend.
    CUDA,
    /// The OpenCL backend.
    OPENCL,
}

/// One addressable compute unit: a backend and an index within that backend.
#[derive(PartialEq, Eq, Structural, Clone, Copy, Debug)]
pub struct Device {
    pub backend: Backend,
    pub id: i32,
}

/// One call to the runtime.
#[derive(PartialEq, Eq, Structural, Clone, Copy, Debug)]
pub enum RuntimeCall {
    /// Ask which backends the machine has.
    GetAvailableBackends,
    /// Make this backend the active one.
    SetBackend(Backend),
    /// Ask how many devices the active backend has.
    DeviceCount,
    /// Make the device with this index, within the active backend, the active one.
    SetDevice(i32),
}

/// What the runtime says of one backend: how many devices it has.
#[derive(PartialEq, Eq, Structural, Clone, Copy, Debug)]
pub struct BackendReport {
    pub backend: Backend,
    pub num_devices: i32,
}

/// What a device manager refuses.
#[derive(PartialEq, Eq, Structural, Clone, Copy, Debug)]
pub enum DeviceError {
    /// The runtime reported no device at all.
    NoDevices,
    /// The device is not in the catalog.
    UnregisteredDevice,
}

/// The place of a backend in the order in which the runtime lists its
/// backends: OpenCL first, then CUDA, then the host processor.
pub open spec fn listing_rank(backend: Backend) -> int {
    match backend {
        Backend::OPENCL => 0,
        Backend::CUDA => 1,
        Backend::CPU => 2,
        Backend::DEFAULT => 3,
    }
}

/// Whether `backends` can be a list of the runtime: it never holds `DEFAULT`,
/// and its backends stand in the runtime's order, so none occurs twice.
pub open spec fn is_backend_listing(backends: Seq<Backend>) -> bool {
    &&& forall|k: int| 0 <= k < backends.len() ==> backends[k] != Backend::DEFAULT
    &&& forall|j: int, k: int|
        0 <= j < k < backends.len() ==> listing_rank(backends[j]) < listing_rank(backends[k])
}

/// The backends that `reports` speak of, in their order.
pub open spec fn backends_of(reports: Seq<BackendReport>) -> Seq<Backend> {
    reports.map_values(|report: BackendReport| report.backend)
}

/// The devices of one backend that has `num_devices` devices: one for each
/// index from 0 on. A count of zero or less gives none.
pub open spec fn devices_of(backend: Backend, num_devices: int) -> Seq<Device> {
    Seq::new(
        if num_devices > 0 { num_devices as nat } else { 0 },
        |index: int| Device { backend, id: index as i32 },
    )
}

/// Whether `report` accounts for `device`: it names the device's backend and
/// counts more devices than the device's index, which is not negative.
pub open spec fn covers(report: BackendReport, device: Device) -> bool {
    report.backend == device.backend && 0 <= device.id < report.num_devices
}

/// The catalog for a list of reports: the devices of the first backend, then
/// those of the second, and so on.
pub open spec fn catalog_of(reports: Seq<BackendReport>) -> Seq<Device>
    decreases reports.len(),
{
    if reports.len() == 0 {
        Seq::empty()
    } else {
        catalog_of(reports.drop_last()) + devices_of(
            reports.last().backend,
            reports.last().num_devices as int,
        )
    }
}

/// The device that is active right after start-up, for a given catalog: its
/// last device. An empty catalog has none.
pub open spec fn startup_device(catalog: Seq<Device>) -> Result<Device, DeviceError> {
    if catalog.len() > 0 {
        Ok(catalog.last())
    } else {
        Err(DeviceError::NoDevices)
    }
}

/// The calls of a probe that ends with `reports`: the runtime is asked for
/// its backends once; then, for each report in turn, the backend is made the
/// active one and, while it is, its devices are counted.
pub open spec fn probe_calls(reports: Seq<BackendReport>) -> Seq<RuntimeCall>
    decreases reports.len(),
{
    if reports.len() == 0 {
        seq![RuntimeCall::GetAvailableBackends]
    } else {
        probe_calls(reports.drop_last()) + seq![
            RuntimeCall::SetBackend(reports.last().backend),
            RuntimeCall::DeviceCount,
        ]
    }
}

/// Whether a swap from `current` to `target` switches the runtime: only when
/// the two differ in backend and in index at once.
pub open spec fn differs_on_both(current: Device, target: Device) -> bool {
    current.backend != target.backend && current.id != target.id
}

/// The calls that make `device` the active one: first its backend, then its
/// index within that backend.
pub open spec fn activation_calls(device: Device) -> Seq<RuntimeCall> {
    seq![RuntimeCall::SetBackend(device.backend), RuntimeCall::SetDevice(device.id)]
}

/// The calls that a swap from `current` to `target` issues.
pub open spec fn swap_calls(current: Device, target: Device) -> Seq<RuntimeCall> {
    if differs_on_both(current, target) {
        activation_calls(target)
    } else {
        Seq::empty()
    }
}

/// The active device after a swap from `current` to `target`.
pub open spec fn after_swap(current: Device, target: Device) -> Device {
    if differs_on_both(current, target) {
        target
    } else {
        current
    }
}

/// The device that is active while a migration reads its input, when the
/// migration starts under `current` and the input lives on `input_device`.
pub open spec fn download_context(current: Device, input_device: Device) -> Device {
    after_swap(current, input_device)
}

/// The device that is active while a migration builds its output.
pub open spec fn upload_context(
    current: Device,
    input_device: Device,
    target_device: Device,
) -> Device {
    after_swap(download_context(current, input_device), target_device)
}

/// The calls that a migration issues: those of the swap to the input's device,
/// then those of the swap to the target.
pub open spec fn migration_calls(
    current: Device,
    input_device: Device,
    target_device: Device,
) -> Seq<RuntimeCall> {
    swap_calls(current, input_device) + swap_calls(
        download_context(current, input_device),
        target_device,
    )
}

/// What one swap does: the runtime calls to issue, in order, and the device
/// that is active once they are done.
#[derive(PartialEq, Eq, Clone, Debug)]
pub struct SwapPlan {
    pub calls: Vec<RuntimeCall>,
    pub next: Device,
}

/// The calls that activate `device`.
pub fn activation(device: Device) -> (calls: Vec<RuntimeCall>)
    ensures
        calls@ == activation_calls(device),
{
    let mut calls: Vec<RuntimeCall> = Vec::new();
    calls.push(RuntimeCall::SetBackend(device.backend));
    calls.push(RuntimeCall::SetDevice(device.id));
    calls
}

/// Plans a swap of the active device from `current` to `target`.
pub fn plan_swap(current: Device, target: Device) -> (plan: SwapPlan)
    ensures
        plan.calls@ == swap_calls(current, target),
        plan.next == after_swap(current, target),
{
    if current.backend != target.backend && current.id != target.id {
        SwapPlan { calls: activation(target), next: target }
    } else {
        SwapPlan { calls: Vec::new(), next: current }
    }
}

/// Plans a swap from `current` to `target` within the catalog `devices`, and
/// refuses a target that is not in it.
pub fn plan_registered_swap(devices: &Vec<Device>, current: Device, target: Device) -> (plan:
    Result<SwapPlan, DeviceError>)
    ensures
        match plan {
            Ok(plan) => {
                &&& devices@.contains(target)
                &&& plan.calls@ == swap_calls(current, target)
                &&& plan.next == after_swap(current, target)
            },
            Err(error) => !devices@.contains(target) && error == DeviceError::UnregisteredDevice,
        },
{
    if contains_device(devices, target) {
        Ok(plan_swap(current, target))
    } else {
        Err(DeviceError::UnregisteredDevice)
    }
}

/// The devices of `backend`, given the number of devices that the runtime
/// reports for it.
pub fn create_devices(backend: Backend, num_devices: i32) -> (buffer: Vec<Device>)
    ensures
        buffer@ == devices_of(backend, num_devices as int),
{
    let mut buffer: Vec<Device> = Vec::new();
    let mut i: i32 = 0;
    while i < num_devices
        invariant
            0 <= i,
            i <= num_devices || i == 0,
            buffer@ == devices_of(backend, i as int),
        decreases num_devices - i,
    {
        buffer.push(Device { backend, id: i });
        i += 1;
    }
    buffer
}

/// The catalog of all devices, backend by backend in the order of `reports`.
pub fn enumerate_devices(reports: &Vec<BackendReport>) -> (devices: Vec<Device>)
    ensures
        devices@ == catalog_of(reports@),
{
    let mut devices: Vec<Device> = Vec::new();
    let mut k: usize = 0;
    while k < reports.len()
        invariant
            k <= reports.len(),
            devices@ == catalog_of(reports@.take(k as int)),
        decreases reports.len() - k,
    {
        let mut found = create_devices(reports[k].backend, reports[k].num_devices);
        devices.append(&mut found);
        proof {
            let upto = reports@.take(k + 1);
            assert(upto.drop_last() == reports@.take(k as int));
            assert(upto.last() == reports@[k as int]);
        }
        k += 1;
    }
    assert(reports@.take(k as int) == reports@);
    devices
}

/// The device that becomes active at start-up: the last of `devices`.
pub fn initial_device(devices: &Vec<Device>) -> (first: Result<Device, DeviceError>)
    ensures
        first == startup_device(devices@),
{
    if devices.len() > 0 {
        Ok(devices[devices.len() - 1])
    } else {
        Err(DeviceError::NoDevices)
    }
}

/// Whether `device` occurs in `devices`.
pub fn contains_device(devices: &Vec<Device>, device: Device) -> (found: bool)
    ensures
        found == devices@.contains(device),
{
    let mut k: usize = 0;
    while k < devices.len()
        invariant
            k <= devices.len(),
            forall|j: int| 0 <= j < k ==> devices@[j] != device,
        decreases devices.len() - k,
    {
        if devices[k] == device {
            return true;
        }
        k += 1;
    }
    false
}

/// Counts the devices of `backend`: makes it the active backend, then asks
/// for the number of devices while it is. No device is activated.
fn count_devices(runtime: &mut Runtime, backend: Backend) -> (report: BackendReport)
    requires
        old(runtime).listed().contains(backend),
    ensures
        report.backend == backend,
        final(runtime).listed() == old(runtime).listed(),
        final(runtime).counted() == old(runtime).counted().push(report),
        final(runtime).requested() == Some(backend),
        final(runtime).issued() == old(runtime).issued() + seq![
            RuntimeCall::SetBackend(backend),
            RuntimeCall::DeviceCount,
        ],
{
    runtime.set_backend(backend);
    let num_devices: i32 = runtime.device_count();
    BackendReport { backend, num_devices }
}

/// Asks the runtime for its backends and counts the devices of each in turn.
fn probe(runtime: &mut Runtime) -> (reports: Vec<BackendReport>)
    ensures
        is_backend_listing(final(runtime).listed()),
        final(runtime).listed() == backends_of(reports@),
        final(runtime).counted() == old(runtime).counted() + reports@,
        final(runtime).issued() == old(runtime).issued() + probe_calls(reports@),
{
    let available = runtime.get_available_backends();
    let mut reports: Vec<BackendReport> = Vec::new();
    let mut k: usize = 0;
    while k < available.len()
        invariant
            k <= available.len(),
            reports@.len() == k,
            runtime.listed() == available@,
            backends_of(reports@) == available@.take(k as int),
            runtime.counted() == old(runtime).counted() + reports@,
            runtime.issued() == old(runtime).issued() + probe_calls(reports@),
        decreases available.len() - k,
    {
        let backend = available[k];
        assert(available@[k as int] == backend);
        let report = count_devices(runtime, backend);
        let ghost before = reports@;
        reports.push(report);
        proof {
            assert(reports@.drop_last() == before);
            assert(backends_of(reports@) == available@.take(k + 1));
        }
        k += 1;
    }
    assert(available@.take(k as int) == available@);
    reports
}

/// Makes `device` the active device of the runtime: its backend first, then
/// its index within that backend.
fn set_device(runtime: &mut Runtime, device: Device)
    requires
        old(runtime).listed().contains(device.backend),
        catalog_of(old(runtime).counted()).contains(device),
    ensures
        final(runtime).listed() == old(runtime).listed(),
        final(runtime).counted() == old(runtime).counted(),
        final(runtime).issued() == old(runtime).issued() + activation_calls(device),
{
    proof {
        catalog_membership(runtime.counted(), device);
    }
    runtime.set_backend(device.backend);
    runtime.set_device(device.id);
}

/// What a device manager is, to its callers.
pub struct ManagerState {
    /// All devices that the runtime reported at start-up, in order.
    pub catalog: Seq<Device>,
    /// The device that the manager holds to be active.
    pub current: Device,
    /// The backends that the runtime listed at start-up, in its order.
    pub backends: Seq<Backend>,
    /// The counts that the runtime gave at start-up: one for each backend
    /// that it listed, taken while that backend was the active one.
    pub reports: Seq<BackendReport>,
    /// The calls that the manager has made to the runtime, oldest first.
    pub issued: Seq<RuntimeCall>,
}

/// Owns the catalog of devices and the active device, and is the only one to
/// switch the runtime's active context. The context belongs to the whole
/// process: a manager mirrors it only while nothing else switches it, so a
/// program keeps one manager and serialises the calls on it. It also mirrors
/// it only while the runtime ends the process on an error, as it does unless
/// the program registers an error handler of its own.
pub struct DeviceManagerFactory {
    devices: Vec<Device>,
    current: Device,
    runtime: Runtime,
}

impl View for DeviceManagerFactory {
    type V = ManagerState;

    closed spec fn view(&self) -> ManagerState {
        ManagerState {
            catalog: self.devices@,
            current: self.current,
            backends: self.runtime.listed(),
            reports: self.runtime.counted(),
            issued: self.runtime.issued(),
        }
    }
}

/// Whether `outcome` is what start-up gives when the runtime answers with
/// `reports`: no manager where no device was reported; else one whose catalog
/// is that of the reports and whose active device is the last of the catalog,
/// activated after the backends were probed.
pub open spec fn is_startup(
    reports: Seq<BackendReport>,
    outcome: Result<DeviceManagerFactory, DeviceError>,
) -> bool {
    match outcome {
        Ok(manager) => {
            &&& manager.inv()
            &&& manager@.reports == reports
            &&& manager@.current == manager@.catalog.last()
            &&& manager@.issued == probe_calls(reports) + activation_calls(manager@.current)
        },
        Err(error) => startup_device(catalog_of(reports)) == Err::<Device, DeviceError>(error),
    }
}

impl DeviceManagerFactory {
    /// What holds of every manager: the runtime gave one count for each
    /// backend that it listed, the catalog is that of the counts and is not
    /// empty, the active device is in it, and the last calls made are those
    /// that activate the active device.
    pub open spec fn inv(&self) -> bool {
        &&& is_backend_listing(self@.backends)
        &&& backends_of(self@.reports) == self@.backends
        &&& self@.catalog == catalog_of(self@.reports)
        &&& self@.catalog.len() > 0
        &&& self@.catalog.contains(self@.current)
        &&& activation_calls(self@.current).is_suffix_of(self@.issued)
    }

    /// Enumerates the devices of every backend that the runtime offers and
    /// activates the last of them.
    pub fn new() -> (outcome: Result<DeviceManagerFactory, DeviceError>)
        ensures
            exists|reports: Seq<BackendReport>| is_startup(reports, outcome),
    {
        let mut runtime = Runtime::attach();
        let reports = probe(&mut runtime);
        let devices = enumerate_devices(&reports);
        let outcome = match initial_device(&devices) {
            Ok(current) => {
                proof {
                    registered_backend_is_listed(reports@, current);
                }
                set_device(&mut runtime, current);
                Ok(DeviceManagerFactory { devices, current, runtime })
            },
            Err(error) => Err(error),
        };
        assert(is_startup(reports@, outcome));
        outcome
    }

    /// The device that the manager holds to be active.
    pub fn current(&self) -> (device: Device)
        ensures
            device == self@.current,
    {
        self.current
    }

    /// The catalog.
    pub fn devices(&self) -> (devices: &Vec<Device>)
        ensures
            devices@ == self@.catalog,
    {
        &self.devices
    }

    /// Whether `device` is in the catalog.
    pub fn is_registered(&self, device: Device) -> (found: bool)
        ensures
            found == self@.catalog.contains(device),
    {
        contains_device(&self.devices, device)
    }

    /// Makes `device` the active device, if it differs from the active one
    /// in backend and in index at once; else does nothing.
    pub fn swap_device(&mut self, device: Device)
        requires
            old(self).inv(),
            old(self)@.catalog.contains(device),
        ensures
            final(self).inv(),
            final(self)@.catalog == old(self)@.catalog,
            final(self)@.backends == old(self)@.backends,
            final(self)@.reports == old(self)@.reports,
            final(self)@.current == after_swap(old(self)@.current, device),
            final(self)@.issued == old(self)@.issued + swap_calls(old(self)@.current, device),
    {
        let plan = plan_swap(self.current, device);
        self.follow(&plan, Ghost(device));
    }

    /// Carries out the plan of a swap to a device of the catalog: has the
    /// runtime activate the device where the plan says so.
    fn follow(&mut self, plan: &SwapPlan, Ghost(device): Ghost<Device>)
        requires
            old(self).inv(),
            old(self)@.catalog.contains(device),
            plan.calls@ == swap_calls(old(self)@.current, device),
            plan.next == after_swap(old(self)@.current, device),
        ensures
            final(self).inv(),
            final(self)@.catalog == old(self)@.catalog,
            final(self)@.backends == old(self)@.backends,
            final(self)@.reports == old(self)@.reports,
            final(self)@.current == after_swap(old(self)@.current, device),
            final(self)@.issued == old(self)@.issued + swap_calls(old(self)@.current, device),
    {
        if plan.calls.len() > 0 {
            proof {
                registered_backend_is_listed(self@.reports, plan.next);
            }
            set_device(&mut self.runtime, plan.next);
        }
        self.current = plan.next;
    }

    /// Swaps to `device` if it is in the catalog, and refuses it if it is
    /// not: then nothing is asked of the runtime and the manager stays as it
    /// was.
    pub fn try_swap_device(&mut self, device: Device) -> (outcome: Result<(), DeviceError>)
        requires
            old(self).inv(),
        ensures
            final(self).inv(),
            final(self)@.catalog == old(self)@.catalog,
            final(self)@.backends == old(self)@.backends,
            final(self)@.reports == old(self)@.reports,
            match outcome {
                Ok(_) => {
                    &&& old(self)@.catalog.contains(device)
                    &&& final(self)@.current == after_swap(old(self)@.current, device)
                    &&& final(self)@.issued == old(self)@.issued + swap_calls(
                        old(self)@.current,
                        device,
                    )
                },
                Err(error) => {
                    &&& !old(self)@.catalog.contains(device)
                    &&& error == DeviceError::UnregisteredDevice
                    &&& final(self)@.current == old(self)@.current
                    &&& final(self)@.issued == old(self)@.issued
                },
            },
    {
        match plan_registered_swap(&self.devices, self.current, device) {
            Ok(plan) => {
                self.follow(&plan, Ghost(device));
                Ok(())
            },
            Err(error) => Err(error),
        }
    }

    /// Moves the contents of `input`, which lives on `input_device`, to
    /// `target_device` by way of host memory: swaps to the input's device,
    /// has `download` copy the contents to the host, swaps to the target, and
    /// has `upload` build the new array there from the host copy. Each of the
    /// two is told which device is active while it runs.
    pub fn swap_array_backend<A, H, D, U>(
        &mut self,
        input: &A,
        input_device: Device,
        target_device: Device,
        download: D,
        upload: U,
    ) -> (output: A) where D: FnOnce(&A, Device) -> H, U: FnOnce(H, Device) -> A
        requires
            old(self).inv(),
            old(self)@.catalog.contains(input_device),
            old(self)@.catalog.contains(target_device),
            download.requires((input, download_context(old(self)@.current, input_device))),
            forall|staged: H|
                download.ensures(
                    (input, download_context(old(self)@.current, input_device)),
                    staged,
                ) ==> upload.requires(
                    (staged, upload_context(old(self)@.current, input_device, target_device)),
                ),
        ensures
            final(self).inv(),
            final(self)@.catalog == old(self)@.catalog,
            final(self)@.backends == old(self)@.backends,
            final(self)@.reports == old(self)@.reports,
            final(self)@.current == upload_context(
                old(self)@.current,
                input_device,
                target_device,
            ),
            final(self)@.issued == old(self)@.issued + migration_calls(
                old(self)@.current,
                input_device,
                target_device,
            ),
            exists|staged: H|
                download.ensures(
                    (input, download_context(old(self)@.current, input_device)),
                    staged,
                ) && upload.ensures((staged, final(self)@.current), output),
    {
        self.swap_device(input_device);
        let staged = download(input, self.current);
        self.swap_device(target_device);
        upload(staged, self.current)
    }
}

} // verus!
