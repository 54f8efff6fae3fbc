//! Facts about start-up, swaps and migrations, proved from the definitions in
//! `device`.

use vstd::prelude::*;
use crate::device::{
    activation_calls, after_swap, backends_of, catalog_of, covers, devices_of, differs_on_both,
    download_context, is_backend_listing, listing_rank,
    is_startup, migration_calls, startup_device, swap_calls, upload_context, BackendReport,
    Device, DeviceError, DeviceManagerFactory, RuntimeCall,
};

verus! {

/// A device is in the catalog of `reports` exactly if one of the reports
/// accounts for it.
pub proof fn catalog_membership(reports: Seq<BackendReport>, device: Device)
    ensures
        catalog_of(reports).contains(device) <==> exists|k: int|
            0 <= k < reports.len() && covers(#[trigger] reports[k], device),
    decreases reports.len(),
{
    if reports.len() > 0 {
        let earlier = reports.drop_last();
        let last = reports.last();
        let tail = devices_of(last.backend, last.num_devices as int);
        catalog_membership(earlier, device);
        if catalog_of(reports).contains(device) {
            let at = choose|at: int|
                0 <= at < catalog_of(reports).len() && catalog_of(reports)[at] == device;
            if at < catalog_of(earlier).len() {
                assert(catalog_of(earlier)[at] == device);
                let k = choose|k: int| 0 <= k < earlier.len() && covers(#[trigger] earlier[k], device);
                assert(covers(reports[k], device));
            } else {
                assert(tail[at - catalog_of(earlier).len()] == device);
                assert(covers(reports[reports.len() - 1], device));
            }
        }
        if exists|k: int| 0 <= k < reports.len() && covers(#[trigger] reports[k], device) {
            let k = choose|k: int| 0 <= k < reports.len() && covers(#[trigger] reports[k], device);
            if k < earlier.len() {
                assert(covers(earlier[k], device));
                let at = choose|at: int|
                    0 <= at < catalog_of(earlier).len() && catalog_of(earlier)[at] == device;
                assert(catalog_of(reports)[at] == device);
            } else {
                assert(tail[device.id as int] == device);
                assert(catalog_of(reports)[catalog_of(earlier).len() + device.id] == device);
            }
        }
    }
}

/// The backend of a device of the catalog is one of those that the reports
/// speak of.
pub proof fn registered_backend_is_listed(reports: Seq<BackendReport>, device: Device)
    requires
        catalog_of(reports).contains(device),
    ensures
        backends_of(reports).contains(device.backend),
{
    catalog_membership(reports, device);
    let k = choose|k: int| 0 <= k < reports.len() && covers(#[trigger] reports[k], device);
    assert(backends_of(reports)[k] == device.backend);
}

/// No device occurs twice in a catalog whose reports are for backends as the
/// runtime lists them, each once.
pub proof fn catalog_has_no_duplicates(reports: Seq<BackendReport>)
    requires
        is_backend_listing(backends_of(reports)),
    ensures
        catalog_of(reports).no_duplicates(),
    decreases reports.len(),
{
    if reports.len() > 0 {
        let earlier = reports.drop_last();
        let last = reports.last();
        let head = catalog_of(earlier);
        let tail = devices_of(last.backend, last.num_devices as int);
        let catalog = catalog_of(reports);
        assert(is_backend_listing(backends_of(earlier))) by {
            assert forall|k: int| 0 <= k < earlier.len() implies backends_of(earlier)[k]
                == backends_of(reports)[k] by {}
        }
        catalog_has_no_duplicates(earlier);
        assert forall|i: int, j: int|
            0 <= i < head.len() && head.len() <= j < catalog.len() implies catalog[i]
            != catalog[j] by {
            assert(head.contains(head[i]));
            registered_backend_is_listed(earlier, head[i]);
            let k = choose|k: int|
                0 <= k < earlier.len() && backends_of(earlier)[k] == head[i].backend;
            assert(backends_of(reports)[k] == head[i].backend);
            assert(backends_of(reports)[reports.len() - 1] == last.backend);
            assert(listing_rank(head[i].backend) < listing_rank(last.backend));
            assert(catalog[j] == tail[j - head.len()]);
        }
        assert forall|i: int, j: int|
            0 <= i < catalog.len() && 0 <= j < catalog.len() && i != j implies catalog[i]
            != catalog[j] by {
            if i < head.len() && j < head.len() {
                assert(catalog[i] == head[i] && catalog[j] == head[j]);
            } else if i >= head.len() && j >= head.len() {
                assert(catalog[i] == tail[i - head.len()]);
                assert(catalog[j] == tail[j - head.len()]);
            }
        }
    }
}

/// Where the runtime reports at least one backend, and at least one device
/// for each, start-up gives a manager, and the device it activates is in its
/// catalog.
pub proof fn startup_succeeds(
    reports: Seq<BackendReport>,
    outcome: Result<DeviceManagerFactory, DeviceError>,
)
    requires
        reports.len() >= 1,
        forall|k: int| 0 <= k < reports.len() ==> reports[k].num_devices >= 1,
        is_startup(reports, outcome),
    ensures
        startup_device(catalog_of(reports)) is Ok,
        outcome matches Ok(manager) && manager@.catalog.contains(manager@.current),
{
    let last = reports.last();
    assert(devices_of(last.backend, last.num_devices as int).len() >= 1);
}

/// A swap to the device that is already active issues no call and leaves the
/// active device as it is.
pub proof fn swap_to_active_device_is_noop(current: Device)
    ensures
        swap_calls(current, current) == Seq::<RuntimeCall>::empty(),
        after_swap(current, current) == current,
{
}

/// A swap to a device that differs from the active one in backend and in
/// index issues one call that sets the target's backend, then one that sets
/// its index, and the target becomes the active device.
pub proof fn swap_on_both_axes_activates_target(current: Device, target: Device)
    requires
        current.backend != target.backend,
        current.id != target.id,
    ensures
        swap_calls(current, target) == seq![
            RuntimeCall::SetBackend(target.backend),
            RuntimeCall::SetDevice(target.id),
        ],
        after_swap(current, target) == target,
{
}

/// A swap to a device that shares its backend or its index with the active
/// one issues no call and leaves the active device as it is, also where the
/// two devices differ.
pub proof fn swap_along_one_axis_is_noop(current: Device, target: Device)
    requires
        current.backend == target.backend || current.id == target.id,
    ensures
        swap_calls(current, target) == Seq::<RuntimeCall>::empty(),
        after_swap(current, target) == current,
{
}

/// A migration reads its input under the input's device and builds its output
/// under the target, where each of its two swaps either has nothing to do or
/// crosses both backend and index.
pub proof fn migration_reaches_target(
    current: Device,
    input_device: Device,
    target_device: Device,
)
    requires
        current == input_device || differs_on_both(current, input_device),
        differs_on_both(input_device, target_device),
    ensures
        download_context(current, input_device) == input_device,
        upload_context(current, input_device, target_device) == target_device,
        migration_calls(current, input_device, target_device) == swap_calls(current, input_device)
            + activation_calls(target_device),
{
}

/// In a migration from a device to itself the second swap issues no call, and
/// where the first has nothing to switch either, the whole migration issues
/// none and the active device stays as it was.
pub proof fn same_device_migration(current: Device, device: Device)
    ensures
        swap_calls(download_context(current, device), device) == Seq::<RuntimeCall>::empty(),
        upload_context(current, device, device) == download_context(current, device),
        !differs_on_both(current, device) ==> {
            &&& migration_calls(current, device, device) == Seq::<RuntimeCall>::empty()
            &&& upload_context(current, device, device) == current
        },
{
}

/// A migration keeps what its two transfers keep. Let `contents` say what an
/// array holds and `held` what a host copy holds. If every host copy that
/// `download` can make of `input` holds the contents of `input`, and every
/// array that `upload` can build from a host copy holds what the copy held,
/// then an output that `upload` built from a copy that `download` made of
/// `input` holds the contents of `input`. This is so whatever the two devices
/// are, also where they are the same.
pub proof fn migration_keeps_contents<A, H, C, D, U>(
    input: &A,
    output: A,
    download: D,
    upload: U,
    download_under: Device,
    upload_under: Device,
    contents: spec_fn(A) -> C,
    held: spec_fn(H) -> C,
) where D: FnOnce(&A, Device) -> H, U: FnOnce(H, Device) -> A
    requires
        forall|staged: H| #[trigger]
            download.ensures((input, download_under), staged) ==> held(staged) == contents(*input),
        forall|staged: H, built: A| #[trigger]
            upload.ensures((staged, upload_under), built) ==> contents(built) == held(staged),
        exists|staged: H|
            download.ensures((input, download_under), staged) && upload.ensures(
                (staged, upload_under),
                output,
            ),
    ensures
        contents(output) == contents(*input),
{
}

} // verus!

