use hal::device::{
    activation, enumerate_devices, plan_registered_swap, plan_swap, Backend, BackendReport, Device,
    DeviceError, RuntimeCall,
};

fn device(backend: Backend, id: i32) -> Device {
    Device { backend, id }
}

#[test]
fn activation_sets_the_backend_before_the_device() {
    assert_eq!(
        activation(device(Backend::CUDA, 3)),
        vec![RuntimeCall::SetBackend(Backend::CUDA), RuntimeCall::SetDevice(3)]
    );
}

#[test]
fn swap_to_the_active_device_issues_nothing() {
    let current = device(Backend::CPU, 0);
    let plan = plan_swap(current, current);
    assert_eq!(plan.calls, vec![]);
    assert_eq!(plan.next, current);
}

#[test]
fn swap_across_backend_and_index_issues_one_call_of_each() {
    let d1 = device(Backend::CPU, 0);
    let d2 = device(Backend::OPENCL, 1);
    let plan = plan_swap(d1, d2);
    assert_eq!(
        plan.calls,
        vec![RuntimeCall::SetBackend(Backend::OPENCL), RuntimeCall::SetDevice(1)]
    );
    assert_eq!(plan.next, d2);
}

#[test]
fn swap_within_one_backend_issues_nothing() {
    let current = device(Backend::CUDA, 0);
    let plan = plan_swap(current, device(Backend::CUDA, 1));
    assert_eq!(plan.calls, vec![]);
    assert_eq!(plan.next, current);
}

#[test]
fn swap_to_the_same_index_of_another_backend_issues_nothing() {
    let current = device(Backend::CUDA, 0);
    let plan = plan_swap(current, device(Backend::CPU, 0));
    assert_eq!(plan.calls, vec![]);
    assert_eq!(plan.next, current);
}

#[test]
fn swap_back_restores_the_first_device() {
    let d1 = device(Backend::CPU, 0);
    let d2 = device(Backend::CUDA, 1);
    let there = plan_swap(d1, d2);
    let back = plan_swap(there.next, d1);
    assert_eq!(back.calls, vec![RuntimeCall::SetBackend(Backend::CPU), RuntimeCall::SetDevice(0)]);
    assert_eq!(back.next, d1);
}

#[test]
fn migration_across_backend_and_index_ends_on_the_target() {
    let d1 = device(Backend::CPU, 0);
    let d2 = device(Backend::OPENCL, 1);
    let to_input = plan_swap(d1, d1);
    assert_eq!(to_input.calls, vec![]);
    let to_target = plan_swap(to_input.next, d2);
    assert_eq!(
        to_target.calls,
        vec![RuntimeCall::SetBackend(Backend::OPENCL), RuntimeCall::SetDevice(1)]
    );
    assert_eq!(to_target.next, d2);
}

#[test]
fn migration_to_the_same_device_issues_nothing() {
    let d1 = device(Backend::CUDA, 2);
    let to_input = plan_swap(d1, d1);
    let to_target = plan_swap(to_input.next, d1);
    assert_eq!(to_input.calls, vec![]);
    assert_eq!(to_target.calls, vec![]);
    assert_eq!(to_target.next, d1);
}

#[test]
fn migration_to_the_same_device_from_elsewhere_switches_once() {
    let current = device(Backend::CPU, 0);
    let d1 = device(Backend::CUDA, 2);
    let to_input = plan_swap(current, d1);
    let to_target = plan_swap(to_input.next, d1);
    assert_eq!(to_input.calls, vec![RuntimeCall::SetBackend(Backend::CUDA), RuntimeCall::SetDevice(2)]);
    assert_eq!(to_target.calls, vec![]);
    assert_eq!(to_target.next, d1);
}

#[test]
fn migration_within_one_backend_stays_on_the_input_device() {
    let d1 = device(Backend::CPU, 0);
    let d2 = device(Backend::CPU, 1);
    let to_input = plan_swap(d1, d1);
    let to_target = plan_swap(to_input.next, d2);
    assert_eq!(to_target.calls, vec![]);
    assert_eq!(to_target.next, d1);
}

#[test]
fn a_plan_never_asks_the_runtime_for_anything_but_switches() {
    let plan = plan_swap(device(Backend::CPU, 0), device(Backend::CUDA, 1));
    assert!(!plan.calls.contains(&RuntimeCall::GetAvailableBackends));
    assert!(!plan.calls.contains(&RuntimeCall::DeviceCount));
}

fn catalog() -> Vec<Device> {
    enumerate_devices(&vec![
        BackendReport { backend: Backend::CUDA, num_devices: 2 },
        BackendReport { backend: Backend::CPU, num_devices: 1 },
    ])
}

#[test]
fn swap_to_an_unregistered_device_is_refused() {
    let current = device(Backend::CPU, 0);
    assert_eq!(
        plan_registered_swap(&catalog(), current, device(Backend::OPENCL, 1)),
        Err(DeviceError::UnregisteredDevice)
    );
    assert_eq!(
        plan_registered_swap(&catalog(), current, device(Backend::CUDA, 2)),
        Err(DeviceError::UnregisteredDevice)
    );
}

#[test]
fn swap_to_an_unregistered_device_is_refused_whatever_is_active() {
    let absent = device(Backend::CPU, 1);
    for current in catalog() {
        assert_eq!(
            plan_registered_swap(&catalog(), current, absent),
            Err(DeviceError::UnregisteredDevice)
        );
    }
}

#[test]
fn swap_to_a_registered_device_is_planned() {
    let plan = plan_registered_swap(&catalog(), device(Backend::CPU, 0), device(Backend::CUDA, 1));
    let plan = plan.unwrap();
    assert_eq!(plan.calls, vec![RuntimeCall::SetBackend(Backend::CUDA), RuntimeCall::SetDevice(1)]);
    assert_eq!(plan.next, device(Backend::CUDA, 1));
}
