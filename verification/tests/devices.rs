use hal::device::{
    contains_device, create_devices, enumerate_devices, initial_device, Backend, BackendReport,
    Device, DeviceError,
};

fn device(backend: Backend, id: i32) -> Device {
    Device { backend, id }
}

fn report(backend: Backend, num_devices: i32) -> BackendReport {
    BackendReport { backend, num_devices }
}

#[test]
fn create_devices_gives_one_device_per_index() {
    let devices = create_devices(Backend::CUDA, 3);
    assert_eq!(
        devices,
        vec![device(Backend::CUDA, 0), device(Backend::CUDA, 1), device(Backend::CUDA, 2)]
    );
}

#[test]
fn create_devices_of_a_backend_without_devices_is_empty() {
    assert_eq!(create_devices(Backend::OPENCL, 0), vec![]);
}

#[test]
fn create_devices_of_a_negative_count_is_empty() {
    assert_eq!(create_devices(Backend::CPU, -4), vec![]);
}

#[test]
fn enumerate_devices_keeps_the_order_of_the_reports() {
    let reports = vec![report(Backend::OPENCL, 2), report(Backend::CUDA, 1), report(Backend::CPU, 1)];
    assert_eq!(
        enumerate_devices(&reports),
        vec![
            device(Backend::OPENCL, 0),
            device(Backend::OPENCL, 1),
            device(Backend::CUDA, 0),
            device(Backend::CPU, 0),
        ]
    );
}

#[test]
fn enumerate_devices_skips_backends_without_devices() {
    let reports = vec![report(Backend::OPENCL, 0), report(Backend::CPU, 2), report(Backend::CUDA, 0)];
    assert_eq!(enumerate_devices(&reports), vec![device(Backend::CPU, 0), device(Backend::CPU, 1)]);
}

#[test]
fn enumerate_devices_of_no_reports_is_empty() {
    assert_eq!(enumerate_devices(&vec![]), vec![]);
}

#[test]
fn catalog_is_not_empty_where_every_backend_has_a_device() {
    let reports = vec![report(Backend::CUDA, 1), report(Backend::CPU, 1)];
    let devices = enumerate_devices(&reports);
    assert_eq!(devices.len(), 2);
    let first = initial_device(&devices).unwrap();
    assert!(contains_device(&devices, first));
}

#[test]
fn initial_device_is_the_last_of_the_catalog() {
    let reports = vec![report(Backend::OPENCL, 2), report(Backend::CPU, 3)];
    let devices = enumerate_devices(&reports);
    assert_eq!(initial_device(&devices), Ok(device(Backend::CPU, 2)));
}

#[test]
fn initial_device_of_a_single_device() {
    assert_eq!(initial_device(&vec![device(Backend::CPU, 0)]), Ok(device(Backend::CPU, 0)));
}

#[test]
fn initial_device_of_an_empty_catalog_is_an_error() {
    assert_eq!(initial_device(&vec![]), Err(DeviceError::NoDevices));
}

#[test]
fn no_devices_where_every_backend_is_empty() {
    let reports = vec![report(Backend::OPENCL, 0), report(Backend::CPU, 0)];
    assert_eq!(initial_device(&enumerate_devices(&reports)), Err(DeviceError::NoDevices));
}

#[test]
fn contains_device_finds_each_device_of_the_catalog() {
    let devices = enumerate_devices(&vec![report(Backend::CUDA, 2), report(Backend::CPU, 1)]);
    assert!(contains_device(&devices, device(Backend::CUDA, 0)));
    assert!(contains_device(&devices, device(Backend::CUDA, 1)));
    assert!(contains_device(&devices, device(Backend::CPU, 0)));
}

#[test]
fn contains_device_rejects_a_device_that_is_not_registered() {
    let devices = enumerate_devices(&vec![report(Backend::CUDA, 2), report(Backend::CPU, 1)]);
    assert!(!contains_device(&devices, device(Backend::CUDA, 2)));
    assert!(!contains_device(&devices, device(Backend::CPU, 1)));
    assert!(!contains_device(&devices, device(Backend::OPENCL, 0)));
    assert!(!contains_device(&devices, device(Backend::CPU, -1)));
    assert!(!contains_device(&devices, device(Backend::DEFAULT, 0)));
}

#[test]
fn contains_device_in_an_empty_catalog() {
    assert!(!contains_device(&vec![], device(Backend::CPU, 0)));
}

#[test]
fn catalog_holds_no_device_twice() {
    let reports = vec![report(Backend::OPENCL, 2), report(Backend::CUDA, 3), report(Backend::CPU, 1)];
    let devices = enumerate_devices(&reports);
    assert_eq!(devices.len(), 6);
    for (at, one) in devices.iter().enumerate() {
        for other in &devices[at + 1..] {
            assert_ne!(one, other);
        }
    }
}
