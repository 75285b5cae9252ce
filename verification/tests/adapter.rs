use ash_sandbox::device::{
    filter_physical_device, pick_physical_device, rank_physical_device, DeviceClass, QueueFamily,
};

fn family(graphics: bool, compute: bool, transfer: bool) -> QueueFamily {
    QueueFamily { graphics, compute, transfer }
}

#[test]
fn device_rank_order() {
    assert_eq!(rank_physical_device(DeviceClass::DiscreteGpu), 0);
    assert_eq!(rank_physical_device(DeviceClass::IntegratedGpu), 1);
    assert_eq!(rank_physical_device(DeviceClass::VirtualGpu), 2);
    assert_eq!(rank_physical_device(DeviceClass::Cpu), 3);
    assert_eq!(rank_physical_device(DeviceClass::Other), 4);
    assert_eq!(rank_physical_device(DeviceClass::Unknown), usize::MAX);
}

#[test]
fn first_capable_family_is_found() {
    let families = vec![
        family(true, false, true),
        family(true, true, true),
        family(true, true, true),
    ];
    assert_eq!(filter_physical_device(&families), Some(1));
}

#[test]
fn no_capable_family_is_an_error() {
    let families = vec![family(true, false, true), family(false, true, true)];
    assert_eq!(filter_physical_device(&families), None);
}

#[test]
fn no_families_is_an_error() {
    assert_eq!(filter_physical_device(&vec![]), None);
}

#[test]
fn discrete_beats_integrated() {
    let classes = vec![DeviceClass::IntegratedGpu, DeviceClass::DiscreteGpu, DeviceClass::Cpu];
    assert_eq!(pick_physical_device(&classes), Some(1));
}

#[test]
fn first_of_equal_rank_is_picked() {
    let classes = vec![DeviceClass::Cpu, DeviceClass::Cpu, DeviceClass::Unknown];
    assert_eq!(pick_physical_device(&classes), Some(0));
}

#[test]
fn no_adapter_is_an_error() {
    assert_eq!(pick_physical_device(&vec![]), None);
}
