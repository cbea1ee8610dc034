use dedrv::device::{init_repeatedly, Device};
use dedrv::domain::Domain;
use dedrv::drivers::{GpioPin, TallyDriver};
use dedrv::gpio::GpioTag;
use dedrv::registry::{init, Descriptor};
use dedrv::state::ProtectedState;
use dedrv::tag::NoTag;
use dedrv::Error;

#[test]
fn it_should_init_device() {
    let mut domain = Domain::new();
    let mut device: Device<GpioPin> = Device::new();
    device.init(&mut domain);
}

#[test]
fn it_should_use_class_accessor_to_modify_state() {
    let mut domain = Domain::new();
    let mut device: Device<GpioPin> = Device::new();
    device.init(&mut domain);

    let mut gpio = device.accessor::<GpioTag>();
    {
        let entry = domain.enter();
        assert_eq!(*gpio.inner_state_ref(&entry), 0);
    }

    gpio.set_value(&mut domain, 32);
    {
        let entry = domain.enter();
        assert_eq!(*gpio.inner_state_ref(&entry), 32);
    }
}

#[test]
fn gpio_write_is_read_back_in_a_later_domain_entry() {
    let mut domain = Domain::new();
    let mut device: Device<GpioPin> = Device::new();
    device.init(&mut domain);

    let mut gpio = device.accessor::<GpioTag>();
    gpio.set_value(&mut domain, 32);
    assert_eq!(gpio.get_value(&mut domain), 32);
}

#[test]
fn fresh_device_reads_zero_before_init() {
    let mut domain = Domain::new();
    let mut device: Device<GpioPin> = Device::new();

    let gpio = device.accessor::<GpioTag>();
    assert_eq!(gpio.get_value(&mut domain), 0);
}

#[test]
fn default_device_matches_a_new_one() {
    let mut domain = Domain::new();
    let mut device: Device<GpioPin> = Default::default();
    let entry = domain.enter();
    assert_eq!(*device.state_ref(&entry), 0);
    drop(entry);
    let gpio = device.accessor::<GpioTag>();
    assert_eq!(gpio.get_value(&mut domain), 0);
}

#[test]
fn init_is_safe_to_call_repeatedly() {
    let mut domain = Domain::new();
    let mut device: Device<TallyDriver> = Device::new();

    device.init(&mut domain);
    device.init(&mut domain);
    device.init(&mut domain);

    let entry = domain.enter();
    assert_eq!(*device.state_ref(&entry), 3);
}

#[test]
fn repeated_init_applies_the_transform_each_time() {
    let mut domain = Domain::new();
    let mut device: Device<TallyDriver> = Device::new();

    init_repeatedly(&mut device, &mut domain, 5);

    let entry = domain.enter();
    assert_eq!(*device.state_ref(&entry), 5);
}

#[test]
fn cleanup_clears_the_tally() {
    let mut domain = Domain::new();
    let mut device: Device<TallyDriver> = Device::new();

    device.init(&mut domain);
    device.cleanup(&mut domain);

    let entry = domain.enter();
    assert_eq!(*device.state_ref(&entry), 0);
}

#[test]
fn registry_traversal_inits_each_descriptor_exactly_once() {
    let mut domain = Domain::new();
    let mut devices: Vec<Device<TallyDriver>> = Vec::new();
    devices.push(Device::new());
    devices.push(Device::new());
    devices.push(Device::new());

    let descriptors = vec![
        Descriptor::new("/tally0", 0),
        Descriptor::new("/tally1", 1),
        Descriptor::new("/tally2", 2),
    ];

    init(&mut devices, &descriptors, &mut domain);

    let entry = domain.enter();
    assert_eq!(*devices[0].state_ref(&entry), 1);
    assert_eq!(*devices[1].state_ref(&entry), 1);
    assert_eq!(*devices[2].state_ref(&entry), 1);
}

#[test]
fn registry_traversal_of_empty_registry_does_nothing() {
    let mut domain = Domain::new();
    let mut devices: Vec<Device<TallyDriver>> = Vec::new();
    devices.push(Device::new());

    let descriptors: Vec<Descriptor> = Vec::new();
    init(&mut devices, &descriptors, &mut domain);

    let entry = domain.enter();
    assert_eq!(*devices[0].state_ref(&entry), 0);
}

#[test]
fn registry_traversal_visits_duplicate_descriptors_once_each() {
    let mut domain = Domain::new();
    let mut devices: Vec<Device<TallyDriver>> = Vec::new();
    devices.push(Device::new());
    devices.push(Device::new());

    let descriptors = vec![
        Descriptor::new("/tally0", 0),
        Descriptor::new("/tally0b", 0),
        Descriptor::new("/tally1", 1),
    ];

    init(&mut devices, &descriptors, &mut domain);

    let entry = domain.enter();
    assert_eq!(*devices[0].state_ref(&entry), 2);
    assert_eq!(*devices[1].state_ref(&entry), 1);
}

#[test]
fn descriptor_keeps_path_and_device() {
    let d = Descriptor::new("/gpio0", 7);
    assert_eq!(d.path, "/gpio0");
    assert_eq!(d.device, 7);
}

#[test]
fn raw_accessor_reads_and_writes_state() {
    let mut domain = Domain::new();
    let mut device: Device<GpioPin> = Device::new();

    let mut raw = device.accessor::<NoTag>();
    {
        let entry = domain.enter();
        let state = raw.inner_state_ref_mut(&entry);
        *state = 5;
    }
    {
        let entry = domain.enter();
        assert_eq!(*raw.inner_state_ref(&entry), 5);
        assert_eq!(raw.inner().state.borrow(&entry), &5);
    }
}

#[test]
fn device_state_ref_mut_updates_state() {
    let mut domain = Domain::new();
    let mut device: Device<GpioPin> = Device::new();

    {
        let entry = domain.enter();
        let state = device.state_ref_mut(&entry);
        *state = 9;
    }
    let entry = domain.enter();
    assert_eq!(*device.state_ref(&entry), 9);
}

#[test]
fn protected_state_round_trip() {
    let mut domain = Domain::new();
    let mut state: ProtectedState<u32> = ProtectedState::new(11);

    {
        let entry = domain.enter();
        assert_eq!(*state.borrow(&entry), 11);
        let inner = state.borrow_mut(&entry);
        *inner = 12;
    }
    assert_eq!(state.into_inner(), 12);
}

#[test]
fn crate_error_reports_undefined() {
    let e = Error::Undefined;
    assert_eq!(e.message(), "undefined error");
    assert_eq!(e, Error::Undefined);
}
