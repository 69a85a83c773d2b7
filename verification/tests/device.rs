use zoom_status::custom_device::{CustomDevice, DeviceError};

fn devices() -> Vec<CustomDevice> {
    vec![
        CustomDevice::new("lo".to_string(), Some("loopback".to_string())),
        CustomDevice::new("eth0".to_string(), None),
        CustomDevice::new("wlp2s0".to_string(), Some("first".to_string())),
        CustomDevice::new("wlp2s0".to_string(), Some("second".to_string())),
    ]
}

#[test]
fn device_keeps_name_and_description() {
    let device = CustomDevice::new("eth0".to_string(), Some("wired".to_string()));
    assert_eq!(device.name(), "eth0");
    assert_eq!(device.desc(), &Some("wired".to_string()));
    let bare = CustomDevice::new("eth1".to_string(), None);
    assert_eq!(bare.name(), "eth1");
    assert_eq!(bare.desc(), &None);
}

#[test]
fn device_from_name_finds_the_first_of_that_name() {
    let found = CustomDevice::device_from_name("wlp2s0".to_string(), &devices()).unwrap();
    assert_eq!(found.name(), "wlp2s0");
    assert_eq!(found.desc(), &Some("first".to_string()));
    let plain = CustomDevice::device_from_name("eth0".to_string(), &devices()).unwrap();
    assert_eq!(plain.name(), "eth0");
    assert_eq!(plain.desc(), &None);
}

#[test]
fn device_from_name_fails_for_an_unknown_name() {
    let missing = CustomDevice::device_from_name("eth9".to_string(), &devices());
    assert_eq!(missing.err(), Some(DeviceError::NoSuchDevice));
    let none = CustomDevice::device_from_name("lo".to_string(), &Vec::new());
    assert_eq!(none.err(), Some(DeviceError::NoSuchDevice));
    let prefix = CustomDevice::device_from_name("eth".to_string(), &devices());
    assert_eq!(prefix.err(), Some(DeviceError::NoSuchDevice));
}

#[test]
fn clone_keeps_name_and_description() {
    let device = CustomDevice::new("eth0".to_string(), Some("wired".to_string()));
    let copy = device.clone();
    assert_eq!(copy.name(), "eth0");
    assert_eq!(copy.desc(), &Some("wired".to_string()));
    let bare = CustomDevice::new("eth1".to_string(), None).clone();
    assert_eq!(bare.name(), "eth1");
    assert_eq!(bare.desc(), &None);
}
