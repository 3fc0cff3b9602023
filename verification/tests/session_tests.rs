use miband4::client::{
    resolve_band_chars, CHAR_ALERT, CHAR_AUTH, CHAR_BATTERY, CHAR_CHUNKED_TRANSFER, CHAR_CONFIG,
    CHAR_MUSIC_NOTIFICATIONS, CHAR_SETTINGS, CHAR_SOFT_REV, CHAR_STEPS, CHAR_TIME,
    SERVICE_BAND_0, SERVICE_BAND_1, SERVICE_DEVICE_INFO, SERVICE_NOTIFICATION,
};
use miband4::errors::BandError;
use miband4::session::{
    classify_added_object, classify_removed_object, devices_from_objects, is_device_path,
    resolve_characteristics, BusObject, CharacteristicEntry, DeviceProperties,
    DiscoveredDeviceEvent, ServiceEntry,
};

const ADAPTER: &str = "/org/bluez/hci0";

fn device_object(path: &str, address: &str) -> BusObject {
    BusObject {
        path: String::from(path),
        device: Some(DeviceProperties {
            address: String::from(address),
            services: vec![String::from(SERVICE_BAND_0)],
            rssi: Some(-60),
            connected: false,
        }),
        service_uuid: None,
        characteristic: None,
    }
}

fn service_object(path: &str, uuid: &str) -> BusObject {
    BusObject {
        path: String::from(path),
        device: None,
        service_uuid: Some(String::from(uuid)),
        characteristic: None,
    }
}

fn char_object(path: &str, service_path: &str, uuid: &str) -> BusObject {
    BusObject {
        path: String::from(path),
        device: None,
        service_uuid: None,
        characteristic: Some(miband4::session::CharacteristicProperties {
            service_path: String::from(service_path),
            uuid: String::from(uuid),
        }),
    }
}

#[test]
fn one_segment_below_the_adapter_is_a_device() {
    assert!(is_device_path(ADAPTER, "/org/bluez/hci0/dev_AA_BB_CC_DD_EE_FF"));
}

#[test]
fn deeper_paths_are_not_devices() {
    assert!(!is_device_path(ADAPTER, "/org/bluez/hci0/dev_AA_BB_CC_DD_EE_FF/service000c"));
    assert!(!is_device_path(
        ADAPTER,
        "/org/bluez/hci0/dev_AA_BB_CC_DD_EE_FF/service000c/char000d"
    ));
}

#[test]
fn the_adapter_itself_and_strangers_are_not_devices() {
    assert!(!is_device_path(ADAPTER, "/org/bluez/hci0"));
    assert!(!is_device_path(ADAPTER, "/org/bluez/hci0/"));
    assert!(!is_device_path(ADAPTER, "/org/bluez/hci1/dev_AA"));
    assert!(!is_device_path(ADAPTER, "/somewhere/else"));
}

#[test]
fn enumeration_keeps_devices_and_skips_the_rest() {
    let objects = vec![
        device_object("/org/bluez/hci0/dev_AA", "AA:00:00:00:00:00"),
        service_object("/org/bluez/hci0/dev_AA/service000c", SERVICE_BAND_0),
        BusObject {
            path: String::from("/org/bluez/hci0/dev_BB"),
            device: None,
            service_uuid: None,
            characteristic: None,
        },
        device_object("/org/bluez/hci0/dev_CC", "CC:00:00:00:00:00"),
    ];
    let devices = devices_from_objects(ADAPTER, &objects);
    assert_eq!(devices.len(), 2);
    assert_eq!(devices[0].path, "/org/bluez/hci0/dev_AA");
    assert_eq!(devices[0].address, "AA:00:00:00:00:00");
    assert_eq!(devices[0].rssi, Some(-60));
    assert_eq!(devices[1].path, "/org/bluez/hci0/dev_CC");
}

#[test]
fn resolution_joins_services_with_their_characteristics() {
    let dev = "/org/bluez/hci0/dev_AA";
    let objects = vec![
        service_object("/org/bluez/hci0/dev_AA/s1", "uuid-s1"),
        char_object("/org/bluez/hci0/dev_AA/s1/c1", "/org/bluez/hci0/dev_AA/s1", "uuid-c1"),
        char_object("/org/bluez/hci0/dev_AA/s1/c2", "/org/bluez/hci0/dev_AA/s1", "uuid-c2"),
        service_object("/org/bluez/hci0/dev_AA/s2", "uuid-s2"),
        // Belongs to another device entirely.
        char_object("/org/bluez/hci0/dev_BB/s9/c9", "/org/bluez/hci0/dev_BB/s9", "uuid-c9"),
    ];
    let services = resolve_characteristics(dev, &objects);
    assert_eq!(services.len(), 2);
    assert_eq!(services[0].uuid, "uuid-s1");
    assert_eq!(services[0].characteristics.len(), 2);
    assert_eq!(services[0].characteristics[0].uuid, "uuid-c1");
    assert_eq!(services[0].characteristics[0].path, "/org/bluez/hci0/dev_AA/s1/c1");
    assert_eq!(services[0].characteristics[1].uuid, "uuid-c2");
    // A service with no characteristics keeps an empty list.
    assert_eq!(services[1].uuid, "uuid-s2");
    assert_eq!(services[1].characteristics.len(), 0);
}

fn full_service_set() -> Vec<ServiceEntry> {
    let band0_chars = [
        CHAR_BATTERY,
        CHAR_STEPS,
        CHAR_TIME,
        CHAR_CONFIG,
        CHAR_SETTINGS,
        CHAR_CHUNKED_TRANSFER,
        CHAR_MUSIC_NOTIFICATIONS,
    ];
    let mut services = Vec::new();
    services.push(ServiceEntry {
        uuid: String::from(SERVICE_BAND_0),
        characteristics: band0_chars
            .iter()
            .enumerate()
            .map(|(i, uuid)| CharacteristicEntry {
                uuid: String::from(*uuid),
                path: format!("/dev/s0/c{}", i),
            })
            .collect(),
    });
    services.push(ServiceEntry {
        uuid: String::from(SERVICE_BAND_1),
        characteristics: vec![CharacteristicEntry {
            uuid: String::from(CHAR_AUTH),
            path: String::from("/dev/s1/auth"),
        }],
    });
    services.push(ServiceEntry {
        uuid: String::from(SERVICE_DEVICE_INFO),
        characteristics: vec![CharacteristicEntry {
            uuid: String::from(CHAR_SOFT_REV),
            path: String::from("/dev/s2/rev"),
        }],
    });
    services.push(ServiceEntry {
        uuid: String::from(SERVICE_NOTIFICATION),
        characteristics: vec![CharacteristicEntry {
            uuid: String::from(CHAR_ALERT),
            path: String::from("/dev/s3/alert"),
        }],
    });
    services
}

#[test]
fn a_complete_tree_resolves_all_ten_handles() {
    let chars = resolve_band_chars(&full_service_set()).unwrap();
    assert_eq!(chars.battery, "/dev/s0/c0");
    assert_eq!(chars.steps, "/dev/s0/c1");
    assert_eq!(chars.time, "/dev/s0/c2");
    assert_eq!(chars.config, "/dev/s0/c3");
    assert_eq!(chars.settings, "/dev/s0/c4");
    assert_eq!(chars.chunked_transfer, "/dev/s0/c5");
    assert_eq!(chars.music_notifs, "/dev/s0/c6");
    assert_eq!(chars.auth, "/dev/s1/auth");
    assert_eq!(chars.firm_rev, "/dev/s2/rev");
    assert_eq!(chars.alert, "/dev/s3/alert");
}

#[test]
fn a_missing_characteristic_rejects_the_whole_set() {
    let mut services = full_service_set();
    services[1].characteristics.clear();
    match resolve_band_chars(&services) {
        Err(BandError::MissingServicesOrChars) => {},
        other => panic!("expected a wholesale rejection, got {:?}", other),
    }
}

#[test]
fn a_missing_service_rejects_the_whole_set() {
    let mut services = full_service_set();
    services.remove(3);
    assert!(resolve_band_chars(&services).is_err());
}

#[test]
fn added_objects_become_add_events_only_for_devices() {
    let event = classify_added_object(ADAPTER, &device_object("/org/bluez/hci0/dev_AA", "AA"));
    match event {
        Some(DiscoveredDeviceEvent::DeviceAdded(d)) => assert_eq!(d.address, "AA"),
        other => panic!("expected an add event, got {:?}", other),
    }
    let not_device = service_object("/org/bluez/hci0/dev_AA/s1", "uuid");
    assert!(classify_added_object(ADAPTER, &not_device).is_none());
}

#[test]
fn removals_need_the_device_interface_among_those_removed() {
    let interfaces = vec![String::from("org.bluez.Device1"), String::from("x")];
    match classify_removed_object(ADAPTER, "/org/bluez/hci0/dev_AA", &interfaces) {
        Some(DiscoveredDeviceEvent::DeviceRemoved(path)) => {
            assert_eq!(path, "/org/bluez/hci0/dev_AA")
        },
        other => panic!("expected a remove event, got {:?}", other),
    }
    let unrelated = vec![String::from("org.bluez.MediaControl1")];
    assert!(classify_removed_object(ADAPTER, "/org/bluez/hci0/dev_AA", &unrelated).is_none());
    let deep = vec![String::from("org.bluez.Device1")];
    assert!(classify_removed_object(ADAPTER, "/org/bluez/hci0/dev_AA/s1", &deep).is_none());
}
