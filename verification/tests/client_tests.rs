use miband4::client::{
    advertises_band, band_discovery_filter, band_event_passes, filter_known_bands, AuthStep,
    BandChars, MiBand, SERVICE_BAND_0,
};
use miband4::errors::BandError;
use miband4::session::{DiscoveredDevice, DiscoveredDeviceEvent};
use miband4::store::{ActivityGoal, BandLock};
use miband4::time::BandTime;

fn discovered(address: &str, services: Vec<String>) -> DiscoveredDevice {
    DiscoveredDevice {
        path: format!("/org/bluez/hci0/dev_{}", address),
        address: String::from(address),
        services,
        rssi: None,
        connected: false,
    }
}

fn resolved_chars() -> BandChars {
    BandChars {
        battery: String::from("/c/battery"),
        steps: String::from("/c/steps"),
        firm_rev: String::from("/c/rev"),
        time: String::from("/c/time"),
        auth: String::from("/c/auth"),
        config: String::from("/c/config"),
        settings: String::from("/c/settings"),
        alert: String::from("/c/alert"),
        chunked_transfer: String::from("/c/chunked"),
        music_notifs: String::from("/c/music"),
    }
}

fn ready_band() -> MiBand {
    let mut band = MiBand::from_discovered_device(&discovered("AA", vec![]));
    band.install_chars(resolved_chars());
    band
}

#[test]
fn fresh_state_is_unauthenticated_and_unresolved() {
    let band = MiBand::from_discovered_device(&discovered("AA", vec![]));
    assert_eq!(band.address, "AA");
    assert!(!band.authenticated);
    assert!(band.chars.is_none());
    assert!(band.band_chars().is_err());
}

#[test]
fn resolution_is_needed_after_a_fresh_connect_or_without_cache() {
    let mut band = MiBand::from_discovered_device(&discovered("AA", vec![]));
    assert!(band.needs_char_resolution(false));
    assert!(band.needs_char_resolution(true));
    band.install_chars(resolved_chars());
    assert!(band.needs_char_resolution(false));
    assert!(!band.needs_char_resolution(true));
}

#[test]
fn disconnect_clears_authentication_but_keeps_the_handles() {
    let mut band = ready_band();
    band.authenticated = true;
    band.disconnect();
    assert!(!band.authenticated);
    assert!(band.chars.is_some());
}

#[test]
fn operations_demand_authentication_first() {
    let band = ready_band();
    let t = BandTime { year: 2024, month: 11, day: 20, hour: 13, minute: 5, second: 9 };
    assert_eq!(band.set_band_time_payload(&t), Err(BandError::RequiresAuth));
    let goal = ActivityGoal { notifications: true, steps: 8000 };
    assert_eq!(band.set_activity_goal_payloads(&goal), Err(BandError::RequiresAuth));
}

#[test]
fn operations_demand_resolved_characteristics() {
    let mut band = MiBand::from_discovered_device(&discovered("AA", vec![]));
    band.authenticated = true;
    let t = BandTime { year: 2024, month: 11, day: 20, hour: 13, minute: 5, second: 9 };
    assert_eq!(band.set_band_time_payload(&t), Err(BandError::NotInitialized));
    let lock = BandLock { pin: String::from("1234"), enabled: true };
    assert_eq!(band.set_band_lock_payload(&lock), Err(BandError::NotInitialized));
    assert_eq!(band.write_chunked(0x03, &[0x00]), Err(BandError::NotInitialized));
}

#[test]
fn time_payload_comes_out_once_authenticated() {
    let mut band = ready_band();
    band.authenticated = true;
    let t = BandTime { year: 2024, month: 11, day: 20, hour: 13, minute: 5, second: 9 };
    assert_eq!(
        band.set_band_time_payload(&t),
        Ok(vec![0xE8, 0x07, 0x0B, 0x14, 0x0D, 0x05, 0x09, 3, 0, 0, 0])
    );
}

#[test]
fn goal_payloads_come_as_a_pair() {
    let mut band = ready_band();
    band.authenticated = true;
    let goal = ActivityGoal { notifications: false, steps: 8000 };
    let (config, steps) = band.set_activity_goal_payloads(&goal).unwrap();
    assert_eq!(config, vec![0x06, 0x06, 0x00, 0x00]);
    assert_eq!(steps, vec![0x10, 0x00, 0x00, 0x40, 0x1F, 0x00, 0x00]);
}

#[test]
fn lock_pin_is_validated_before_any_write() {
    let band = ready_band();
    let bad = BandLock { pin: String::from("0123"), enabled: true };
    assert_eq!(band.set_band_lock_payload(&bad), Err(BandError::InvalidLockPin));
    let good = BandLock { pin: String::from("1111"), enabled: false };
    assert_eq!(
        band.set_band_lock_payload(&good),
        Ok(vec![0x06, 0x21, 0x00, 0x00, b'1', b'1', b'1', b'1', 0x00])
    );
}

#[test]
fn clearing_media_goes_out_as_one_chunked_frame() {
    let band = ready_band();
    let frames = band.set_media_info_frames(&None).unwrap();
    assert_eq!(frames, vec![vec![0x00, 0xC3, 0x00, 0x00, 0x00, 0x00, 0x00, 0x00]]);
}

#[test]
fn rejection_during_authentication_is_final_for_the_attempt() {
    let mut band = ready_band();
    assert!(matches!(band.auth_step(&[0x10, 0x03, 0x08], &[0u8; 16]), AuthStep::Rejected));
    assert!(!band.authenticated);
}

#[test]
fn band_filter_keeps_only_advertisers() {
    let with = discovered("AA", vec![String::from(SERVICE_BAND_0)]);
    let without = discovered("BB", vec![String::from("0000aaaa-0000-1000-8000-00805f9b34fb")]);
    assert!(advertises_band(&with));
    assert!(!advertises_band(&without));
    let kept = filter_known_bands(vec![with, without]);
    assert_eq!(kept.len(), 1);
    assert_eq!(kept[0].address, "AA");
}

#[test]
fn event_filter_passes_removals_through() {
    let added = DiscoveredDeviceEvent::DeviceAdded(discovered("BB", vec![]));
    assert!(!band_event_passes(&added));
    let removed = DiscoveredDeviceEvent::DeviceRemoved(String::from("/org/bluez/hci0/dev_BB"));
    assert!(band_event_passes(&removed));
}

#[test]
fn discovery_filter_targets_the_band_service() {
    let filter = band_discovery_filter();
    assert_eq!(filter.uuids, vec![String::from(SERVICE_BAND_0)]);
    assert_eq!(filter.transport, "le");
    assert!(!filter.duplicate_data);
}
