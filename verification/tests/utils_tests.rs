use miband4::errors::BandError;
use miband4::notifications::{is_notify_signature, notification_message, Notification};
use miband4::utils::{decode_hex, is_hex_string, meters_to_imperial};

#[test]
fn hex_decodes_pairs_of_digits() {
    assert_eq!(decode_hex(""), Some(vec![]));
    assert_eq!(decode_hex("00ff10"), Some(vec![0x00, 0xFF, 0x10]));
    assert_eq!(decode_hex("DEADbeef"), Some(vec![0xDE, 0xAD, 0xBE, 0xEF]));
}

#[test]
fn hex_rejects_odd_lengths_and_bad_digits() {
    assert_eq!(decode_hex("0"), None);
    assert_eq!(decode_hex("123"), None);
    assert_eq!(decode_hex("zz"), None);
    assert_eq!(decode_hex("0g"), None);
}

#[test]
fn hex_strings_are_recognized() {
    assert!(is_hex_string(""));
    assert!(is_hex_string("0123456789abcdefABCDEF"));
    assert!(!is_hex_string("xyz"));
    assert!(!is_hex_string("12 34"));
}

#[test]
fn short_distances_come_out_in_feet() {
    assert_eq!(meters_to_imperial(0), "0.000 ft");
    assert_eq!(meters_to_imperial(1), "3.281 ft");
    assert_eq!(meters_to_imperial(100), "328.100 ft");
    assert_eq!(meters_to_imperial(160), "524.960 ft");
}

#[test]
fn the_boundary_switches_to_miles_at_161_meters() {
    assert!(meters_to_imperial(160).ends_with(" ft"));
    assert!(meters_to_imperial(161).ends_with(" mi"));
    assert_eq!(meters_to_imperial(161), "0.100 mi");
}

#[test]
fn long_distances_come_out_in_miles() {
    assert_eq!(meters_to_imperial(1609), "1.000 mi");
    assert_eq!(meters_to_imperial(8047), "5.000 mi");
    assert_eq!(meters_to_imperial(65535), "40.722 mi");
}

#[test]
fn error_messages_name_the_failure() {
    assert_eq!(
        BandError::InvalidLockPin.message(),
        "Invalid band lock PIN (must be 4 digits from 1-4)"
    );
    assert_eq!(BandError::InvalidAuthKey.message(), "Invalid auth key");
    assert_eq!(
        BandError::NotInitialized.message(),
        "Device connection is not initialized"
    );
}

#[test]
fn notification_text_joins_summary_and_body() {
    let n = Notification {
        app: String::from("mail"),
        summary: String::from("New message"),
        body: String::from("hello"),
    };
    assert_eq!(notification_message(&n), "New message - hello");
}

#[test]
fn only_the_notify_signature_is_accepted() {
    assert!(is_notify_signature("susssasa{sv}i"));
    assert!(!is_notify_signature("susssasa{sv}"));
    assert!(!is_notify_signature(""));
}
