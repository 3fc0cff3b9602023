use miband4::codec::{parse_battery, BatteryStatus};
use miband4::errors::BandError;
use miband4::time::{day_of_week, encode_time, parse_time, time_write_payload, BandTime};

fn sample_time() -> BandTime {
    BandTime { year: 2024, month: 11, day: 20, hour: 13, minute: 5, second: 9 }
}

#[test]
fn decodes_a_valid_timestamp() {
    let bytes = [0xE8, 0x07, 0x0B, 0x14, 0x0D, 0x05, 0x09];
    assert_eq!(parse_time(&bytes), Some(sample_time()));
}

#[test]
fn short_buffers_yield_nothing() {
    assert_eq!(parse_time(&[]), None);
    assert_eq!(parse_time(&[0xE8, 0x07, 0x0B, 0x14, 0x0D, 0x05]), None);
}

#[test]
fn month_thirteen_fails() {
    let bytes = [0xE8, 0x07, 0x0D, 0x14, 0x0D, 0x05, 0x09];
    assert_eq!(parse_time(&bytes), None);
}

#[test]
fn day_thirty_two_fails() {
    let bytes = [0xE8, 0x07, 0x0B, 0x20, 0x0D, 0x05, 0x09];
    assert_eq!(parse_time(&bytes), None);
}

#[test]
fn month_zero_and_day_zero_fail() {
    assert_eq!(parse_time(&[0xE8, 0x07, 0x00, 0x14, 0x0D, 0x05, 0x09]), None);
    assert_eq!(parse_time(&[0xE8, 0x07, 0x0B, 0x00, 0x0D, 0x05, 0x09]), None);
}

#[test]
fn out_of_range_clock_fields_fail() {
    assert_eq!(parse_time(&[0xE8, 0x07, 0x0B, 0x14, 24, 0x05, 0x09]), None);
    assert_eq!(parse_time(&[0xE8, 0x07, 0x0B, 0x14, 0x0D, 60, 0x09]), None);
    assert_eq!(parse_time(&[0xE8, 0x07, 0x0B, 0x14, 0x0D, 0x05, 60]), None);
}

#[test]
fn february_twenty_ninth_only_in_leap_years() {
    // 2024-02-29 is real; 2023-02-29 is not.
    assert!(parse_time(&[0xE8, 0x07, 0x02, 0x1D, 0x00, 0x00, 0x00]).is_some());
    assert_eq!(parse_time(&[0xE7, 0x07, 0x02, 0x1D, 0x00, 0x00, 0x00]), None);
    // 1900 was no leap year; 2000 was.
    assert_eq!(parse_time(&[0x6C, 0x07, 0x02, 0x1D, 0x00, 0x00, 0x00]), None);
    assert!(parse_time(&[0xD0, 0x07, 0x02, 0x1D, 0x00, 0x00, 0x00]).is_some());
}

#[test]
fn round_trips_valid_timestamps() {
    let samples = [
        sample_time(),
        BandTime { year: 2000, month: 2, day: 29, hour: 0, minute: 0, second: 0 },
        BandTime { year: 1999, month: 12, day: 31, hour: 23, minute: 59, second: 59 },
        BandTime { year: 2025, month: 1, day: 1, hour: 0, minute: 0, second: 0 },
    ];
    for t in samples {
        let bytes = encode_time(&t);
        assert_eq!(parse_time(&bytes), Some(t));
    }
}

#[test]
fn encodes_the_wire_bytes() {
    assert_eq!(encode_time(&sample_time()), vec![0xE8, 0x07, 0x0B, 0x14, 0x0D, 0x05, 0x09]);
}

#[test]
fn day_of_week_counts_from_sunday() {
    // 2024-11-20 was a Wednesday.
    assert_eq!(day_of_week(&sample_time()), 3);
    // 2024-11-17 was a Sunday.
    let sunday = BandTime { year: 2024, month: 11, day: 17, hour: 0, minute: 0, second: 0 };
    assert_eq!(day_of_week(&sunday), 0);
    // 2000-01-01 was a Saturday.
    let y2k = BandTime { year: 2000, month: 1, day: 1, hour: 0, minute: 0, second: 0 };
    assert_eq!(day_of_week(&y2k), 6);
}

#[test]
fn time_write_payload_appends_weekday_and_zeros() {
    let payload = time_write_payload(&sample_time());
    assert_eq!(payload, vec![0xE8, 0x07, 0x0B, 0x14, 0x0D, 0x05, 0x09, 3, 0, 0, 0]);
}

#[test]
fn battery_record_decodes() {
    let mut bytes = vec![0x00, 0x55, 0x01];
    bytes.extend_from_slice(&[0; 8]);
    bytes.extend_from_slice(&[0xE8, 0x07, 0x0B, 0x14, 0x0D, 0x05, 0x09]);
    assert_eq!(bytes.len(), 18);
    assert_eq!(
        parse_battery(&bytes),
        Ok(BatteryStatus { battery_level: 85, last_charge: sample_time(), charging: true })
    );
}

#[test]
fn battery_record_not_charging() {
    let mut bytes = vec![0x00, 0x10, 0x00];
    bytes.extend_from_slice(&[0; 8]);
    bytes.extend_from_slice(&[0xE8, 0x07, 0x01, 0x01, 0x00, 0x00, 0x00]);
    let status = parse_battery(&bytes).unwrap();
    assert_eq!(status.battery_level, 16);
    assert!(!status.charging);
}

#[test]
fn battery_record_with_impossible_date_fails() {
    let mut bytes = vec![0x00, 0x55, 0x01];
    bytes.extend_from_slice(&[0; 8]);
    bytes.extend_from_slice(&[0xE8, 0x07, 0x0D, 0x20, 0x0D, 0x05, 0x09]);
    assert_eq!(parse_battery(&bytes), Err(BandError::InvalidTime));
}
