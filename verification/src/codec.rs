use vstd::prelude::*;

use crate::errors::BandError;
use crate::store::BandLock;
use crate::time::{spec_parse_time, parse_time, BandTime};
use vstd::string::StringSliceAdditionalSpecFns;

verus! {

/// Battery state as read from the battery characteristic.
#[derive(Clone, Copy, Debug, PartialEq, Eq, Structural)]
pub struct BatteryStatus {
    pub battery_level: u8,
    pub last_charge: BandTime,
    pub charging: bool,
}

/// Today's totals as read from the steps characteristic.
#[derive(Clone, Copy, Debug, PartialEq, Eq, Structural)]
pub struct CurrentActivity {
    pub steps: u16,
    pub calories: u16,
    pub meters: u16,
}

/// The categories of alert the band can display.
#[derive(Clone, Copy, Debug, PartialEq, Eq, Structural)]
pub enum AlertType {
    Mail,
    Call,
    MissedCall,
    Message,
}

pub open spec fn spec_alert_type_byte(t: AlertType) -> u8 {
    match t {
        AlertType::Mail => 0x01,
        AlertType::Call => 0x03,
        AlertType::MissedCall => 0x04,
        AlertType::Message => 0x05,
    }
}

impl AlertType {
    /// The wire code for this alert category.
    pub fn type_byte(&self) -> (r: u8)
        ensures
            r == spec_alert_type_byte(*self),
    {
        match self {
            AlertType::Mail => 0x01,
            AlertType::Call => 0x03,
            AlertType::MissedCall => 0x04,
            AlertType::Message => 0x05,
        }
    }
}

/// An alert to show on the band: a category, a title and a message body.
pub struct Alert<'a> {
    pub alert_type: AlertType,
    pub title: &'a str,
    pub message: &'a str,
}

/// Append every byte of `data` to `out`.
pub fn append_bytes(out: &mut Vec<u8>, data: &[u8])
    ensures
        final(out)@ == old(out)@ + data@,
{
    let ghost start = out@;
    let n: usize = data.len();
    for i in 0..n
        invariant
            n == data@.len(),
            out@ == start + data@.subrange(0, i as int),
    {
        out.push(data[i]);
        proof {
            assert(start + data@.subrange(0, i + 1) =~= (start + data@.subrange(0, i as int)).push(
                data@[i as int],
            ));
        }
    }
    proof {
        assert(data@.subrange(0, n as int) =~= data@);
    }
}

/// What decoding a battery record yields. The level sits in the second
/// byte, the charging flag in the third, and the last-charge timestamp in
/// the seven bytes at offset eleven; an impossible timestamp fails the
/// whole record.
pub open spec fn spec_parse_battery(bytes: Seq<u8>) -> Result<BatteryStatus, BandError>
    recommends
        bytes.len() >= 18,
{
    match spec_parse_time(bytes.subrange(11, 18)) {
        Some(t) => Ok(
            BatteryStatus { battery_level: bytes[1], last_charge: t, charging: bytes[2] != 0 },
        ),
        None => Err(BandError::InvalidTime),
    }
}

/// Decode a battery record.
pub fn parse_battery(value: &[u8]) -> (r: Result<BatteryStatus, BandError>)
    requires
        value@.len() >= 18,
    ensures
        r == spec_parse_battery(value@),
{
    let battery_level: u8 = value[1];
    let charging: bool = value[2] != 0;
    match parse_time(&value[11..18]) {
        Some(last_charge) => Ok(BatteryStatus { battery_level, last_charge, charging }),
        None => Err(BandError::InvalidTime),
    }
}

/// What decoding a steps record yields: little-endian step, meter and
/// calorie counts at offsets one, five and nine.
pub open spec fn spec_parse_activity(bytes: Seq<u8>) -> CurrentActivity
    recommends
        bytes.len() >= 11,
{
    CurrentActivity {
        steps: (bytes[1] + bytes[2] * 256) as u16,
        meters: (bytes[5] + bytes[6] * 256) as u16,
        calories: (bytes[9] + bytes[10] * 256) as u16,
    }
}

/// Decode a steps record.
pub fn parse_activity(value: &[u8]) -> (r: CurrentActivity)
    requires
        value@.len() >= 11,
    ensures
        r == spec_parse_activity(value@),
{
    let steps: u16 = (value[1] as u16) + (value[2] as u16) * 256;
    let meters: u16 = (value[5] as u16) + (value[6] as u16) * 256;
    let calories: u16 = (value[9] as u16) + (value[10] as u16) * 256;
    CurrentActivity { steps, meters, calories }
}

/// The four bytes that toggle goal notifications on the config
/// characteristic.
pub open spec fn spec_goal_config_bytes(notifications: bool) -> Seq<u8> {
    seq![0x06u8, 0x06u8, 0x00u8, if notifications { 0x01u8 } else { 0x00u8 }]
}

/// Build the goal-notification toggle payload.
pub fn goal_config_payload(notifications: bool) -> (r: Vec<u8>)
    ensures
        r@ == spec_goal_config_bytes(notifications),
{
    let flag: u8 = if notifications { 0x01 } else { 0x00 };
    let mut out: Vec<u8> = Vec::new();
    out.push(0x06);
    out.push(0x06);
    out.push(0x00);
    out.push(flag);
    proof {
        assert(out@ =~= spec_goal_config_bytes(notifications));
    }
    out
}

/// The seven bytes that carry the little-endian step target to the
/// settings characteristic.
pub open spec fn spec_goal_steps_bytes(steps: u16) -> Seq<u8> {
    seq![0x10u8, 0x00u8, 0x00u8, (steps % 256) as u8, (steps / 256) as u8, 0x00u8, 0x00u8]
}

/// Build the step-target payload.
pub fn goal_steps_payload(steps: u16) -> (r: Vec<u8>)
    ensures
        r@ == spec_goal_steps_bytes(steps),
{
    let mut out: Vec<u8> = Vec::new();
    out.push(0x10);
    out.push(0x00);
    out.push(0x00);
    out.push((steps % 256) as u8);
    out.push((steps / 256) as u8);
    out.push(0x00);
    out.push(0x00);
    proof {
        assert(out@ =~= spec_goal_steps_bytes(steps));
    }
    out
}

/// A valid band-lock PIN: exactly four characters, each a digit from
/// '1' to '4'.
pub open spec fn valid_pin(pin: Seq<char>) -> bool {
    pin.len() == 4 && forall|i: int| 0 <= i < pin.len() ==> '1' <= #[trigger] pin[i] <= '4'
}

/// Check a band-lock PIN.
pub fn pin_is_valid(pin: &str) -> (r: bool)
    ensures
        r == valid_pin(pin@),
{
    let n: usize = pin.unicode_len();
    if n != 4 {
        return false;
    }
    for i in 0..4usize
        invariant
            pin@.len() == 4,
            forall|j: int| 0 <= j < i ==> '1' <= #[trigger] pin@[j] <= '4',
    {
        let c: char = pin.get_char(i);
        if c < '1' || c > '4' {
            return false;
        }
    }
    true
}

/// The band-lock payload: a header with the enabled flag, the PIN's four
/// ASCII bytes, and a trailing zero.
pub open spec fn spec_band_lock_bytes(pin: Seq<char>, enabled: bool) -> Seq<u8> {
    seq![0x06u8, 0x21u8, 0x00u8, if enabled { 0x01u8 } else { 0x00u8 }] + Seq::new(
        pin.len(),
        |i: int| pin[i] as u8,
    ) + seq![0x00u8]
}

/// Validate the PIN and build the band-lock payload; a malformed PIN is
/// rejected before anything would reach the device.
pub fn band_lock_payload(lock: &BandLock) -> (r: Result<Vec<u8>, BandError>)
    ensures
        match r {
            Ok(p) => valid_pin(lock.pin@) && p@ == spec_band_lock_bytes(lock.pin@, lock.enabled),
            Err(e) => e == BandError::InvalidLockPin && !valid_pin(lock.pin@),
        },
{
    let pin_str: &str = lock.pin.as_str();
    if !pin_is_valid(pin_str) {
        return Err(BandError::InvalidLockPin);
    }
    proof {
        assert(vstd::utf8::is_ascii_chars(pin_str@));
        vstd::string::is_ascii_spec_bytes(pin_str);
    }
    let mut out: Vec<u8> = Vec::new();
    out.push(0x06);
    out.push(0x21);
    out.push(0x00);
    out.push(if lock.enabled { 0x01 } else { 0x00 });
    append_bytes(&mut out, pin_str.as_bytes());
    out.push(0x00);
    proof {
        assert(out@ =~= spec_band_lock_bytes(lock.pin@, lock.enabled));
    }
    Ok(out)
}

/// The alert payload: the category byte, a constant one, then the
/// zero-terminated title and message texts.
pub open spec fn spec_alert_bytes(t: AlertType, title: Seq<u8>, message: Seq<u8>) -> Seq<u8> {
    seq![spec_alert_type_byte(t), 0x01u8] + title + seq![0x00u8] + message + seq![0x00u8]
}

/// Build the payload that shows an alert on the band.
pub fn alert_payload(alert_data: &Alert<'_>) -> (r: Vec<u8>)
    ensures
        r@ == spec_alert_bytes(
            alert_data.alert_type,
            alert_data.title.spec_bytes(),
            alert_data.message.spec_bytes(),
        ),
{
    let mut out: Vec<u8> = Vec::new();
    out.push(alert_data.alert_type.type_byte());
    out.push(0x01);
    append_bytes(&mut out, alert_data.title.as_bytes());
    out.push(0x00);
    append_bytes(&mut out, alert_data.message.as_bytes());
    out.push(0x00);
    proof {
        assert(out@ =~= spec_alert_bytes(
            alert_data.alert_type,
            alert_data.title.spec_bytes(),
            alert_data.message.spec_bytes(),
        ));
    }
    out
}

/// Decode raw bytes as UTF-8 text.
///
/// Relies on `String::from_utf8`: it returns `Ok` exactly when the bytes
/// are valid UTF-8, and then carries the text those bytes encode.
#[verifier::external_body]
fn string_from_utf8(bytes: Vec<u8>) -> (r: Option<String>)
    ensures
        match r {
            Some(s) => vstd::utf8::valid_utf8(bytes@) && s@ == vstd::utf8::decode_utf8(bytes@),
            None => !vstd::utf8::valid_utf8(bytes@),
        },
{
    String::from_utf8(bytes).ok()
}

/// Decode the firmware-revision characteristic: its raw bytes must be
/// valid UTF-8 text.
pub fn decode_firmware(value: Vec<u8>) -> (r: Result<String, BandError>)
    ensures
        match r {
            Ok(s) => vstd::utf8::valid_utf8(value@) && s@ == vstd::utf8::decode_utf8(value@),
            Err(e) => e == BandError::Utf8Error && !vstd::utf8::valid_utf8(value@),
        },
{
    match string_from_utf8(value) {
        Some(s) => Ok(s),
        None => Err(BandError::Utf8Error),
    }
}

/// Button presses the band reports on its music-control screen.
#[derive(Clone, Copy, Debug, PartialEq, Eq, Structural)]
pub enum MusicEvent {
    Open,
    Close,
    PlayPause,
    Next,
    Previous,
    VolumeUp,
    VolumeDown,
}

/// What a raw music notification means: the second byte selects the
/// event, and anything unrecognized (or too short) is no event at all.
pub open spec fn spec_decode_music_event(bytes: Seq<u8>) -> Option<MusicEvent> {
    if bytes.len() < 2 {
        None
    } else if bytes[1] == 0xe0 {
        Some(MusicEvent::Open)
    } else if bytes[1] == 0xe1 {
        Some(MusicEvent::Close)
    } else {
        None
    }
}

/// Decode one frame from the music-notification channel.
pub fn decode_music_event(buf: &[u8]) -> (r: Option<MusicEvent>)
    ensures
        r == spec_decode_music_event(buf@),
{
    if buf.len() < 2 {
        return None;
    }
    if buf[1] == 0xe0 {
        Some(MusicEvent::Open)
    } else if buf[1] == 0xe1 {
        Some(MusicEvent::Close)
    } else {
        None
    }
}

} // verus!
