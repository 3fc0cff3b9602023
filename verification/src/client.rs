use vstd::prelude::*;

use crate::errors::BandError;
use crate::session::{
    DiscoveryFilter, ServiceEntry, SpecCharacteristicEntry, SpecDiscoveredDevice, SpecServiceEntry,
};
use crate::utils::str_eq;
use vstd::string::StringSliceAdditionalSpecFns;

verus! {

pub const SERVICE_BAND_0: &'static str = "0000fee0-0000-1000-8000-00805f9b34fb";

pub const SERVICE_BAND_1: &'static str = "0000fee1-0000-1000-8000-00805f9b34fb";

pub const SERVICE_DEVICE_INFO: &'static str = "0000180a-0000-1000-8000-00805f9b34fb";

pub const SERVICE_NOTIFICATION: &'static str = "00001811-0000-1000-8000-00805f9b34fb";

pub const CHAR_BATTERY: &'static str = "00000006-0000-3512-2118-0009af100700";

pub const CHAR_STEPS: &'static str = "00000007-0000-3512-2118-0009af100700";

pub const CHAR_AUTH: &'static str = "00000009-0000-3512-2118-0009af100700";

pub const CHAR_SOFT_REV: &'static str = "00002a28-0000-1000-8000-00805f9b34fb";

pub const CHAR_TIME: &'static str = "00002a2b-0000-1000-8000-00805f9b34fb";

pub const CHAR_CONFIG: &'static str = "00000003-0000-3512-2118-0009af100700";

pub const CHAR_SETTINGS: &'static str = "00000008-0000-3512-2118-0009af100700";

pub const CHAR_ALERT: &'static str = "00002a46-0000-1000-8000-00805f9b34fb";

pub const CHAR_CHUNKED_TRANSFER: &'static str = "00000020-0000-3512-2118-0009af100700";

pub const CHAR_MUSIC_NOTIFICATIONS: &'static str = "00000010-0000-3512-2118-0009af100700";

/// The first service entry with the given UUID, if any.
pub open spec fn spec_find_service(services: Seq<SpecServiceEntry>, uuid: Seq<char>) -> Option<
    SpecServiceEntry,
>
    decreases services.len(),
{
    if services.len() == 0 {
        None
    } else if services[0].uuid == uuid {
        Some(services[0])
    } else {
        spec_find_service(services.drop_first(), uuid)
    }
}

/// The first characteristic entry with the given UUID, if any.
pub open spec fn spec_find_char(chars: Seq<SpecCharacteristicEntry>, uuid: Seq<char>) -> Option<
    SpecCharacteristicEntry,
>
    decreases chars.len(),
{
    if chars.len() == 0 {
        None
    } else if chars[0].uuid == uuid {
        Some(chars[0])
    } else {
        spec_find_char(chars.drop_first(), uuid)
    }
}

/// The handle path of a characteristic looked up by service UUID and
/// characteristic UUID.
pub open spec fn spec_char_path(
    services: Seq<SpecServiceEntry>,
    service_uuid: Seq<char>,
    char_uuid: Seq<char>,
) -> Option<Seq<char>> {
    match spec_find_service(services, service_uuid) {
        None => None,
        Some(s) => match spec_find_char(s.characteristics, char_uuid) {
            None => None,
            Some(c) => Some(c.path),
        },
    }
}

fn find_service<'a>(services: &'a Vec<ServiceEntry>, uuid: &str) -> (r: Option<&'a ServiceEntry>)
    ensures
        match r {
            Some(e) => spec_find_service(services.deep_view(), uuid@) == Some(e.deep_view()),
            None => spec_find_service(services.deep_view(), uuid@) is None,
        },
{
    proof {
        assert(services.deep_view().skip(0) =~= services.deep_view());
    }
    let n: usize = services.len();
    for i in 0..n
        invariant
            n == services@.len(),
            spec_find_service(services.deep_view(), uuid@) == spec_find_service(
                services.deep_view().skip(i as int),
                uuid@,
            ),
    {
        let ghost rest = services.deep_view().skip(i as int);
        if str_eq(services[i].uuid.as_str(), uuid) {
            proof {
                assert(rest[0] == services[i as int].deep_view());
            }
            return Some(&services[i]);
        }
        proof {
            assert(rest[0] == services[i as int].deep_view());
            assert(rest.drop_first() =~= services.deep_view().skip(i + 1));
        }
    }
    proof {
        assert(services.deep_view().skip(n as int) =~= Seq::<SpecServiceEntry>::empty());
    }
    None
}

fn find_char<'a>(chars: &'a Vec<crate::session::CharacteristicEntry>, uuid: &str) -> (r: Option<
    &'a crate::session::CharacteristicEntry,
>)
    ensures
        match r {
            Some(e) => spec_find_char(chars.deep_view(), uuid@) == Some(e.deep_view()),
            None => spec_find_char(chars.deep_view(), uuid@) is None,
        },
{
    proof {
        assert(chars.deep_view().skip(0) =~= chars.deep_view());
    }
    let n: usize = chars.len();
    for i in 0..n
        invariant
            n == chars@.len(),
            spec_find_char(chars.deep_view(), uuid@) == spec_find_char(
                chars.deep_view().skip(i as int),
                uuid@,
            ),
    {
        let ghost rest = chars.deep_view().skip(i as int);
        if str_eq(chars[i].uuid.as_str(), uuid) {
            proof {
                assert(rest[0] == chars[i as int].deep_view());
            }
            return Some(&chars[i]);
        }
        proof {
            assert(rest[0] == chars[i as int].deep_view());
            assert(rest.drop_first() =~= chars.deep_view().skip(i + 1));
        }
    }
    proof {
        assert(chars.deep_view().skip(n as int) =~= Seq::<SpecCharacteristicEntry>::empty());
    }
    None
}

fn required_char_path(services: &Vec<ServiceEntry>, service_uuid: &str, char_uuid: &str) -> (r:
    Option<String>)
    ensures
        match r {
            Some(p) => spec_char_path(services.deep_view(), service_uuid@, char_uuid@) == Some(p@),
            None => spec_char_path(services.deep_view(), service_uuid@, char_uuid@) is None,
        },
{
    match find_service(services, service_uuid) {
        Some(service) => match find_char(&service.characteristics, char_uuid) {
            Some(c) => Some(c.path.clone()),
            None => None,
        },
        None => None,
    }
}

/// The ten characteristic handles the client requires, as bus paths.
/// Replaced wholesale on every resolution; never partially filled.
#[derive(Clone, Debug)]
pub struct BandChars {
    pub battery: String,
    pub steps: String,
    pub firm_rev: String,
    pub time: String,
    pub auth: String,
    pub config: String,
    pub settings: String,
    pub alert: String,
    pub chunked_transfer: String,
    pub music_notifs: String,
}

/// All ten required service/characteristic pairs resolve.
pub open spec fn spec_all_chars_present(services: Seq<SpecServiceEntry>) -> bool {
    &&& spec_char_path(services, SERVICE_BAND_0@, CHAR_BATTERY@) is Some
    &&& spec_char_path(services, SERVICE_BAND_0@, CHAR_STEPS@) is Some
    &&& spec_char_path(services, SERVICE_BAND_0@, CHAR_TIME@) is Some
    &&& spec_char_path(services, SERVICE_BAND_0@, CHAR_CONFIG@) is Some
    &&& spec_char_path(services, SERVICE_BAND_0@, CHAR_SETTINGS@) is Some
    &&& spec_char_path(services, SERVICE_BAND_0@, CHAR_CHUNKED_TRANSFER@) is Some
    &&& spec_char_path(services, SERVICE_BAND_0@, CHAR_MUSIC_NOTIFICATIONS@) is Some
    &&& spec_char_path(services, SERVICE_DEVICE_INFO@, CHAR_SOFT_REV@) is Some
    &&& spec_char_path(services, SERVICE_BAND_1@, CHAR_AUTH@) is Some
    &&& spec_char_path(services, SERVICE_NOTIFICATION@, CHAR_ALERT@) is Some
}

/// Resolve the fixed characteristic set out of a device's services.
/// Either every required identifier pair is present and all ten handles
/// come back together, or the device is rejected wholesale.
pub fn resolve_band_chars(services: &Vec<ServiceEntry>) -> (r: Result<BandChars, BandError>)
    ensures
        match r {
            Ok(c) => {
                &&& spec_all_chars_present(services.deep_view())
                &&& Some(c.battery@) == spec_char_path(
                    services.deep_view(),
                    SERVICE_BAND_0@,
                    CHAR_BATTERY@,
                )
                &&& Some(c.steps@) == spec_char_path(
                    services.deep_view(),
                    SERVICE_BAND_0@,
                    CHAR_STEPS@,
                )
                &&& Some(c.time@) == spec_char_path(
                    services.deep_view(),
                    SERVICE_BAND_0@,
                    CHAR_TIME@,
                )
                &&& Some(c.config@) == spec_char_path(
                    services.deep_view(),
                    SERVICE_BAND_0@,
                    CHAR_CONFIG@,
                )
                &&& Some(c.settings@) == spec_char_path(
                    services.deep_view(),
                    SERVICE_BAND_0@,
                    CHAR_SETTINGS@,
                )
                &&& Some(c.chunked_transfer@) == spec_char_path(
                    services.deep_view(),
                    SERVICE_BAND_0@,
                    CHAR_CHUNKED_TRANSFER@,
                )
                &&& Some(c.music_notifs@) == spec_char_path(
                    services.deep_view(),
                    SERVICE_BAND_0@,
                    CHAR_MUSIC_NOTIFICATIONS@,
                )
                &&& Some(c.firm_rev@) == spec_char_path(
                    services.deep_view(),
                    SERVICE_DEVICE_INFO@,
                    CHAR_SOFT_REV@,
                )
                &&& Some(c.auth@) == spec_char_path(
                    services.deep_view(),
                    SERVICE_BAND_1@,
                    CHAR_AUTH@,
                )
                &&& Some(c.alert@) == spec_char_path(
                    services.deep_view(),
                    SERVICE_NOTIFICATION@,
                    CHAR_ALERT@,
                )
            },
            Err(e) => e == BandError::MissingServicesOrChars && !spec_all_chars_present(
                services.deep_view(),
            ),
        },
{
    let battery = required_char_path(services, SERVICE_BAND_0, CHAR_BATTERY);
    let steps = required_char_path(services, SERVICE_BAND_0, CHAR_STEPS);
    let time = required_char_path(services, SERVICE_BAND_0, CHAR_TIME);
    let config = required_char_path(services, SERVICE_BAND_0, CHAR_CONFIG);
    let settings = required_char_path(services, SERVICE_BAND_0, CHAR_SETTINGS);
    let chunked_transfer = required_char_path(services, SERVICE_BAND_0, CHAR_CHUNKED_TRANSFER);
    let music_notifs = required_char_path(services, SERVICE_BAND_0, CHAR_MUSIC_NOTIFICATIONS);
    let firm_rev = required_char_path(services, SERVICE_DEVICE_INFO, CHAR_SOFT_REV);
    let auth = required_char_path(services, SERVICE_BAND_1, CHAR_AUTH);
    let alert = required_char_path(services, SERVICE_NOTIFICATION, CHAR_ALERT);
    match (battery, steps, time, config, settings, chunked_transfer, music_notifs, firm_rev, auth, alert) {
        (
            Some(battery),
            Some(steps),
            Some(time),
            Some(config),
            Some(settings),
            Some(chunked_transfer),
            Some(music_notifs),
            Some(firm_rev),
            Some(auth),
            Some(alert),
        ) => Ok(
            BandChars {
                battery,
                steps,
                time,
                config,
                firm_rev,
                auth,
                settings,
                alert,
                chunked_transfer,
                music_notifs,
            },
        ),
        _ => Err(BandError::MissingServicesOrChars),
    }
}

/// A property change observed on one device.
#[derive(Clone, Copy, Debug)]
pub enum BandChangeEvent {
    RSSI(Option<i16>),
    Connected(bool),
}

/// One band's protocol state: its address, whether the current
/// connection has authenticated, and the resolved characteristic handles
/// if any. The I/O layer performs the bus calls and mirrors their
/// outcomes here.
#[derive(Clone, Debug)]
pub struct MiBand {
    pub address: String,
    pub authenticated: bool,
    pub chars: Option<BandChars>,
}

/// What one authentication step asks of the caller.
#[derive(Clone, Debug)]
pub enum AuthStep {
    /// Send these bytes on the write channel and keep listening.
    Reply(Vec<u8>),
    /// The device accepted the key; the session is authenticated.
    Authenticated,
    /// The device rejected the key.
    Rejected,
    /// Nothing to do; keep listening.
    Pending,
}

impl AuthStep {
    /// The handshake's outcome, if this step ends it: acceptance, or the
    /// device-confirmed key rejection. A reply or a pending step has no
    /// outcome yet.
    pub fn outcome(&self) -> (r: Option<Result<(), BandError>>)
        ensures
            match self {
                AuthStep::Authenticated => r == Some(Result::<(), BandError>::Ok(())),
                AuthStep::Rejected => r == Some(
                    Result::<(), BandError>::Err(BandError::InvalidAuthKey),
                ),
                AuthStep::Reply(_) => r is None,
                AuthStep::Pending => r is None,
            },
    {
        match self {
            AuthStep::Authenticated => Some(Ok(())),
            AuthStep::Rejected => Some(Err(BandError::InvalidAuthKey)),
            AuthStep::Reply(_) => None,
            AuthStep::Pending => None,
        }
    }
}

impl MiBand {
    /// Fresh state for a discovered device: unauthenticated, with no
    /// characteristics resolved yet.
    pub fn from_discovered_device(device: &crate::session::DiscoveredDevice) -> (r: Self)
        ensures
            r.address@ == device.address@,
            r.authenticated == false,
            r.chars is None,
    {
        MiBand { address: device.address.clone(), authenticated: false, chars: None }
    }

    /// Whether `initialize` must re-resolve characteristics: it must
    /// after a fresh connect, and whenever none are cached.
    pub fn needs_char_resolution(&self, was_connected: bool) -> (r: bool)
        ensures
            r == (!was_connected || self.chars is None),
    {
        !was_connected || self.chars.is_none()
    }

    /// Record a completed resolution: the handle set is replaced
    /// wholesale.
    pub fn install_chars(&mut self, chars: BandChars)
        ensures
            final(self).chars == Some(chars),
            final(self).authenticated == old(self).authenticated,
            final(self).address == old(self).address,
    {
        self.chars = Some(chars);
    }

    /// Record a disconnect: authentication is lost, but the cached
    /// characteristics survive for a later reconnect.
    pub fn disconnect(&mut self)
        ensures
            final(self).authenticated == false,
            final(self).chars == old(self).chars,
            final(self).address == old(self).address,
    {
        self.authenticated = false;
    }

    /// The resolved handles, or `NotInitialized` when none are cached.
    pub fn band_chars(&self) -> (r: Result<&BandChars, BandError>)
        ensures
            match r {
                Ok(c) => self.chars == Some(*c),
                Err(e) => e == BandError::NotInitialized && self.chars is None,
            },
    {
        match &self.chars {
            Some(c) => Ok(c),
            None => Err(BandError::NotInitialized),
        }
    }

    /// The resolved handles for an operation that needs authentication
    /// first: `RequiresAuth` before `NotInitialized`, as the operations
    /// check it.
    pub fn band_chars_authenticated(&self) -> (r: Result<&BandChars, BandError>)
        ensures
            match r {
                Ok(c) => self.authenticated && self.chars == Some(*c),
                Err(e) => (e == BandError::RequiresAuth && !self.authenticated) || (e
                    == BandError::NotInitialized && self.authenticated && self.chars is None),
            },
    {
        if !self.authenticated {
            return Err(BandError::RequiresAuth);
        }
        self.band_chars()
    }

    /// Drive the authentication handshake one frame forward. A restart
    /// request is answered with the start frame, a challenge with the
    /// encrypted nonce; a success or failure frame settles the
    /// authenticated flag; anything else changes nothing.
    pub fn auth_step(&mut self, frame: &[u8], auth_key: &[u8]) -> (r: AuthStep)
        requires
            auth_key@.len() == 16,
        ensures
            final(self).address == old(self).address,
            final(self).chars == old(self).chars,
            crate::auth::spec_is_restart(frame@) ==> (r matches AuthStep::Reply(f) && f@
                == crate::auth::spec_auth_start_bytes()) && final(self).authenticated
                == old(self).authenticated,
            crate::auth::spec_is_challenge(frame@) ==> (r matches AuthStep::Reply(f) && f@
                == crate::auth::spec_challenge_response(auth_key@, frame@.subrange(3, 19)))
                && final(self).authenticated == old(self).authenticated,
            crate::auth::spec_is_success(frame@) ==> r is Authenticated
                && final(self).authenticated == true,
            crate::auth::spec_is_failure(frame@) ==> r is Rejected && final(self).authenticated
                == false,
            !(crate::auth::spec_is_restart(frame@) || crate::auth::spec_is_challenge(frame@)
                || crate::auth::spec_is_success(frame@) || crate::auth::spec_is_failure(frame@))
                ==> r is Pending && final(self).authenticated == old(self).authenticated,
    {
        match crate::auth::classify_auth_frame(frame) {
            crate::auth::AuthFrame::Restart => AuthStep::Reply(crate::auth::auth_start_frame()),
            crate::auth::AuthFrame::Challenge(nonce) => AuthStep::Reply(
                crate::auth::challenge_response(auth_key, nonce.as_slice()),
            ),
            crate::auth::AuthFrame::Success => {
                self.authenticated = true;
                AuthStep::Authenticated
            },
            crate::auth::AuthFrame::Failure => {
                self.authenticated = false;
                AuthStep::Rejected
            },
            crate::auth::AuthFrame::Unrecognized => AuthStep::Pending,
        }
    }

    /// The eleven-byte clock payload for an acknowledged write to the
    /// time characteristic, after the authentication and initialization
    /// guards.
    pub fn set_band_time_payload(&self, new_time: &crate::time::BandTime) -> (r: Result<
        Vec<u8>,
        BandError,
    >)
        requires
            new_time.valid(),
        ensures
            match r {
                Ok(p) => self.authenticated && self.chars is Some && p@
                    == crate::time::spec_time_write_bytes(*new_time),
                Err(e) => (e == BandError::RequiresAuth && !self.authenticated) || (e
                    == BandError::NotInitialized && self.authenticated && self.chars is None),
            },
    {
        self.band_chars_authenticated()?;
        Ok(crate::time::time_write_payload(new_time))
    }

    /// The two goal payloads, after the guards: the notification toggle
    /// for a fire-and-forget write to the config characteristic, then
    /// the step target for an acknowledged write to the settings
    /// characteristic.
    pub fn set_activity_goal_payloads(&self, goal: &crate::store::ActivityGoal) -> (r: Result<
        (Vec<u8>, Vec<u8>),
        BandError,
    >)
        ensures
            match r {
                Ok(p) => self.authenticated && self.chars is Some && p.0@
                    == crate::codec::spec_goal_config_bytes(goal.notifications) && p.1@
                    == crate::codec::spec_goal_steps_bytes(goal.steps),
                Err(e) => (e == BandError::RequiresAuth && !self.authenticated) || (e
                    == BandError::NotInitialized && self.authenticated && self.chars is None),
            },
    {
        self.band_chars_authenticated()?;
        Ok(
            (
                crate::codec::goal_config_payload(goal.notifications),
                crate::codec::goal_steps_payload(goal.steps),
            ),
        )
    }

    /// The band-lock payload for a fire-and-forget write to the config
    /// characteristic: the initialization guard first, then the
    /// client-side PIN validation, as the device never sees a bad PIN.
    pub fn set_band_lock_payload(&self, lock: &crate::store::BandLock) -> (r: Result<
        Vec<u8>,
        BandError,
    >)
        ensures
            match r {
                Ok(p) => self.chars is Some && crate::codec::valid_pin(lock.pin@) && p@
                    == crate::codec::spec_band_lock_bytes(lock.pin@, lock.enabled),
                Err(e) => (e == BandError::NotInitialized && self.chars is None) || (e
                    == BandError::InvalidLockPin && self.chars is Some && !crate::codec::valid_pin(
                    lock.pin@,
                )),
            },
    {
        self.band_chars()?;
        crate::codec::band_lock_payload(lock)
    }

    /// The alert payload for an acknowledged write to the alert
    /// characteristic, after the initialization guard.
    pub fn send_alert_payload(&self, alert_data: &crate::codec::Alert<'_>) -> (r: Result<
        Vec<u8>,
        BandError,
    >)
        ensures
            match r {
                Ok(p) => self.chars is Some && p@ == crate::codec::spec_alert_bytes(
                    alert_data.alert_type,
                    alert_data.title.spec_bytes(),
                    alert_data.message.spec_bytes(),
                ),
                Err(e) => e == BandError::NotInitialized && self.chars is None,
            },
    {
        self.band_chars()?;
        Ok(crate::codec::alert_payload(alert_data))
    }

    /// The chunked-transfer frames of a payload, in the order they are
    /// written to the chunked-transfer characteristic, after the
    /// initialization guard.
    pub fn write_chunked(&self, message_type: u8, payload: &[u8]) -> (r: Result<
        Vec<Vec<u8>>,
        BandError,
    >)
        ensures
            match r {
                Ok(frames) => {
                    &&& self.chars is Some
                    &&& frames@.len() == crate::chunked::spec_n_chunks(payload@.len() as nat)
                    &&& forall|i: int|
                        0 <= i < frames@.len() ==> #[trigger] frames@[i]@
                            == crate::chunked::spec_chunk_frame(message_type, payload@, i)
                },
                Err(e) => e == BandError::NotInitialized && self.chars is None,
            },
    {
        self.band_chars()?;
        Ok(crate::chunked::chunk_frames(message_type, payload))
    }

    /// The chunked frames that update the band's now-playing screen, or
    /// clear it when there is no snapshot; message type three on the
    /// chunked-transfer characteristic.
    pub fn set_media_info_frames(&self, media: &Option<crate::media::MediaInfo>) -> (r: Result<
        Vec<Vec<u8>>,
        BandError,
    >)
        ensures
            match r {
                Ok(frames) => {
                    let payload = match media {
                        Some(m) => crate::media::spec_media_payload(*m),
                        None => crate::media::spec_clear_media_bytes(),
                    };
                    &&& self.chars is Some
                    &&& frames@.len() == crate::chunked::spec_n_chunks(payload.len())
                    &&& forall|i: int|
                        0 <= i < frames@.len() ==> #[trigger] frames@[i]@
                            == crate::chunked::spec_chunk_frame(0x03, payload, i)
                },
                Err(e) => e == BandError::NotInitialized && self.chars is None,
            },
    {
        self.band_chars()?;
        let payload = crate::media::media_payload(media);
        Ok(crate::chunked::chunk_frames(0x03, payload.as_slice()))
    }
}

/// A device advertises the band service.
pub open spec fn spec_advertises_band(d: SpecDiscoveredDevice) -> bool {
    exists|i: int| 0 <= i < d.services.len() && d.services[i] == SERVICE_BAND_0@
}

/// The devices that advertise the band service, in order.
pub open spec fn spec_known_bands(devices: Seq<SpecDiscoveredDevice>) -> Seq<SpecDiscoveredDevice>
    decreases devices.len(),
{
    if devices.len() == 0 {
        Seq::empty()
    } else {
        let prefix = spec_known_bands(devices.drop_last());
        if spec_advertises_band(devices.last()) {
            prefix.push(devices.last())
        } else {
            prefix
        }
    }
}

/// Whether a discovered device advertises the band service.
pub fn advertises_band(device: &crate::session::DiscoveredDevice) -> (r: bool)
    ensures
        r == spec_advertises_band(device@),
{
    let n: usize = device.services.len();
    for i in 0..n
        invariant
            n == device.services@.len(),
            forall|j: int| 0 <= j < i ==> device.services.deep_view()[j] != SERVICE_BAND_0@,
    {
        if str_eq(device.services[i].as_str(), SERVICE_BAND_0) {
            proof {
                assert(device@.services[i as int] == SERVICE_BAND_0@);
            }
            return true;
        }
    }
    false
}

/// Keep only the devices that advertise the band service.
pub fn filter_known_bands(devices: Vec<crate::session::DiscoveredDevice>) -> (r: Vec<
    crate::session::DiscoveredDevice,
>)
    ensures
        r.deep_view() == spec_known_bands(devices.deep_view()),
{
    let mut out: Vec<crate::session::DiscoveredDevice> = Vec::new();
    let n: usize = devices.len();
    for i in 0..n
        invariant
            n == devices@.len(),
            out.deep_view() =~= spec_known_bands(devices.deep_view().subrange(0, i as int)),
    {
        if advertises_band(&devices[i]) {
            out.push(devices[i].duplicate());
        }
        proof {
            let pre = devices.deep_view().subrange(0, i as int);
            let cur = devices.deep_view().subrange(0, i + 1);
            assert(cur.drop_last() =~= pre);
            assert(cur.last() == devices[i as int].deep_view());
        }
    }
    proof {
        assert(devices.deep_view().subrange(0, n as int) =~= devices.deep_view());
    }
    out
}

/// An added device passes the band filter only when it advertises the
/// band service; removals always pass.
pub fn band_event_passes(event: &crate::session::DiscoveredDeviceEvent) -> (r: bool)
    ensures
        match event {
            crate::session::DiscoveredDeviceEvent::DeviceAdded(d) => r == spec_advertises_band(
                d@,
            ),
            crate::session::DiscoveredDeviceEvent::DeviceRemoved(_) => r == true,
        },
{
    match event {
        crate::session::DiscoveredDeviceEvent::DeviceAdded(d) => advertises_band(d),
        crate::session::DiscoveredDeviceEvent::DeviceRemoved(_) => true,
    }
}

/// The discovery filter that restricts scanning to bands: just the band
/// service UUID, low-energy transport, no duplicate data.
pub fn band_discovery_filter() -> (r: DiscoveryFilter)
    ensures
        r.uuids.deep_view() =~= seq![SERVICE_BAND_0@],
        r.transport@ == "le"@,
        r.duplicate_data == false,
{
    let mut uuids: Vec<String> = Vec::new();
    uuids.push(SERVICE_BAND_0.to_owned());
    DiscoveryFilter { uuids, duplicate_data: false, transport: String::from_str("le") }
}

} // verus!
