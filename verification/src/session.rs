use vstd::prelude::*;

use crate::utils::{spec_starts_with, str_eq, str_starts_with};

verus! {

/// The discovery filter handed to the adapter when scanning for bands.
pub struct DiscoveryFilter {
    pub uuids: Vec<String>,
    pub duplicate_data: bool,
    pub transport: String,
}

/// Options for a characteristic read.
pub struct ReadOptions {
    pub offset: u16,
}

impl Default for ReadOptions {
    fn default() -> (r: Self)
        ensures
            r.offset == 0,
    {
        Self { offset: 0 }
    }
}

/// Options for a characteristic write: the type is "command" for a
/// fire-and-forget write and "request" for an acknowledged one.
pub struct WriteOptions {
    pub offset: u16,
    pub write_type: String,
    pub prepare_authorize: bool,
}

/// The empty option set used when acquiring a stream.
pub struct BlankOptions {}

/// The mathematical content of a device-properties record.
pub ghost struct SpecDeviceProperties {
    pub address: Seq<char>,
    pub services: Seq<Seq<char>>,
    pub rssi: Option<i16>,
    pub connected: bool,
}

/// The device-interface properties of a bus object, when that interface
/// is present with its required fields.
pub struct DeviceProperties {
    pub address: String,
    pub services: Vec<String>,
    pub rssi: Option<i16>,
    pub connected: bool,
}

impl View for DeviceProperties {
    type V = SpecDeviceProperties;

    open spec fn view(&self) -> SpecDeviceProperties {
        SpecDeviceProperties {
            address: self.address@,
            services: self.services.deep_view(),
            rssi: self.rssi,
            connected: self.connected,
        }
    }
}

impl DeepView for DeviceProperties {
    type V = SpecDeviceProperties;

    open spec fn deep_view(&self) -> SpecDeviceProperties {
        self.view()
    }
}

pub ghost struct SpecCharacteristicProperties {
    pub service_path: Seq<char>,
    pub uuid: Seq<char>,
}

/// The characteristic-interface properties of a bus object: which
/// service object it belongs to, and its UUID.
pub struct CharacteristicProperties {
    pub service_path: String,
    pub uuid: String,
}

impl View for CharacteristicProperties {
    type V = SpecCharacteristicProperties;

    open spec fn view(&self) -> SpecCharacteristicProperties {
        SpecCharacteristicProperties { service_path: self.service_path@, uuid: self.uuid@ }
    }
}

impl DeepView for CharacteristicProperties {
    type V = SpecCharacteristicProperties;

    open spec fn deep_view(&self) -> SpecCharacteristicProperties {
        self.view()
    }
}

pub ghost struct SpecBusObject {
    pub path: Seq<char>,
    pub device: Option<SpecDeviceProperties>,
    pub service_uuid: Option<Seq<char>>,
    pub characteristic: Option<SpecCharacteristicProperties>,
}

/// One entry of the bus's managed-object tree, reduced to the three
/// interfaces the session cares about. An object lacking an interface
/// simply has that field empty.
pub struct BusObject {
    pub path: String,
    pub device: Option<DeviceProperties>,
    pub service_uuid: Option<String>,
    pub characteristic: Option<CharacteristicProperties>,
}

impl View for BusObject {
    type V = SpecBusObject;

    open spec fn view(&self) -> SpecBusObject {
        SpecBusObject {
            path: self.path@,
            device: match self.device {
                Some(d) => Some(d@),
                None => None,
            },
            service_uuid: match self.service_uuid {
                Some(u) => Some(u@),
                None => None,
            },
            characteristic: match self.characteristic {
                Some(c) => Some(c@),
                None => None,
            },
        }
    }
}

impl DeepView for BusObject {
    type V = SpecBusObject;

    open spec fn deep_view(&self) -> SpecBusObject {
        self.view()
    }
}

pub ghost struct SpecDiscoveredDevice {
    pub path: Seq<char>,
    pub address: Seq<char>,
    pub services: Seq<Seq<char>>,
    pub rssi: Option<i16>,
    pub connected: bool,
}

/// A device found on the bus: its object path, address, advertised
/// services, current signal strength and connection flag.
#[derive(Clone, Debug)]
pub struct DiscoveredDevice {
    pub path: String,
    pub address: String,
    pub services: Vec<String>,
    pub rssi: Option<i16>,
    pub connected: bool,
}

impl View for DiscoveredDevice {
    type V = SpecDiscoveredDevice;

    open spec fn view(&self) -> SpecDiscoveredDevice {
        SpecDiscoveredDevice {
            path: self.path@,
            address: self.address@,
            services: self.services.deep_view(),
            rssi: self.rssi,
            connected: self.connected,
        }
    }
}

impl DeepView for DiscoveredDevice {
    type V = SpecDiscoveredDevice;

    open spec fn deep_view(&self) -> SpecDiscoveredDevice {
        self.view()
    }
}

impl DiscoveredDevice {
    /// A copy with the same contents.
    pub fn duplicate(&self) -> (r: Self)
        ensures
            r@ == self@,
    {
        let r = DiscoveredDevice {
            path: self.path.clone(),
            address: self.address.clone(),
            services: self.services.clone(),
            rssi: self.rssi,
            connected: self.connected,
        };
        proof {
            assert(r.services@ =~= self.services@);
            assert(r.services.deep_view() =~= self.services.deep_view());
        }
        r
    }
}

/// A change in the set of known devices.
#[derive(Debug)]
pub enum DiscoveredDeviceEvent {
    DeviceAdded(DiscoveredDevice),
    DeviceRemoved(String),
}

/// A path names a device exactly when it lies one non-empty segment
/// below the adapter's own path.
pub open spec fn spec_is_device_path(adapter: Seq<char>, path: Seq<char>) -> bool {
    &&& path.len() > adapter.len() + 1
    &&& path.subrange(0, adapter.len() as int) == adapter
    &&& path[adapter.len() as int] == '/'
    &&& forall|i: int| adapter.len() + 1 <= i < path.len() ==> path[i] != '/'
}

/// Classify a bus path: a device path sits exactly one segment below the
/// adapter path; service and characteristic paths sit deeper and are
/// excluded.
pub fn is_device_path(adapter_path: &str, path: &str) -> (r: bool)
    ensures
        r == spec_is_device_path(adapter_path@, path@),
{
    let alen: usize = adapter_path.unicode_len();
    let plen: usize = path.unicode_len();
    if plen <= alen || plen - alen < 2 {
        return false;
    }
    if !str_starts_with(path, adapter_path) {
        return false;
    }
    if path.get_char(alen) != '/' {
        return false;
    }
    for i in alen + 1..plen
        invariant
            alen == adapter_path@.len(),
            plen == path@.len(),
            plen > alen + 1,
            forall|j: int| alen + 1 <= j < i ==> path@[j] != '/',
    {
        if path.get_char(i) == '/' {
            return false;
        }
    }
    proof {
        assert(path@.subrange(0, alen as int) == adapter_path@);
    }
    true
}

/// The discovered-device record carried by a qualifying bus object.
pub open spec fn spec_device_of(o: SpecBusObject) -> SpecDiscoveredDevice
    recommends
        o.device is Some,
{
    let d = o.device->Some_0;
    SpecDiscoveredDevice {
        path: o.path,
        address: d.address,
        services: d.services,
        rssi: d.rssi,
        connected: d.connected,
    }
}

/// A bus object yields a device exactly when its path is a device path
/// and it carries the device interface; one lacking the interface is
/// skipped, not an error.
pub open spec fn spec_object_is_device(adapter: Seq<char>, o: SpecBusObject) -> bool {
    spec_is_device_path(adapter, o.path) && o.device is Some
}

/// The devices in a managed-object tree, in tree order.
pub open spec fn spec_devices(adapter: Seq<char>, objs: Seq<SpecBusObject>) -> Seq<
    SpecDiscoveredDevice,
>
    decreases objs.len(),
{
    if objs.len() == 0 {
        Seq::empty()
    } else {
        let prefix = spec_devices(adapter, objs.drop_last());
        if spec_object_is_device(adapter, objs.last()) {
            prefix.push(spec_device_of(objs.last()))
        } else {
            prefix
        }
    }
}

/// Extract every device from one read of the managed-object tree.
pub fn devices_from_objects(adapter_path: &str, objects: &Vec<BusObject>) -> (r: Vec<
    DiscoveredDevice,
>)
    ensures
        r.deep_view() == spec_devices(adapter_path@, objects.deep_view()),
{
    let mut out: Vec<DiscoveredDevice> = Vec::new();
    let n: usize = objects.len();
    for i in 0..n
        invariant
            n == objects@.len(),
            out.deep_view() =~= spec_devices(adapter_path@, objects.deep_view().subrange(0, i as int)),
    {
        let o = &objects[i];
        if is_device_path(adapter_path, o.path.as_str()) {
            match &o.device {
                Some(d) => {
                    out.push(
                        DiscoveredDevice {
                            path: o.path.clone(),
                            address: d.address.clone(),
                            services: d.services.clone(),
                            rssi: d.rssi,
                            connected: d.connected,
                        },
                    );
                },
                None => {},
            }
        }
        proof {
            let pre = objects.deep_view().subrange(0, i as int);
            let cur = objects.deep_view().subrange(0, i + 1);
            assert(cur.drop_last() =~= pre);
            assert(cur.last() == objects[i as int].deep_view());
        }
    }
    proof {
        assert(objects.deep_view().subrange(0, n as int) =~= objects.deep_view());
    }
    out
}

pub ghost struct SpecCharacteristicEntry {
    pub uuid: Seq<char>,
    pub path: Seq<char>,
}

/// One characteristic under a resolved service: its UUID and the bus
/// path that serves as its handle.
#[derive(Clone, Debug)]
pub struct CharacteristicEntry {
    pub uuid: String,
    pub path: String,
}

impl View for CharacteristicEntry {
    type V = SpecCharacteristicEntry;

    open spec fn view(&self) -> SpecCharacteristicEntry {
        SpecCharacteristicEntry { uuid: self.uuid@, path: self.path@ }
    }
}

impl DeepView for CharacteristicEntry {
    type V = SpecCharacteristicEntry;

    open spec fn deep_view(&self) -> SpecCharacteristicEntry {
        self.view()
    }
}

pub ghost struct SpecServiceEntry {
    pub uuid: Seq<char>,
    pub characteristics: Seq<SpecCharacteristicEntry>,
}

/// One resolved service: its UUID and the characteristics that declared
/// it as their parent. A service with no characteristics keeps an empty
/// list rather than being dropped.
#[derive(Clone, Debug)]
pub struct ServiceEntry {
    pub uuid: String,
    pub characteristics: Vec<CharacteristicEntry>,
}

impl View for ServiceEntry {
    type V = SpecServiceEntry;

    open spec fn view(&self) -> SpecServiceEntry {
        SpecServiceEntry { uuid: self.uuid@, characteristics: self.characteristics.deep_view() }
    }
}

impl DeepView for ServiceEntry {
    type V = SpecServiceEntry;

    open spec fn deep_view(&self) -> SpecServiceEntry {
        self.view()
    }
}

/// A service object under the device: its path is prefixed by the
/// device's and it carries the service interface.
pub open spec fn spec_is_service_obj(device_path: Seq<char>, o: SpecBusObject) -> bool {
    spec_starts_with(o.path, device_path) && o.service_uuid is Some
}

/// A characteristic object under the device: its path is prefixed by the
/// device's and it carries the characteristic interface but not the
/// service interface.
pub open spec fn spec_is_char_obj(device_path: Seq<char>, o: SpecBusObject) -> bool {
    spec_starts_with(o.path, device_path) && o.service_uuid is None && o.characteristic is Some
}

/// The service objects under a device, in tree order.
pub open spec fn spec_service_objs(device_path: Seq<char>, objs: Seq<SpecBusObject>) -> Seq<
    SpecBusObject,
>
    decreases objs.len(),
{
    if objs.len() == 0 {
        Seq::empty()
    } else {
        let prefix = spec_service_objs(device_path, objs.drop_last());
        if spec_is_service_obj(device_path, objs.last()) {
            prefix.push(objs.last())
        } else {
            prefix
        }
    }
}

/// The characteristics under a device that declare the given service
/// object as their parent, in tree order.
pub open spec fn spec_chars_for(
    device_path: Seq<char>,
    objs: Seq<SpecBusObject>,
    service_path: Seq<char>,
) -> Seq<SpecCharacteristicEntry>
    decreases objs.len(),
{
    if objs.len() == 0 {
        Seq::empty()
    } else {
        let prefix = spec_chars_for(device_path, objs.drop_last(), service_path);
        let o = objs.last();
        if spec_is_char_obj(device_path, o) && o.characteristic->Some_0.service_path
            == service_path {
            prefix.push(
                SpecCharacteristicEntry { uuid: o.characteristic->Some_0.uuid, path: o.path },
            )
        } else {
            prefix
        }
    }
}

/// The join of the service objects in `objs` with the characteristics
/// found anywhere in `all`.
pub open spec fn spec_resolve_join(
    device_path: Seq<char>,
    objs: Seq<SpecBusObject>,
    all: Seq<SpecBusObject>,
) -> Seq<SpecServiceEntry>
    decreases objs.len(),
{
    if objs.len() == 0 {
        Seq::empty()
    } else {
        let prefix = spec_resolve_join(device_path, objs.drop_last(), all);
        let o = objs.last();
        if spec_is_service_obj(device_path, o) {
            prefix.push(
                SpecServiceEntry {
                    uuid: o.service_uuid->Some_0,
                    characteristics: spec_chars_for(device_path, all, o.path),
                },
            )
        } else {
            prefix
        }
    }
}

/// The full service-to-characteristics join for one device.
pub open spec fn spec_resolved_services(device_path: Seq<char>, objs: Seq<SpecBusObject>) -> Seq<
    SpecServiceEntry,
> {
    spec_resolve_join(device_path, objs, objs)
}

fn chars_for_service(device_path: &str, objects: &Vec<BusObject>, service_path: &str) -> (r: Vec<
    CharacteristicEntry,
>)
    ensures
        r.deep_view() == spec_chars_for(device_path@, objects.deep_view(), service_path@),
{
    let mut out: Vec<CharacteristicEntry> = Vec::new();
    let n: usize = objects.len();
    for j in 0..n
        invariant
            n == objects@.len(),
            out.deep_view() =~= spec_chars_for(
                device_path@,
                objects.deep_view().subrange(0, j as int),
                service_path@,
            ),
    {
        let o = &objects[j];
        if str_starts_with(o.path.as_str(), device_path) && o.service_uuid.is_none() {
            match &o.characteristic {
                Some(c) => {
                    if str_eq(c.service_path.as_str(), service_path) {
                        out.push(
                            CharacteristicEntry { uuid: c.uuid.clone(), path: o.path.clone() },
                        );
                    }
                },
                None => {},
            }
        }
        proof {
            let pre = objects.deep_view().subrange(0, j as int);
            let cur = objects.deep_view().subrange(0, j + 1);
            assert(cur.drop_last() =~= pre);
            assert(cur.last() == objects[j as int].deep_view());
        }
    }
    proof {
        assert(objects.deep_view().subrange(0, n as int) =~= objects.deep_view());
    }
    out
}

/// Join one read of the managed-object tree into the services and
/// characteristics under a device: services keyed by their UUID, each
/// carrying the characteristics whose parent it is.
pub fn resolve_characteristics(device_path: &str, objects: &Vec<BusObject>) -> (r: Vec<
    ServiceEntry,
>)
    ensures
        r.deep_view() == spec_resolved_services(device_path@, objects.deep_view()),
{
    let mut out: Vec<ServiceEntry> = Vec::new();
    let n: usize = objects.len();
    for i in 0..n
        invariant
            n == objects@.len(),
            out.deep_view() =~= spec_resolve_join(
                device_path@,
                objects.deep_view().subrange(0, i as int),
                objects.deep_view(),
            ),
    {
        let o = &objects[i];
        if str_starts_with(o.path.as_str(), device_path) {
            match &o.service_uuid {
                Some(uuid) => {
                    let chars = chars_for_service(device_path, objects, o.path.as_str());
                    out.push(ServiceEntry { uuid: uuid.clone(), characteristics: chars });
                },
                None => {},
            }
        }
        proof {
            let pre = objects.deep_view().subrange(0, i as int);
            let cur = objects.deep_view().subrange(0, i + 1);
            assert(cur.drop_last() =~= pre);
            assert(cur.last() == objects[i as int].deep_view());
        }
    }
    proof {
        assert(objects.deep_view().subrange(0, n as int) =~= objects.deep_view());
    }
    out
}

/// The bus name of the device interface, as it appears in add and
/// remove signals.
pub open spec fn spec_device_interface() -> Seq<char> {
    "org.bluez.Device1"@
}

/// Classify an interfaces-added signal: it adds a device exactly when
/// the path is a device path and the added interfaces carry the device
/// interface with its properties.
pub fn classify_added_object(adapter_path: &str, object: &BusObject) -> (r: Option<
    DiscoveredDeviceEvent,
>)
    ensures
        match r {
            Some(e) => spec_object_is_device(adapter_path@, object@) && (e matches
            DiscoveredDeviceEvent::DeviceAdded(d) && d@ == spec_device_of(object@)),
            None => !spec_object_is_device(adapter_path@, object@),
        },
{
    if is_device_path(adapter_path, object.path.as_str()) {
        match &object.device {
            Some(d) => Some(
                DiscoveredDeviceEvent::DeviceAdded(
                    DiscoveredDevice {
                        path: object.path.clone(),
                        address: d.address.clone(),
                        services: d.services.clone(),
                        rssi: d.rssi,
                        connected: d.connected,
                    },
                ),
            ),
            None => None,
        }
    } else {
        None
    }
}

/// Classify an interfaces-removed signal: it removes a device exactly
/// when the path is a device path and the removed interface set includes
/// the device interface.
pub fn classify_removed_object(adapter_path: &str, path: &str, interfaces: &Vec<String>) -> (r:
    Option<DiscoveredDeviceEvent>)
    ensures
        match r {
            Some(e) => spec_is_device_path(adapter_path@, path@) && (exists|i: int|
                0 <= i < interfaces.deep_view().len() && interfaces.deep_view()[i]
                    == spec_device_interface()) && (e matches DiscoveredDeviceEvent::DeviceRemoved(
                p,
            ) && p@ == path@),
            None => !(spec_is_device_path(adapter_path@, path@) && exists|i: int|
                0 <= i < interfaces.deep_view().len() && interfaces.deep_view()[i]
                    == spec_device_interface()),
        },
{
    if !is_device_path(adapter_path, path) {
        return None;
    }
    let n: usize = interfaces.len();
    for i in 0..n
        invariant
            n == interfaces@.len(),
            spec_is_device_path(adapter_path@, path@),
            forall|j: int| 0 <= j < i ==> interfaces.deep_view()[j] != spec_device_interface(),
    {
        if str_eq(interfaces[i].as_str(), "org.bluez.Device1") {
            proof {
                assert(interfaces.deep_view()[i as int] == spec_device_interface());
            }
            return Some(DiscoveredDeviceEvent::DeviceRemoved(path.to_owned()));
        }
    }
    None
}

} // verus!
