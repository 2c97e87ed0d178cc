//! The latest value of every device, and the registry of devices.
//!
//! A cache keeps, for each device, the document that arrived last and the time
//! at which it arrived. A later arrival replaces an earlier one, whatever time
//! the payload itself may state. Reads hand out copies.

use crate::json::{json_integer, json_member, json_string, Json};
use crate::keyed::Keyed;
use vstd::prelude::*;
use vstd::string::*;

verus! {

/// What a cache holds for one device.
pub struct CacheValue {
    pub value: Json,
    /// When the value arrived, in seconds since the epoch.
    pub observed_at: u64,
}

/// One entry of a cache, copied out.
pub struct CacheEntry {
    pub device_id: String,
    pub value: Json,
    pub observed_at: u64,
}

/// The latest decoded value of every device.
pub struct DeviceCache {
    table: Keyed<CacheValue>,
}

impl View for DeviceCache {
    type V = Map<Seq<char>, (Seq<char>, u64)>;

    /// For each device, the compact text of its latest value and the time at
    /// which that value arrived.
    closed spec fn view(&self) -> Map<Seq<char>, (Seq<char>, u64)> {
        Map::new(
            |k: Seq<char>| self.table@.contains_key(k),
            |k: Seq<char>| (self.table@[k].value@, self.table@[k].observed_at),
        )
    }
}

impl DeviceCache {
    /// No device occurs twice.
    pub closed spec fn wf(&self) -> bool {
        self.table.wf()
    }

    /// The devices, in the order in which they were first heard of.
    pub closed spec fn devices(&self) -> Seq<Seq<char>> {
        self.table.keys()
    }

    /// The devices of the cache are the keys of its view, each once.
    pub proof fn lemma_devices(&self)
        requires
            self.wf(),
        ensures
            self.devices().no_duplicates(),
            forall|k: Seq<char>| self.devices().contains(k) <==> self@.contains_key(k),
    {
    }

    /// The empty cache.
    pub fn new() -> (r: Self)
        ensures
            r.wf(),
            r@ == Map::<Seq<char>, (Seq<char>, u64)>::empty(),
            r.devices() == Seq::<Seq<char>>::empty(),
    {
        let r = DeviceCache { table: Keyed::new() };
        assert(r@ =~= Map::<Seq<char>, (Seq<char>, u64)>::empty());
        r
    }

    /// The number of devices.
    pub fn len(&self) -> (n: usize)
        requires
            self.wf(),
        ensures
            n == self.devices().len(),
    {
        self.table.len()
    }

    /// Records that `value` arrived from `device_id` at `now`, in place of
    /// whatever the cache held for that device.
    pub fn insert(&mut self, device_id: &str, value: Json, now: u64)
        requires
            old(self).wf(),
        ensures
            final(self).wf(),
            final(self)@ == old(self)@.insert(device_id@, (value@, now)),
    {
        self.table.put(device_id, CacheValue { value, observed_at: now });
        assert(self@ =~= old(self)@.insert(device_id@, (value@, now)));
    }

    /// A copy of the latest value of `device_id` and the time at which it arrived.
    pub fn get(&self, device_id: &str) -> (r: Option<(Json, u64)>)
        requires
            self.wf(),
        ensures
            match r {
                Some((value, at)) => self@.contains_key(device_id@) && self@[device_id@] == (
                    value@,
                    at,
                ),
                None => !self@.contains_key(device_id@),
            },
    {
        match self.table.get(device_id) {
            Some(held) => Some((held.value.duplicate(), held.observed_at)),
            None => None,
        }
    }

    /// A copy of every entry, in the order in which the devices were first heard of.
    pub fn get_all(&self) -> (r: Vec<CacheEntry>)
        requires
            self.wf(),
        ensures
            r.len() == self.devices().len(),
            forall|i: int|
                0 <= i < r.len() ==> {
                    &&& (#[trigger] r[i]).device_id@ == self.devices()[i]
                    &&& self@.contains_key(r[i].device_id@)
                    &&& self@[r[i].device_id@] == (r[i].value@, r[i].observed_at)
                },
    {
        let mut out: Vec<CacheEntry> = Vec::new();
        let mut i: usize = 0;
        while i < self.table.len()
            invariant
                self.wf(),
                i <= self.table.keys().len(),
                out.len() == i,
                forall|j: int|
                    0 <= j < i ==> {
                        &&& (#[trigger] out[j]).device_id@ == self.devices()[j]
                        &&& self@.contains_key(out[j].device_id@)
                        &&& self@[out[j].device_id@] == (out[j].value@, out[j].observed_at)
                    },
            decreases self.table.keys().len() - i,
        {
            let key = self.table.key(i);
            let held = self.table.value(i);
            proof {
                crate::keyed::lemma_position_unique(self.table.keys(), i as int);
            }
            out.push(
                CacheEntry {
                    device_id: key.clone(),
                    value: held.value.duplicate(),
                    observed_at: held.observed_at,
                },
            );
            i += 1;
        }
        out
    }
}

/// What the gateway knows of a device from its status messages.
pub struct DeviceInfo {
    pub device_id: String,
    /// When the device last reported its status, in seconds since the epoch.
    pub last_seen: u64,
    pub id: Option<String>,
    pub ip: Option<String>,
    pub version: Option<String>,
    pub rssi: Option<i64>,
    /// The status message that arrived last.
    pub status_raw: Option<Json>,
}

/// A registry entry over mathematical values.
pub struct DeviceInfoView {
    pub device_id: Seq<char>,
    pub last_seen: u64,
    pub id: Option<Seq<char>>,
    pub ip: Option<Seq<char>>,
    pub version: Option<Seq<char>>,
    pub rssi: Option<i64>,
    pub status_raw: Option<Seq<char>>,
}

/// The characters of a string that may be absent.
pub open spec fn text_of(s: Option<String>) -> Option<Seq<char>> {
    match s {
        Some(held) => Some(held@),
        None => None,
    }
}

impl View for DeviceInfo {
    type V = DeviceInfoView;

    open spec fn view(&self) -> DeviceInfoView {
        DeviceInfoView {
            device_id: self.device_id@,
            last_seen: self.last_seen,
            id: text_of(self.id),
            ip: text_of(self.ip),
            version: text_of(self.version),
            rssi: self.rssi,
            status_raw: match self.status_raw {
                Some(doc) => Some(doc@),
                None => None,
            },
        }
    }
}

/// The string under `key` in the status message `status`, if it has one.
pub open spec fn status_text(status: Seq<char>, key: Seq<char>) -> Option<Seq<char>> {
    match json_member(status, key) {
        Some(member) => json_string(member),
        None => None,
    }
}

/// The integer under `key` in the status message `status`, if it has one.
pub open spec fn status_number(status: Seq<char>, key: Seq<char>) -> Option<i64> {
    match json_member(status, key) {
        Some(member) => json_integer(member),
        None => None,
    }
}

/// `fresh` where the message gave a value, else what was known before.
pub open spec fn or_kept<T>(fresh: Option<T>, kept: Option<T>) -> Option<T> {
    if fresh is Some {
        fresh
    } else {
        kept
    }
}

/// The entry of `device` after the status message `status` arrived at `now`.
/// The time and the raw message are always replaced. A field of the entry is
/// replaced only where the message gives a value for it, and is never cleared.
pub open spec fn merged_info(
    before: Option<DeviceInfoView>,
    device: Seq<char>,
    now: u64,
    status: Seq<char>,
) -> DeviceInfoView {
    let kept = match before {
        Some(info) => info,
        None => DeviceInfoView {
            device_id: device,
            last_seen: now,
            id: None,
            ip: None,
            version: None,
            rssi: None,
            status_raw: None,
        },
    };
    DeviceInfoView {
        device_id: device,
        last_seen: now,
        id: or_kept(status_text(status, "id"@), kept.id),
        ip: or_kept(status_text(status, "ip"@), kept.ip),
        version: or_kept(status_text(status, "version"@), kept.version),
        rssi: or_kept(status_number(status, "rssi"@), kept.rssi),
        status_raw: Some(status),
    }
}

/// A status message never clears what is known of a device: a field that
/// held a value before holds one after, and it is the value of the message
/// where the message gives one.
pub proof fn lemma_fields_are_never_cleared(
    before: DeviceInfoView,
    device: Seq<char>,
    now: u64,
    status: Seq<char>,
)
    ensures
        ({
            let after = merged_info(Some(before), device, now, status);
            &&& before.id is Some ==> after.id is Some
            &&& before.ip is Some ==> after.ip is Some
            &&& before.version is Some ==> after.version is Some
            &&& before.rssi is Some ==> after.rssi is Some
            &&& status_text(status, "id"@) is Some ==> after.id == status_text(status, "id"@)
            &&& status_text(status, "ip"@) is Some ==> after.ip == status_text(status, "ip"@)
            &&& status_text(status, "version"@) is Some ==> after.version == status_text(
                status,
                "version"@,
            )
            &&& status_number(status, "rssi"@) is Some ==> after.rssi == status_number(
                status,
                "rssi"@,
            )
            &&& after.last_seen == now
            &&& after.status_raw == Some(status)
        }),
{
}

fn text_field(status: &Json, key: &str) -> (r: Option<String>)
    ensures
        text_of(r) == status_text(status@, key@),
{
    match status.get(key) {
        Some(member) => member.as_str(),
        None => None,
    }
}

fn number_field(status: &Json, key: &str) -> (r: Option<i64>)
    ensures
        r == status_number(status@, key@),
{
    match status.get(key) {
        Some(member) => member.as_i64(),
        None => None,
    }
}

fn text_or_kept(fresh: Option<String>, kept: &Option<String>) -> (r: Option<String>)
    ensures
        text_of(r) == or_kept(text_of(fresh), text_of(*kept)),
{
    match fresh {
        Some(s) => Some(s),
        None => match kept {
            Some(s) => Some(s.clone()),
            None => None,
        },
    }
}

/// The devices that have reported their status.
pub struct DeviceRegistry {
    table: Keyed<DeviceInfo>,
}

impl View for DeviceRegistry {
    type V = Map<Seq<char>, DeviceInfoView>;

    /// For each device, what is known of it.
    closed spec fn view(&self) -> Map<Seq<char>, DeviceInfoView> {
        Map::new(|k: Seq<char>| self.table@.contains_key(k), |k: Seq<char>| self.table@[k]@)
    }
}

/// What is known of `device` in `registry`, if anything.
pub open spec fn known(registry: Map<Seq<char>, DeviceInfoView>, device: Seq<char>) -> Option<
    DeviceInfoView,
> {
    if registry.contains_key(device) {
        Some(registry[device])
    } else {
        None
    }
}

impl DeviceRegistry {
    /// No device occurs twice.
    pub closed spec fn wf(&self) -> bool {
        self.table.wf()
    }

    /// The devices, in the order in which they were first heard of.
    pub closed spec fn devices(&self) -> Seq<Seq<char>> {
        self.table.keys()
    }

    /// The devices of the registry are the keys of its view, each once.
    pub proof fn lemma_devices(&self)
        requires
            self.wf(),
        ensures
            self.devices().no_duplicates(),
            forall|k: Seq<char>| self.devices().contains(k) <==> self@.contains_key(k),
    {
    }

    /// The empty registry.
    pub fn new() -> (r: Self)
        ensures
            r.wf(),
            r@ == Map::<Seq<char>, DeviceInfoView>::empty(),
            r.devices() == Seq::<Seq<char>>::empty(),
    {
        let r = DeviceRegistry { table: Keyed::new() };
        assert(r@ =~= Map::<Seq<char>, DeviceInfoView>::empty());
        r
    }

    /// The number of devices.
    pub fn len(&self) -> (n: usize)
        requires
            self.wf(),
        ensures
            n == self.devices().len(),
    {
        self.table.len()
    }

    /// Records the status message `status` that arrived from `device_id` at `now`.
    pub fn record_status(&mut self, device_id: &str, now: u64, status: Json)
        requires
            old(self).wf(),
        ensures
            final(self).wf(),
            final(self)@ == old(self)@.insert(
                device_id@,
                merged_info(known(old(self)@, device_id@), device_id@, now, status@),
            ),
    {
        let id = text_field(&status, "id");
        let ip = text_field(&status, "ip");
        let version = text_field(&status, "version");
        let rssi = number_field(&status, "rssi");
        let info = match self.table.get(device_id) {
            Some(kept) => DeviceInfo {
                device_id: String::from_str(device_id),
                last_seen: now,
                id: text_or_kept(id, &kept.id),
                ip: text_or_kept(ip, &kept.ip),
                version: text_or_kept(version, &kept.version),
                rssi: match rssi {
                    Some(n) => Some(n),
                    None => kept.rssi,
                },
                status_raw: Some(status),
            },
            None => DeviceInfo {
                device_id: String::from_str(device_id),
                last_seen: now,
                id,
                ip,
                version,
                rssi,
                status_raw: Some(status),
            },
        };
        assert(info@ == merged_info(known(old(self)@, device_id@), device_id@, now, status@));
        self.table.put(device_id, info);
        assert(self@ =~= old(self)@.insert(device_id@, info@));
    }

    /// A copy of what is known of `device_id`.
    pub fn get(&self, device_id: &str) -> (r: Option<DeviceInfo>)
        requires
            self.wf(),
        ensures
            match r {
                Some(info) => self@.contains_key(device_id@) && self@[device_id@] == info@,
                None => !self@.contains_key(device_id@),
            },
    {
        match self.table.get(device_id) {
            Some(held) => Some(copy_info(held)),
            None => None,
        }
    }

    /// A copy of every entry, in the order in which the devices were first heard of.
    pub fn get_all(&self) -> (r: Vec<DeviceInfo>)
        requires
            self.wf(),
        ensures
            r.len() == self.devices().len(),
            forall|i: int|
                0 <= i < r.len() ==> {
                    &&& self@.contains_key(self.devices()[i])
                    &&& self@[self.devices()[i]] == (#[trigger] r[i])@
                },
    {
        let mut out: Vec<DeviceInfo> = Vec::new();
        let mut i: usize = 0;
        while i < self.table.len()
            invariant
                self.wf(),
                i <= self.table.keys().len(),
                out.len() == i,
                forall|j: int|
                    0 <= j < i ==> {
                        &&& self@.contains_key(self.devices()[j])
                        &&& self@[self.devices()[j]] == (#[trigger] out[j])@
                    },
            decreases self.table.keys().len() - i,
        {
            let held = self.table.value(i);
            proof {
                crate::keyed::lemma_position_unique(self.table.keys(), i as int);
            }
            out.push(copy_info(held));
            i += 1;
        }
        out
    }
}

fn copy_text(s: &Option<String>) -> (r: Option<String>)
    ensures
        text_of(r) == text_of(*s),
{
    match s {
        Some(held) => Some(held.clone()),
        None => None,
    }
}

fn copy_info(info: &DeviceInfo) -> (r: DeviceInfo)
    ensures
        r@ == info@,
{
    DeviceInfo {
        device_id: info.device_id.clone(),
        last_seen: info.last_seen,
        id: copy_text(&info.id),
        ip: copy_text(&info.ip),
        version: copy_text(&info.version),
        rssi: info.rssi,
        status_raw: match &info.status_raw {
            Some(doc) => Some(doc.duplicate()),
            None => None,
        },
    }
}

} // verus!
