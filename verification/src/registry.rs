//! The devices that the controller knows, keyed by their MAC address, and
//! every operation of the controller on one of them.

use crate::cache::DeviceAddress;
use crate::device::{Device, IconRequest};
use crate::error::Error;
use crate::rpc::{self, HeaderField, HttpRequest, RpcResponse, SubscribeResponse};
use crate::text;
use crate::weectrl::{State, StateNotification, state_of};
use crate::xml;
use vstd::prelude::*;

verus! {

/// The key under which a device is known: the MAC address in its
/// description.
pub open spec fn device_key(d: Device) -> Seq<char> {
    d.spec_info().root.device.mac_address@
}

/// No two devices share a key.
pub open spec fn keys_distinct(s: Seq<Device>) -> bool {
    forall|i: int, j: int|
        0 <= i < s.len() && 0 <= j < s.len() && i != j ==> device_key(s[i]) != device_key(
            s[j],
        )
}

/// The devices of a sequence, by key.
pub open spec fn to_map(s: Seq<Device>) -> Map<Seq<char>, Device>
    decreases s.len(),
{
    if s.len() == 0 {
        Map::empty()
    } else {
        to_map(s.drop_last()).insert(device_key(s.last()), s.last())
    }
}

/// A key is in the map exactly when some device has it.
proof fn lemma_to_map_dom(s: Seq<Device>, k: Seq<char>)
    ensures
        to_map(s).contains_key(k) <==> exists|j: int| 0 <= j < s.len() && device_key(s[j]) == k,
    decreases s.len(),
{
    if s.len() > 0 {
        lemma_to_map_dom(s.drop_last(), k);
        if to_map(s.drop_last()).contains_key(k) {
            let j = choose|j: int| 0 <= j < s.drop_last().len() && device_key(s.drop_last()[j]) == k;
            assert(s[j] == s.drop_last()[j]);
        }
        if exists|j: int| 0 <= j < s.len() && device_key(s[j]) == k {
            let j = choose|j: int| 0 <= j < s.len() && device_key(s[j]) == k;
            if j < s.len() - 1 {
                assert(s.drop_last()[j] == s[j]);
            }
        }
    }
}

/// With distinct keys, the map holds each device under its key.
proof fn lemma_to_map_value(s: Seq<Device>, j: int)
    requires
        keys_distinct(s),
        0 <= j < s.len(),
    ensures
        to_map(s).contains_key(device_key(s[j])),
        to_map(s)[device_key(s[j])] == s[j],
    decreases s.len(),
{
    if j < s.len() - 1 {
        assert(keys_distinct(s.drop_last()));
        lemma_to_map_value(s.drop_last(), j);
        assert(s.drop_last()[j] == s[j]);
    }
}

/// Replacing a device by one with the same key replaces it in the map.
proof fn lemma_to_map_update(s: Seq<Device>, i: int, d: Device)
    requires
        keys_distinct(s),
        0 <= i < s.len(),
        device_key(d) == device_key(s[i]),
    ensures
        keys_distinct(s.update(i, d)),
        to_map(s.update(i, d)) == to_map(s).insert(device_key(d), d),
{
    let t = s.update(i, d);
    assert(keys_distinct(t)) by {
        assert forall|a: int, b: int|
            0 <= a < t.len() && 0 <= b < t.len() && a != b implies device_key(t[a]) != device_key(
                t[b],
            ) by {
            assert(device_key(t[a]) == device_key(s[a]));
            assert(device_key(t[b]) == device_key(s[b]));
        }
    }
    assert forall|k: Seq<char>| #[trigger]
        to_map(t).contains_key(k) == to_map(s).insert(device_key(d), d).contains_key(k) by {
        lemma_to_map_dom(t, k);
        lemma_to_map_dom(s, k);
        if exists|j: int| 0 <= j < t.len() && device_key(t[j]) == k {
            let j = choose|j: int| 0 <= j < t.len() && device_key(t[j]) == k;
            assert(device_key(s[j]) == k);
        }
        if exists|j: int| 0 <= j < s.len() && device_key(s[j]) == k {
            let j = choose|j: int| 0 <= j < s.len() && device_key(s[j]) == k;
            assert(device_key(t[j]) == k);
        }
    }
    assert forall|k: Seq<char>| #[trigger] to_map(t).contains_key(k) implies to_map(t)[k]
        == to_map(s).insert(device_key(d), d)[k] by {
        lemma_to_map_dom(t, k);
        let j = choose|j: int| 0 <= j < t.len() && device_key(t[j]) == k;
        lemma_to_map_value(t, j);
        if j != i {
            lemma_to_map_value(s, j);
        }
    }
    assert(to_map(t) =~= to_map(s).insert(device_key(d), d));
}

/// The devices known to the controller.
pub struct DeviceRegistry {
    devices: Vec<Device>,
}

impl View for DeviceRegistry {
    type V = Map<Seq<char>, Device>;

    closed spec fn view(&self) -> Map<Seq<char>, Device> {
        to_map(self.devices@)
    }
}

/// The subscription ID and binary state that a notification carries: the
/// readable SID header and the state in a body that holds a property set;
/// `None` when either is missing.
pub open spec fn sid_and_state_of(body: Seq<char>, sid: HeaderField) -> Option<(Seq<char>, u8)> {
    match (rpc::field_text(sid), xml::binary_state_of(body)) {
        (Some(s), Some(u)) => Some((s, u)),
        _ => None,
    }
}

/// The subscription ID and binary state that a notification carries.
pub fn get_sid_and_state(body: &str, sid: HeaderField) -> (r: Option<(String, u8)>)
    ensures
        match r {
            Some(p) => sid_and_state_of(body@, sid) == Some((p.0@, p.1)),
            None => sid_and_state_of(body@, sid) is None,
        },
{
    let text = match sid {
        Some(Ok(s)) => Some(s),
        _ => None,
    };
    let state = xml::get_binary_state(body);
    match (text, state) {
        (Some(s), Some(u)) => Some((s, u)),
        _ => None,
    }
}

/// What a notification body and its SID header report, when the body
/// holds a complete property set.
pub open spec fn notification_of(body: Seq<char>, sid: HeaderField) -> Option<(Seq<char>, u8)> {
    if text::contains(body, "</e:propertyset>"@) {
        sid_and_state_of(body, sid)
    } else {
        None
    }
}

/// What the registry `m` answers to a request to the notification server
/// with `body` and SID header `sid`: when the request carries a
/// subscription ID and a binary state (`notification_of`), a device known
/// under the identifier it gives holds that ID, and the state is the one
/// carried; when no known device holds the ID, nothing; a request that
/// carries no ID and state gives nothing either.
pub open spec fn notification_matches(
    m: Map<Seq<char>, Device>,
    body: Seq<char>,
    sid: HeaderField,
    r: Option<StateNotification>,
) -> bool {
    match notification_of(body, sid) {
        None => r is None,
        Some((s, u)) => match r {
            Some(n) => {
                &&& m.contains_key(n.unique_id@)
                &&& m[n.unique_id@].spec_sid() == Some(s)
                &&& n.state == state_of(u)
            },
            None => forall|k: Seq<char>| #[trigger] m.contains_key(k) ==> m[k].spec_sid() != Some(s),
        },
    }
}

impl DeviceRegistry {
    /// No two known devices share a MAC address.
    pub closed spec fn wf(&self) -> bool {
        keys_distinct(self.devices@)
    }

    /// No devices.
    pub fn new() -> (r: DeviceRegistry)
        ensures
            r.wf(),
            r@ == Map::<Seq<char>, Device>::empty(),
    {
        DeviceRegistry { devices: Vec::new() }
    }

    /// The position of the device known as `id`.
    fn position(&self, id: &str) -> (r: Option<usize>)
        requires
            self.wf(),
        ensures
            match r {
                Some(i) => i < self.devices@.len() && device_key(self.devices@[i as int]) == id@
                    && self@.contains_key(id@) && self@[id@] == self.devices@[i as int],
                None => !self@.contains_key(id@),
            },
    {
        let want = text::to_chars(id);
        let mut i: usize = 0;
        while i < self.devices.len()
            invariant
                self.wf(),
                want@ == id@,
                i <= self.devices@.len(),
                forall|j: int| 0 <= j < i ==> device_key(self.devices@[j]) != id@,
            decreases self.devices@.len() - i,
        {
            let have = text::to_chars(self.devices[i].info().root.device.mac_address.as_str());
            if text::chars_equal(have.as_slice(), want.as_slice()) {
                proof {
                    lemma_to_map_value(self.devices@, i as int);
                }
                return Some(i);
            }
            i += 1;
        }
        proof {
            lemma_to_map_dom(self.devices@, id@);
        }
        None
    }

    /// Whether a device is known as `id`.
    pub fn contains(&self, id: &str) -> (r: bool)
        requires
            self.wf(),
        ensures
            r == self@.contains_key(id@),
    {
        self.position(id).is_some()
    }

    /// The device known as `id`.
    pub fn get(&self, id: &str) -> (r: Option<&Device>)
        requires
            self.wf(),
        ensures
            match r {
                Some(d) => self@.contains_key(id@) && *d == self@[id@],
                None => !self@.contains_key(id@),
            },
    {
        match self.position(id) {
            Some(i) => Some(&self.devices[i]),
            None => None,
        }
    }

    /// Adds a newly found device, unless one with its MAC address is known:
    /// then `DeviceAlreadyRegistered`, and nothing changes.
    pub fn register(&mut self, dev: Device) -> (r: Result<(), Error>)
        requires
            old(self).wf(),
        ensures
            final(self).wf(),
            if old(self)@.contains_key(device_key(dev)) {
                r == Err::<(), Error>(Error::DeviceAlreadyRegistered) && final(self)@ == old(self)@
            } else {
                r is Ok && final(self)@ == old(self)@.insert(device_key(dev), dev)
            },
    {
        if self.contains(dev.info().root.device.mac_address.as_str()) {
            return Err(Error::DeviceAlreadyRegistered);
        }
        proof {
            assert forall|j: int| 0 <= j < self.devices@.len() implies device_key(self.devices@[j])
                != device_key(dev) by {
                lemma_to_map_value(self.devices@, j);
            }
        }
        let ghost before = self.devices@;
        self.devices.push(dev);
        assert(self.devices@.drop_last() =~= before);
        Ok(())
    }

    /// Forgets all devices.
    pub fn clear(&mut self)
        requires
            old(self).wf(),
        ensures
            final(self).wf(),
            final(self)@ == Map::<Seq<char>, Device>::empty(),
    {
        self.devices.clear();
    }

    /// The identifiers of all known devices, each once.
    pub fn ids(&self) -> (r: Vec<String>)
        requires
            self.wf(),
        ensures
            forall|i: int| 0 <= i < r@.len() ==> self@.contains_key(#[trigger] r@[i]@),
            forall|k: Seq<char>|
                self@.contains_key(k) ==> exists|i: int| 0 <= i < r@.len() && #[trigger] r@[i]@ == k,
            forall|i: int, j: int| 0 <= i < r@.len() && 0 <= j < r@.len() && i != j ==> r@[i]@ != r@[j]@,
    {
        let mut r: Vec<String> = Vec::new();
        let mut i: usize = 0;
        while i < self.devices.len()
            invariant
                self.wf(),
                i <= self.devices@.len(),
                r@.len() == i,
                forall|j: int| 0 <= j < i ==> #[trigger] r@[j]@ == device_key(self.devices@[j]),
            decreases self.devices@.len() - i,
        {
            r.push(self.devices[i].info().root.device.mac_address.clone());
            i += 1;
        }
        proof {
            assert forall|j: int| 0 <= j < r@.len() implies self@.contains_key(#[trigger] r@[j]@) by {
                lemma_to_map_value(self.devices@, j);
            }
            assert forall|k: Seq<char>| self@.contains_key(k) implies exists|j: int|
                0 <= j < r@.len() && #[trigger] r@[j]@ == k by {
                lemma_to_map_dom(self.devices@, k);
                let j = choose|j: int| 0 <= j < self.devices@.len() && device_key(self.devices@[j]) == k;
                assert(r@[j]@ == k);
            }
        }
        r
    }

    /// The disk cache entries of all known devices: each device's location
    /// under its MAC address, each device once.
    pub fn cache_addresses(&self) -> (r: Vec<DeviceAddress>)
        requires
            self.wf(),
        ensures
            forall|i: int| 0 <= i < r@.len() ==> {
                let a = #[trigger] r@[i];
                &&& self@.contains_key(a.mac_address@)
                &&& a.location == self@[a.mac_address@].spec_info().location
            },
            forall|k: Seq<char>|
                self@.contains_key(k) ==> exists|i: int|
                    0 <= i < r@.len() && #[trigger] r@[i].mac_address@ == k,
            forall|i: int, j: int|
                0 <= i < r@.len() && 0 <= j < r@.len() && i != j ==> r@[i].mac_address@
                    != r@[j].mac_address@,
    {
        let mut r: Vec<DeviceAddress> = Vec::new();
        let mut i: usize = 0;
        while i < self.devices.len()
            invariant
                self.wf(),
                i <= self.devices@.len(),
                r@.len() == i,
                forall|j: int|
                    0 <= j < i ==> #[trigger] r@[j].mac_address@ == device_key(self.devices@[j])
                        && r@[j].location == self.devices@[j].spec_info().location,
            decreases self.devices@.len() - i,
        {
            let d = &self.devices[i];
            r.push(
                DeviceAddress {
                    location: d.info().location.clone(),
                    mac_address: d.info().root.device.mac_address.clone(),
                },
            );
            i += 1;
        }
        proof {
            assert forall|j: int| 0 <= j < r@.len() implies {
                let a = #[trigger] r@[j];
                &&& self@.contains_key(a.mac_address@)
                &&& a.location == self@[a.mac_address@].spec_info().location
            } by {
                lemma_to_map_value(self.devices@, j);
            }
            assert forall|k: Seq<char>| self@.contains_key(k) implies exists|j: int|
                0 <= j < r@.len() && #[trigger] r@[j].mac_address@ == k by {
                lemma_to_map_dom(self.devices@, k);
                let j = choose|j: int| 0 <= j < self.devices@.len() && device_key(self.devices@[j]) == k;
                assert(r@[j].mac_address@ == k);
            }
        }
        r
    }
}

/// The shortest subscription the controller asks for, in seconds.
pub const MIN_SUBSCRIPTION_SECONDS: u64 = 15;

/// A subscription must last at least 15 seconds; a shorter one is
/// `TimeoutTooShort`.
pub fn check_subscription_duration(seconds: u64) -> (r: Result<(), Error>)
    ensures
        r is Ok <==> seconds >= 15,
        r is Err ==> r == Err::<(), Error>(Error::TimeoutTooShort),
{
    if seconds < MIN_SUBSCRIPTION_SECONDS {
        Err(Error::TimeoutTooShort)
    } else {
        Ok(())
    }
}

impl DeviceRegistry {
    /// The device known as `id`; an unknown one is `UnknownDevice`.
    pub fn lookup(&self, id: &str) -> (r: Result<&Device, Error>)
        requires
            self.wf(),
        ensures
            match r {
                Ok(d) => self@.contains_key(id@) && *d == self@[id@],
                Err(e) => !self@.contains_key(id@) && e == Error::UnknownDevice,
            },
    {
        match self.position(id) {
            Some(i) => Ok(&self.devices[i]),
            None => Err(Error::UnknownDevice),
        }
    }

    /// Starts reading the binary state of the device known as `id`: its
    /// state becomes `Unknown`, and the request to send is returned.
    pub fn begin_get_binary_state(&mut self, id: &str) -> (r: Result<HttpRequest, Error>)
        requires
            old(self).wf(),
        ensures
            final(self).wf(),
            if !old(self)@.contains_key(id@) {
                r == Err::<HttpRequest, Error>(Error::UnknownDevice) && final(self)@ == old(self)@
            } else {
                let d = old(self)@[id@];
                &&& rpc::request_result(r) == d.fetch_state_request()
                &&& final(self)@ == old(self)@.insert(id@, d.with_state(State::Unknown))
            },
    {
        let i = match self.position(id) {
            Some(i) => i,
            None => {
                return Err(Error::UnknownDevice);
            },
        };
        let ghost before = self.devices@;
        let r = self.devices[i].begin_fetch_binary_state();
        proof {
            before[i as int].lemma_updates(State::Unknown, None);
            assert(self.devices@ == before.update(i as int, before[i as int].with_state(State::Unknown)));
            lemma_to_map_update(before, i as int, before[i as int].with_state(State::Unknown));
        }
        r
    }

    /// Takes the answer to a state query for the device known as `id`.
    pub fn finish_get_binary_state(&mut self, id: &str, reply: Result<String, Error>) -> (r:
        Result<State, Error>)
        requires
            old(self).wf(),
        ensures
            final(self).wf(),
            if !old(self)@.contains_key(id@) {
                r == Err::<State, Error>(Error::UnknownDevice) && final(self)@ == old(self)@
            } else {
                let d = old(self)@[id@];
                match reply {
                    Err(e0) => r == Err::<State, Error>(e0) && final(self)@ == old(self)@,
                    Ok(body) => match xml::binary_state_of(body@) {
                        None => r == Err::<State, Error>(Error::InvalidState) && final(self)@
                            == old(self)@,
                        Some(u) => r == Ok::<State, Error>(state_of(u)) && final(self)@ == old(
                            self)@.insert(id@, d.with_state(state_of(u))),
                    },
                }
            },
    {
        let i = match self.position(id) {
            Some(i) => i,
            None => {
                return Err(Error::UnknownDevice);
            },
        };
        let ghost before = self.devices@;
        let r = self.devices[i].finish_fetch_binary_state(reply);
        proof {
            if r is Ok {
                let st = r->Ok_0;
                before[i as int].lemma_updates(st, None);
                lemma_to_map_update(before, i as int, before[i as int].with_state(st));
            } else {
                assert(self.devices@ =~= before);
            }
        }
        r
    }

    /// Takes the answer to a request that set the state of the device known
    /// as `id` to `state`.
    pub fn finish_set_binary_state(&mut self, id: &str, state: State, reply: Result<String, Error>) -> (r:
        Result<State, Error>)
        requires
            old(self).wf(),
        ensures
            final(self).wf(),
            if !old(self)@.contains_key(id@) {
                r == Err::<State, Error>(Error::UnknownDevice) && final(self)@ == old(self)@
            } else {
                let d = old(self)@[id@];
                match reply {
                    Err(e0) => r == Err::<State, Error>(e0) && final(self)@ == old(self)@,
                    Ok(body) => if xml::reports_error(body@) {
                        r == Err::<State, Error>(Error::DeviceError) && final(self)@ == old(self)@
                    } else {
                        r == Ok::<State, Error>(state) && final(self)@ == old(self)@.insert(
                            id@,
                            d.with_state(state),
                        )
                    },
                }
            },
    {
        let i = match self.position(id) {
            Some(i) => i,
            None => {
                return Err(Error::UnknownDevice);
            },
        };
        let ghost before = self.devices@;
        let r = self.devices[i].finish_set_binary_state(state, reply);
        proof {
            if r is Ok {
                before[i as int].lemma_updates(state, None);
                lemma_to_map_update(before, i as int, before[i as int].with_state(state));
            } else {
                assert(self.devices@ =~= before);
            }
        }
        r
    }

    /// Starts fetching the icons of the device known as `id`: its state
    /// becomes `Unknown`; the result is the number of icons to fetch.
    pub fn begin_get_icons(&mut self, id: &str) -> (r: Result<usize, Error>)
        requires
            old(self).wf(),
        ensures
            final(self).wf(),
            if !old(self)@.contains_key(id@) {
                r == Err::<usize, Error>(Error::UnknownDevice) && final(self)@ == old(self)@
            } else {
                let d = old(self)@[id@];
                &&& r == Ok::<usize, Error>(d.spec_info().root.device.icon_list.icon@.len() as usize)
                &&& final(self)@ == old(self)@.insert(id@, d.with_state(State::Unknown))
            },
    {
        let i = match self.position(id) {
            Some(i) => i,
            None => {
                return Err(Error::UnknownDevice);
            },
        };
        let ghost before = self.devices@;
        let n = self.devices[i].begin_fetch_icons();
        proof {
            before[i as int].lemma_updates(State::Unknown, None);
            lemma_to_map_update(before, i as int, before[i as int].with_state(State::Unknown));
        }
        Ok(n)
    }

    /// Takes the device's answer to a subscription request for the device
    /// known as `id`.
    pub fn finish_subscribe(&mut self, id: &str, reply: Result<RpcResponse, Error>) -> (r:
        Result<SubscribeResponse, Error>)
        requires
            old(self).wf(),
        ensures
            final(self).wf(),
            if !old(self)@.contains_key(id@) {
                r == Err::<SubscribeResponse, Error>(Error::UnknownDevice) && final(self)@ == old(
                    self)@
            } else {
                let d = old(self)@[id@];
                match r {
                    Ok(s) => {
                        &&& reply matches Ok(resp) && resp.status == 200 && resp.sid == Some(s.sid)
                            && (resp.timeout matches Some(t) && s.timeout == rpc::timeout_seconds(
                            t@))
                        &&& final(self)@ == old(self)@.insert(id@, d.with_sid(Some(s.sid)))
                    },
                    Err(e) => final(self)@ == old(self)@ && match reply {
                        Err(e0) => e == e0,
                        Ok(resp) => if resp.status != 200 {
                            e == Error::InvalidResponse(resp.status)
                        } else {
                            e == Error::DeviceError && (resp.sid is None || resp.timeout is None)
                        },
                    },
                }
            },
    {
        let i = match self.position(id) {
            Some(i) => i,
            None => {
                return Err(Error::UnknownDevice);
            },
        };
        let ghost before = self.devices@;
        let r = self.devices[i].finish_subscribe(reply);
        proof {
            if r is Ok {
                let sid = Some(r->Ok_0.sid);
                before[i as int].lemma_updates(State::Unknown, sid);
                lemma_to_map_update(before, i as int, before[i as int].with_sid(sid));
            } else {
                assert(self.devices@ =~= before);
            }
        }
        r
    }

    /// Takes the subscription ID `sid` that renewed the subscription
    /// `previous` of the device known as `id`, while the device still holds
    /// `previous`; otherwise nothing changes.
    pub fn renew_subscription(&mut self, id: &str, previous: &str, sid: String)
        requires
            old(self).wf(),
        ensures
            final(self).wf(),
            if old(self)@.contains_key(id@) && old(self)@[id@].spec_sid() == Some(previous@) {
                final(self)@ == old(self)@.insert(id@, old(self)@[id@].with_sid(Some(sid)))
            } else {
                final(self)@ == old(self)@
            },
    {
        let i = match self.position(id) {
            Some(i) => i,
            None => {
                return ;
            },
        };
        let ghost before = self.devices@;
        let ghost sid_before = sid;
        self.devices[i].renew_subscription(previous, sid);
        proof {
            if before[i as int].spec_sid() == Some(previous@) {
                before[i as int].lemma_updates(State::Unknown, Some(sid_before));
                lemma_to_map_update(before, i as int, before[i as int].with_sid(Some(sid_before)));
            } else {
                assert(self.devices@ =~= before);
            }
        }
    }

    /// Takes the HTTP status of the answer to an unsubscribe request for the
    /// device known as `id`.
    pub fn finish_unsubscribe(&mut self, id: &str, reply: Result<u16, Error>) -> (r: Result<
        String,
        Error,
    >)
        requires
            old(self).wf(),
        ensures
            final(self).wf(),
            if !old(self)@.contains_key(id@) {
                r == Err::<String, Error>(Error::UnknownDevice) && final(self)@ == old(self)@
            } else {
                let d = old(self)@[id@];
                match r {
                    Ok(sid) => {
                        &&& reply == Ok::<u16, Error>(200)
                        &&& d.spec_sid() == Some(sid@)
                        &&& final(self)@ == old(self)@.insert(id@, d.with_sid(None))
                    },
                    Err(e) => final(self)@ == old(self)@ && if d.spec_sid() is None {
                        e == Error::NotSubscribed
                    } else {
                        match reply {
                            Err(e0) => e == e0,
                            Ok(status) => status != 200 && e == Error::InvalidResponse(status),
                        }
                    },
                }
            },
    {
        let i = match self.position(id) {
            Some(i) => i,
            None => {
                return Err(Error::UnknownDevice);
            },
        };
        let ghost before = self.devices@;
        let r = self.devices[i].finish_unsubscribe(reply);
        proof {
            if r is Ok {
                before[i as int].lemma_updates(State::Unknown, None);
                lemma_to_map_update(before, i as int, before[i as int].with_sid(None));
            } else {
                assert(self.devices@ =~= before);
            }
        }
        r
    }

    /// The notification that a request to the notification server reports:
    /// when its body holds a property set with a binary state, and its SID
    /// header is the subscription ID of a known device, that device's
    /// identifier and new state; otherwise none.
    pub fn notification_for(&self, body: &str, sid: HeaderField) -> (r: Option<StateNotification>)
        requires
            self.wf(),
        ensures
            notification_matches(self@, body@, sid, r),
            r matches Some(n) ==> (xml::binary_state_of(body@) matches Some(b) && n.state
                == state_of(b)),
            r matches Some(n) ==> (rpc::field_text(sid) matches Some(t) && self@.contains_key(
                n.unique_id@,
            ) && self@[n.unique_id@].spec_sid() == Some(t)),
    {
        if !text::str_contains(body, "</e:propertyset>") {
            return None;
        }
        let (notification_sid, state) = match get_sid_and_state(body, sid) {
            Some(p) => p,
            None => {
                return None;
            },
        };
        let want = text::to_chars(notification_sid.as_str());
        let mut i: usize = 0;
        while i < self.devices.len()
            invariant
                self.wf(),
                want@ == notification_sid@,
                notification_of(body@, sid) == Some((notification_sid@, state)),
                i <= self.devices@.len(),
                forall|j: int|
                    0 <= j < i ==> self.devices@[j].spec_sid() != Some(notification_sid@),
            decreases self.devices@.len() - i,
        {
            let dev = &self.devices[i];
            match dev.sid() {
                Some(device_sid) => {
                    let have = text::to_chars(device_sid.as_str());
                    if text::chars_equal(have.as_slice(), want.as_slice()) {
                        proof {
                            lemma_to_map_value(self.devices@, i as int);
                        }
                        let st = State::from(state);
                        let unique_id = dev.info().root.device.mac_address.clone();
                        return Some(StateNotification { unique_id, state: st });
                    }
                },
                None => {},
            }
            i += 1;
        }
        proof {
            assert forall|k: Seq<char>| #[trigger]
                self@.contains_key(k) implies self@[k].spec_sid() != Some(notification_sid@) by {
                lemma_to_map_dom(self.devices@, k);
                let j = choose|j: int| 0 <= j < self.devices@.len() && device_key(self.devices@[j]) == k;
                lemma_to_map_value(self.devices@, j);
            }
        }
        None
    }
}

/// Law: a registered device is known under its key as itself, no other
/// entry changes, and registering a device with the same key again is
/// refused (the registry then already holds the key).
pub proof fn lemma_register_then_lookup(m: Map<Seq<char>, Device>, d: Device)
    requires
        !m.contains_key(device_key(d)),
    ensures
        m.insert(device_key(d), d).contains_key(device_key(d)),
        m.insert(device_key(d), d)[device_key(d)] == d,
        forall|k: Seq<char>|
            k != device_key(d) ==> (#[trigger] m.insert(device_key(d), d).contains_key(k)
                == m.contains_key(k)),
{
}

/// Law: after the state of a known device is set (or read), reading the
/// registry gives that state for it; the set of known devices and every
/// other device stay as they were.
pub proof fn lemma_registry_state_write_read(m: Map<Seq<char>, Device>, id: Seq<char>, s: State)
    requires
        m.contains_key(id),
    ensures
        m.insert(id, m[id].with_state(s))[id].spec_info().state == s,
        m.insert(id, m[id].with_state(s)).dom() == m.dom(),
        forall|k: Seq<char>|
            k != id && m.contains_key(k) ==> #[trigger] m.insert(id, m[id].with_state(s))[k]
                == m[k],
{
    m[id].lemma_updates(s, None);
    assert(m.insert(id, m[id].with_state(s)).dom() =~= m.dom());
}

/// Law: after a subscription of a known device is recorded, the registry
/// holds its subscription ID, so a notification with that ID can be
/// matched to it; the known devices stay the same.
pub proof fn lemma_registry_subscription_write_read(
    m: Map<Seq<char>, Device>,
    id: Seq<char>,
    sid: String,
)
    requires
        m.contains_key(id),
    ensures
        m.insert(id, m[id].with_sid(Some(sid)))[id].spec_sid() == Some(sid@),
        m.insert(id, m[id].with_sid(Some(sid)))[id].spec_info() == m[id].spec_info(),
        m.insert(id, m[id].with_sid(Some(sid))).dom() == m.dom(),
{
    m[id].lemma_updates(State::Unknown, Some(sid));
    assert(m.insert(id, m[id].with_sid(Some(sid))).dom() =~= m.dom());
}

/// Law: when a notification carries the subscription ID `s` of a known
/// device, and no other known device holds that ID, the notification is
/// delivered as that device's, with the state the notification carries.
pub proof fn lemma_notification_finds_subscriber(
    m: Map<Seq<char>, Device>,
    id: Seq<char>,
    body: Seq<char>,
    sid: HeaderField,
    s: Seq<char>,
    u: u8,
    r: Option<StateNotification>,
)
    requires
        text::contains(body, "</e:propertyset>"@),
        rpc::field_text(sid) == Some(s),
        xml::binary_state_of(body) == Some(u),
        m.contains_key(id),
        m[id].spec_sid() == Some(s),
        forall|k: Seq<char>| #[trigger] m.contains_key(k) && k != id ==> m[k].spec_sid() != Some(s),
        notification_matches(m, body, sid, r),
    ensures
        r matches Some(n) && n.unique_id@ == id && n.state == state_of(u),
{
    if r is None {
        assert(m.contains_key(id));
    }
}

/// Law: a delivered notification reports the state that the request's
/// body carries, for a known device that holds the subscription ID of the
/// request's SID header; a request without both delivers nothing.
pub proof fn lemma_notification_reports_body_state(
    m: Map<Seq<char>, Device>,
    body: Seq<char>,
    sid: HeaderField,
    r: Option<StateNotification>,
)
    requires
        notification_matches(m, body, sid, r),
    ensures
        r matches Some(n) ==> (xml::binary_state_of(body) matches Some(b) && n.state == state_of(
            b,
        )),
        r matches Some(n) ==> (rpc::field_text(sid) matches Some(t) && m.contains_key(n.unique_id@)
            && m[n.unique_id@].spec_sid() == Some(t)),
        (rpc::field_text(sid) is None || xml::binary_state_of(body) is None) ==> r is None,
{
}

} // verus!
