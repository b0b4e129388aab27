//! The backend's device and stream bookkeeping.
//!
//! Each store keeps one record per key (a device per `DeviceKey`, a stream
//! per `StreamIndex`). Its view is the map from key to record. Refreshing a
//! record reports which change events the refresh implies.

use vstd::prelude::*;

use crate::keyed::{
    keyed_map, keys_unique, lemma_keyed_map, lemma_keyed_map_push, lemma_keyed_map_remove,
    lemma_keyed_map_update,
};
use crate::pulse::device::{same_port, DeviceIndex, DeviceInfo, DeviceKey, DeviceType};
use crate::pulse::error::PulseError;
use crate::pulse::stream::{StreamIndex, StreamInfo, StreamType};
use crate::text::str_eq;

verus! {

/// The key under which the device store files a device.
pub open spec fn device_key_fn() -> spec_fn(DeviceInfo) -> DeviceKey {
    |d: DeviceInfo| d.key
}

/// The key under which the stream store files a stream.
pub open spec fn stream_key_fn() -> spec_fn(StreamInfo) -> StreamIndex {
    |s: StreamInfo| s.index
}

/// The change events implied by refreshing one record of a store.
#[derive(Debug, Clone, Copy, PartialEq, Eq, Structural)]
pub struct RecordUpdate {
    /// The record was not known before (an `...Added` event).
    pub added: bool,
    /// The known record's volume levels differ (a `...VolumeChanged` event).
    pub volume_changed: bool,
    /// The known record's mute state differs (a `...MuteChanged` event).
    pub mute_changed: bool,
    /// Other tracked properties differ (a `...Changed` event).
    pub properties_changed: bool,
}

/// The update reported when a record is refreshed with `info`.
pub open spec fn spec_device_update(m: Map<DeviceKey, DeviceInfo>, info: DeviceInfo) -> RecordUpdate {
    if m.dom().contains(info.key) {
        let old = m[info.key];
        RecordUpdate {
            added: false,
            volume_changed: old.volume@ != info.volume@,
            mute_changed: old.muted != info.muted,
            properties_changed: !old.same_properties(&info),
        }
    } else {
        RecordUpdate {
            added: true,
            volume_changed: false,
            mute_changed: false,
            properties_changed: false,
        }
    }
}

/// The update reported when a stream is refreshed with `info`.
pub open spec fn spec_stream_update(m: Map<StreamIndex, StreamInfo>, info: StreamInfo) -> RecordUpdate {
    if m.dom().contains(info.index) {
        let old = m[info.index];
        RecordUpdate {
            added: false,
            volume_changed: old.volume@ != info.volume@,
            mute_changed: old.muted != info.muted,
            properties_changed: !old.same_properties(&info),
        }
    } else {
        RecordUpdate {
            added: true,
            volume_changed: false,
            mute_changed: false,
            properties_changed: false,
        }
    }
}

/// Known audio devices, one per device key.
pub struct DeviceStore {
    devices: Vec<DeviceInfo>,
}

impl View for DeviceStore {
    type V = Map<DeviceKey, DeviceInfo>;

    closed spec fn view(&self) -> Map<DeviceKey, DeviceInfo> {
        keyed_map(self.devices@, device_key_fn())
    }
}

impl DeviceStore {
    /// No two stored devices share a key.
    pub closed spec fn wf(&self) -> bool {
        keys_unique(self.devices@, device_key_fn())
    }

    /// An empty store.
    pub fn new() -> (r: Self)
        ensures
            r.wf(),
            r@ == Map::<DeviceKey, DeviceInfo>::empty(),
    {
        let r = DeviceStore { devices: Vec::new() };
        assert(r@ =~= Map::<DeviceKey, DeviceInfo>::empty());
        r
    }

    /// Number of stored devices.
    pub fn len(&self) -> (r: usize)
        requires
            self.wf(),
        ensures
            r == self@.len(),
    {
        proof {
            lemma_keyed_map(self.devices@, device_key_fn());
        }
        self.devices.len()
    }

    /// All stored devices, each once.
    pub fn entries(&self) -> (r: &[DeviceInfo])
        requires
            self.wf(),
        ensures
            keys_unique(r@, device_key_fn()),
            keyed_map(r@, device_key_fn()) == self@,
    {
        self.devices.as_slice()
    }

    fn position(&self, key: &DeviceKey) -> (r: Option<usize>)
        requires
            self.wf(),
        ensures
            match r {
                Some(i) => i < self.devices@.len() && self.devices@[i as int].key == *key,
                None => !self@.dom().contains(*key),
            },
    {
        proof {
            lemma_keyed_map(self.devices@, device_key_fn());
        }
        let mut i: usize = 0;
        while i < self.devices.len()
            invariant
                i <= self.devices@.len(),
                forall|j: int| 0 <= j < i ==> self.devices@[j].key != *key,
            decreases self.devices@.len() - i,
        {
            if self.devices[i].key == *key {
                return Some(i);
            }
            i = i + 1;
        }
        None
    }

    /// The device stored under `key`.
    pub fn get(&self, key: &DeviceKey) -> (r: Option<&DeviceInfo>)
        requires
            self.wf(),
        ensures
            match r {
                Some(d) => self@.dom().contains(*key) && *d == self@[*key],
                None => !self@.dom().contains(*key),
            },
    {
        proof {
            lemma_keyed_map(self.devices@, device_key_fn());
        }
        match self.position(key) {
            Some(i) => {
                proof {
                    assert(device_key_fn()(self.devices@[i as int]) == *key);
                }
                Some(&self.devices[i])
            },
            None => None,
        }
    }

    /// Some stored device with the index and type that `key` names, or
    /// `DeviceNotFound` with the index when no stored device has both.
    pub fn device(&self, key: DeviceKey) -> (r: Result<&DeviceInfo, PulseError>)
        requires
            self.wf(),
        ensures
            match r {
                Ok(d) => d.index.0 == key.index && d.device_type == key.device_type
                    && self@.dom().contains(d.key) && self@[d.key] == *d,
                Err(e) => e == PulseError::DeviceNotFound(DeviceIndex(key.index)) && forall|
                    k: DeviceKey,
                | #[trigger]
                    self@.dom().contains(k) ==> !(self@[k].index.0 == key.index
                        && self@[k].device_type == key.device_type),
            },
    {
        proof {
            lemma_keyed_map(self.devices@, device_key_fn());
        }
        let mut i: usize = 0;
        while i < self.devices.len()
            invariant
                self.wf(),
                i <= self.devices@.len(),
                forall|j: int|
                    0 <= j < i ==> !(#[trigger] self.devices@[j].index.0 == key.index
                        && self.devices@[j].device_type == key.device_type),
            decreases self.devices@.len() - i,
        {
            let d = &self.devices[i];
            if d.index.0 == key.index && d.device_type == key.device_type {
                proof {
                    lemma_keyed_map(self.devices@, device_key_fn());
                    assert(device_key_fn()(self.devices@[i as int]) == self.devices@[i as int].key);
                }
                return Ok(d);
            }
            i = i + 1;
        }
        proof {
            assert forall|k: DeviceKey| #[trigger] self@.dom().contains(k) implies !(
            self@[k].index.0 == key.index && self@[k].device_type == key.device_type) by {
                let j = choose|j: int|
                    0 <= j < self.devices@.len() && device_key_fn()(self.devices@[j]) == k;
                assert(self@[device_key_fn()(self.devices@[j])] == self.devices@[j]);
            }
        }
        Err(PulseError::DeviceNotFound(DeviceIndex(key.index)))
    }

    /// Some stored device with the given index, of either type.
    pub fn find_by_index(&self, index: DeviceIndex) -> (r: Option<&DeviceInfo>)
        requires
            self.wf(),
        ensures
            match r {
                Some(d) => d.index == index && self@.dom().contains(d.key) && self@[d.key] == *d,
                None => forall|k: DeviceKey| #[trigger]
                    self@.dom().contains(k) ==> self@[k].index != index,
            },
    {
        proof {
            lemma_keyed_map(self.devices@, device_key_fn());
        }
        let mut i: usize = 0;
        while i < self.devices.len()
            invariant
                self.wf(),
                i <= self.devices@.len(),
                forall|j: int| 0 <= j < i ==> self.devices@[j].index != index,
            decreases self.devices@.len() - i,
        {
            if self.devices[i].index == index {
                proof {
                    lemma_keyed_map(self.devices@, device_key_fn());
                    assert(device_key_fn()(self.devices@[i as int]) == self.devices@[i as int].key);
                }
                return Some(&self.devices[i]);
            }
            i = i + 1;
        }
        proof {
            assert forall|k: DeviceKey| #[trigger] self@.dom().contains(k) implies self@[k].index
                != index by {
                let j = choose|j: int|
                    0 <= j < self.devices@.len() && device_key_fn()(self.devices@[j]) == k;
                assert(self@[device_key_fn()(self.devices@[j])] == self.devices@[j]);
            }
        }
        None
    }

    /// Some stored device whose name is `name`.
    pub fn find_by_name(&self, name: &str) -> (r: Option<&DeviceInfo>)
        requires
            self.wf(),
        ensures
            match r {
                Some(d) => d.name@ == name@ && self@.dom().contains(d.key) && self@[d.key] == *d,
                None => forall|k: DeviceKey| #[trigger]
                    self@.dom().contains(k) ==> self@[k].name@ != name@,
            },
    {
        proof {
            lemma_keyed_map(self.devices@, device_key_fn());
        }
        let mut i: usize = 0;
        while i < self.devices.len()
            invariant
                self.wf(),
                i <= self.devices@.len(),
                forall|j: int| 0 <= j < i ==> self.devices@[j].name@ != name@,
            decreases self.devices@.len() - i,
        {
            if str_eq(self.devices[i].name.as_str(), name) {
                proof {
                    lemma_keyed_map(self.devices@, device_key_fn());
                    assert(device_key_fn()(self.devices@[i as int]) == self.devices@[i as int].key);
                }
                return Some(&self.devices[i]);
            }
            i = i + 1;
        }
        proof {
            assert forall|k: DeviceKey| #[trigger] self@.dom().contains(k) implies self@[k].name@
                != name@ by {
                let j = choose|j: int|
                    0 <= j < self.devices@.len() && device_key_fn()(self.devices@[j]) == k;
                assert(self@[device_key_fn()(self.devices@[j])] == self.devices@[j]);
            }
        }
        None
    }

    /// The stored devices of one type, each once.
    pub fn devices_by_type(&self, device_type: DeviceType) -> (r: Vec<&DeviceInfo>)
        requires
            self.wf(),
        ensures
            forall|i: int|
                0 <= i < r@.len() ==> (#[trigger] r@[i]).device_type == device_type
                    && self@.dom().contains(r@[i].key) && self@[r@[i].key] == *r@[i],
            forall|k: DeviceKey|
                self@.dom().contains(k) && self@[k].device_type == device_type ==> exists|i: int|
                    0 <= i < r@.len() && (#[trigger] r@[i]).key == k,
            forall|i: int, j: int|
                0 <= i < r@.len() && 0 <= j < r@.len() && i != j ==> (#[trigger] r@[i]).key
                    != (#[trigger] r@[j]).key,
    {
        proof {
            lemma_keyed_map(self.devices@, device_key_fn());
        }
        let mut r: Vec<&DeviceInfo> = Vec::new();
        let mut i: usize = 0;
        let ghost mut pos: Seq<int> = Seq::empty();
        while i < self.devices.len()
            invariant
                self.wf(),
                i <= self.devices@.len(),
                pos.len() == r@.len(),
                forall|a: int|
                    0 <= a < r@.len() ==> 0 <= #[trigger] pos[a] < i && *r@[a]
                        == self.devices@[pos[a]] && r@[a].device_type == device_type,
                forall|a: int, b: int| 0 <= a < b < r@.len() ==> #[trigger] pos[a] < #[trigger] pos[b],
                forall|j: int|
                    0 <= j < i && self.devices@[j].device_type == device_type ==> exists|a: int|
                        0 <= a < r@.len() && #[trigger] pos[a] == j,
            decreases self.devices@.len() - i,
        {
            let ghost old_pos = pos;
            let ghost old_r = r@;
            if self.devices[i].device_type == device_type {
                r.push(&self.devices[i]);
                proof {
                    pos = pos.push(i as int);
                    assert forall|a: int| 0 <= a < old_r.len() implies r@[a] == old_r[a]
                        && #[trigger] pos[a] == old_pos[a] by {}
                    assert(pos[old_r.len() as int] == i);
                    assert(*r@[old_r.len() as int] == self.devices@[i as int]);
                    assert forall|a: int| 0 <= a < r@.len() implies 0 <= #[trigger] pos[a] < i + 1
                        && *r@[a] == self.devices@[pos[a]] && r@[a].device_type == device_type by {
                        if a < old_r.len() {
                            assert(r@[a] == old_r[a]);
                            assert(pos[a] == old_pos[a]);
                            assert(0 <= old_pos[a] < i);
                        }
                    }
                }
            }
            proof {
                assert forall|j: int|
                    0 <= j < i + 1 && self.devices@[j].device_type == device_type implies exists|a: int|
                    0 <= a < r@.len() && #[trigger] pos[a] == j by {
                    if j < i {
                        let a = choose|a: int| 0 <= a < old_r.len() && #[trigger] old_pos[a] == j;
                        assert(pos[a] == old_pos[a]);
                    } else {
                        assert(pos[old_r.len() as int] == i);
                    }
                }
            }
            i = i + 1;
        }
        proof {
            let s = self.devices@;
            assert forall|a: int|
                0 <= a < r@.len() implies (#[trigger] r@[a]).device_type == device_type
                && self@.dom().contains(r@[a].key) && self@[r@[a].key] == *r@[a] by {
                assert(*r@[a] == s[pos[a]]);
                assert(device_key_fn()(s[pos[a]]) == s[pos[a]].key);
            }
            assert forall|k: DeviceKey|
                self@.dom().contains(k) && self@[k].device_type == device_type implies exists|a: int|
                0 <= a < r@.len() && (#[trigger] r@[a]).key == k by {
                let j = choose|j: int| 0 <= j < s.len() && device_key_fn()(s[j]) == k;
                assert(self@[device_key_fn()(s[j])] == s[j]);
                let a = choose|a: int| 0 <= a < r@.len() && #[trigger] pos[a] == j;
                assert(r@[a].key == k);
            }
            assert forall|a: int, b: int|
                0 <= a < r@.len() && 0 <= b < r@.len() && a != b implies (#[trigger] r@[a]).key
                != (#[trigger] r@[b]).key by {
                assert(*r@[a] == s[pos[a]]);
                assert(*r@[b] == s[pos[b]]);
                if a < b {
                    assert(pos[a] < pos[b]);
                } else {
                    assert(pos[b] < pos[a]);
                }
            }
        }
        r
    }

    /// Stores `info` under its key, replacing any device stored there, and
    /// reports the change events this implies.
    pub fn upsert(&mut self, info: DeviceInfo) -> (r: RecordUpdate)
        requires
            old(self).wf(),
        ensures
            final(self).wf(),
            final(self)@ == old(self)@.insert(info.key, info),
            r == spec_device_update(old(self)@, info),
    {
        proof {
            lemma_keyed_map(self.devices@, device_key_fn());
        }
        let key = info.key;
        match self.position(&key) {
            Some(i) => {
                let existing = &self.devices[i];
                proof {
                    assert(device_key_fn()(self.devices@[i as int]) == key);
                    assert(self@[key] == *existing);
                }
                let volume_changed = !existing.volume.same_levels(&info.volume);
                let mute_changed = existing.muted != info.muted;
                let properties_changed = existing.properties_changed(&info);
                proof {
                    lemma_keyed_map_update(self.devices@, device_key_fn(), i as int, info);
                }
                self.devices.set(i, info);
                RecordUpdate { added: false, volume_changed, mute_changed, properties_changed }
            },
            None => {
                proof {
                    lemma_keyed_map_push(self.devices@, device_key_fn(), info);
                }
                self.devices.push(info);
                RecordUpdate {
                    added: true,
                    volume_changed: false,
                    mute_changed: false,
                    properties_changed: false,
                }
            },
        }
    }

    /// Removes the device stored under `key` and returns it.
    pub fn remove(&mut self, key: &DeviceKey) -> (r: Option<DeviceInfo>)
        requires
            old(self).wf(),
        ensures
            final(self).wf(),
            final(self)@ == old(self)@.remove(*key),
            r == (if old(self)@.dom().contains(*key) {
                Some(old(self)@[*key])
            } else {
                None::<DeviceInfo>
            }),
    {
        proof {
            lemma_keyed_map(self.devices@, device_key_fn());
        }
        match self.position(key) {
            Some(i) => {
                proof {
                    assert(device_key_fn()(self.devices@[i as int]) == *key);
                    lemma_keyed_map_remove(self.devices@, device_key_fn(), i as int);
                }
                let d = self.devices.remove(i);
                Some(d)
            },
            None => {
                assert(old(self)@.remove(*key) =~= old(self)@);
                None
            },
        }
    }
}

/// Whether a stream belongs to the playback group (`recording == false`)
/// or to the record and capture group (`recording == true`).
pub open spec fn in_group(s: StreamInfo, recording: bool) -> bool {
    if recording {
        s.stream_type == StreamType::Record || s.stream_type == StreamType::Capture
    } else {
        s.stream_type == StreamType::Playback
    }
}

fn group_of(s: &StreamInfo, recording: bool) -> (r: bool)
    ensures
        r == in_group(*s, recording),
{
    if recording {
        s.is_recording()
    } else {
        s.stream_type == StreamType::Playback
    }
}

/// Known audio streams, one per stream index.
pub struct StreamStore {
    streams: Vec<StreamInfo>,
}

impl View for StreamStore {
    type V = Map<StreamIndex, StreamInfo>;

    closed spec fn view(&self) -> Map<StreamIndex, StreamInfo> {
        keyed_map(self.streams@, stream_key_fn())
    }
}

impl StreamStore {
    /// No two stored streams share an index.
    pub closed spec fn wf(&self) -> bool {
        keys_unique(self.streams@, stream_key_fn())
    }

    /// An empty store.
    pub fn new() -> (r: Self)
        ensures
            r.wf(),
            r@ == Map::<StreamIndex, StreamInfo>::empty(),
    {
        let r = StreamStore { streams: Vec::new() };
        assert(r@ =~= Map::<StreamIndex, StreamInfo>::empty());
        r
    }

    /// Number of stored streams.
    pub fn len(&self) -> (r: usize)
        requires
            self.wf(),
        ensures
            r == self@.len(),
    {
        proof {
            lemma_keyed_map(self.streams@, stream_key_fn());
        }
        self.streams.len()
    }

    /// All stored streams, each once.
    pub fn entries(&self) -> (r: &[StreamInfo])
        requires
            self.wf(),
        ensures
            keys_unique(r@, stream_key_fn()),
            keyed_map(r@, stream_key_fn()) == self@,
    {
        self.streams.as_slice()
    }

    fn position(&self, key: &StreamIndex) -> (r: Option<usize>)
        requires
            self.wf(),
        ensures
            match r {
                Some(i) => i < self.streams@.len() && self.streams@[i as int].index == *key,
                None => !self@.dom().contains(*key),
            },
    {
        proof {
            lemma_keyed_map(self.streams@, stream_key_fn());
        }
        let mut i: usize = 0;
        while i < self.streams.len()
            invariant
                i <= self.streams@.len(),
                forall|j: int| 0 <= j < i ==> self.streams@[j].index != *key,
            decreases self.streams@.len() - i,
        {
            if self.streams[i].index == *key {
                return Some(i);
            }
            i = i + 1;
        }
        None
    }

    /// The stream stored under `index`, or `StreamNotFound`.
    pub fn stream(&self, index: StreamIndex) -> (r: Result<&StreamInfo, PulseError>)
        requires
            self.wf(),
        ensures
            match r {
                Ok(s) => self@.dom().contains(index) && *s == self@[index],
                Err(e) => !self@.dom().contains(index) && e == PulseError::StreamNotFound(index),
            },
    {
        match self.get(&index) {
            Some(s) => Ok(s),
            None => Err(PulseError::StreamNotFound(index)),
        }
    }

    /// The stream stored under `key`.
    pub fn get(&self, key: &StreamIndex) -> (r: Option<&StreamInfo>)
        requires
            self.wf(),
        ensures
            match r {
                Some(d) => self@.dom().contains(*key) && *d == self@[*key],
                None => !self@.dom().contains(*key),
            },
    {
        proof {
            lemma_keyed_map(self.streams@, stream_key_fn());
        }
        match self.position(key) {
            Some(i) => {
                proof {
                    assert(stream_key_fn()(self.streams@[i as int]) == *key);
                }
                Some(&self.streams[i])
            },
            None => None,
        }
    }

    /// The stored streams of one group (playback, or record and capture), each once.
    pub fn streams_by_group(&self, recording: bool) -> (r: Vec<&StreamInfo>)
        requires
            self.wf(),
        ensures
            forall|i: int|
                0 <= i < r@.len() ==> in_group(*(#[trigger] r@[i]), recording)
                    && self@.dom().contains(r@[i].index) && self@[r@[i].index] == *r@[i],
            forall|k: StreamIndex|
                self@.dom().contains(k) && in_group(self@[k], recording) ==> exists|i: int|
                    0 <= i < r@.len() && (#[trigger] r@[i]).index == k,
            forall|i: int, j: int|
                0 <= i < r@.len() && 0 <= j < r@.len() && i != j ==> (#[trigger] r@[i]).index
                    != (#[trigger] r@[j]).index,
    {
        proof {
            lemma_keyed_map(self.streams@, stream_key_fn());
        }
        let mut r: Vec<&StreamInfo> = Vec::new();
        let mut i: usize = 0;
        let ghost mut pos: Seq<int> = Seq::empty();
        while i < self.streams.len()
            invariant
                self.wf(),
                i <= self.streams@.len(),
                pos.len() == r@.len(),
                forall|a: int|
                    0 <= a < r@.len() ==> 0 <= #[trigger] pos[a] < i && *r@[a]
                        == self.streams@[pos[a]] && in_group(*r@[a], recording),
                forall|a: int, b: int| 0 <= a < b < r@.len() ==> #[trigger] pos[a] < #[trigger] pos[b],
                forall|j: int|
                    0 <= j < i && in_group(self.streams@[j], recording) ==> exists|a: int|
                        0 <= a < r@.len() && #[trigger] pos[a] == j,
            decreases self.streams@.len() - i,
        {
            let ghost old_pos = pos;
            let ghost old_r = r@;
            if group_of(&self.streams[i], recording) {
                r.push(&self.streams[i]);
                proof {
                    pos = pos.push(i as int);
                    assert forall|a: int| 0 <= a < old_r.len() implies r@[a] == old_r[a]
                        && #[trigger] pos[a] == old_pos[a] by {}
                    assert(pos[old_r.len() as int] == i);
                    assert(*r@[old_r.len() as int] == self.streams@[i as int]);
                    assert forall|a: int| 0 <= a < r@.len() implies 0 <= #[trigger] pos[a] < i + 1
                        && *r@[a] == self.streams@[pos[a]] && in_group(*r@[a], recording) by {
                        if a < old_r.len() {
                            assert(r@[a] == old_r[a]);
                            assert(pos[a] == old_pos[a]);
                            assert(0 <= old_pos[a] < i);
                        }
                    }
                }
            }
            proof {
                assert forall|j: int|
                    0 <= j < i + 1 && in_group(self.streams@[j], recording) implies exists|a: int|
                    0 <= a < r@.len() && #[trigger] pos[a] == j by {
                    if j < i {
                        let a = choose|a: int| 0 <= a < old_r.len() && #[trigger] old_pos[a] == j;
                        assert(pos[a] == old_pos[a]);
                    } else {
                        assert(pos[old_r.len() as int] == i);
                    }
                }
            }
            i = i + 1;
        }
        proof {
            let s = self.streams@;
            assert forall|a: int|
                0 <= a < r@.len() implies in_group(*(#[trigger] r@[a]), recording)
                && self@.dom().contains(r@[a].index) && self@[r@[a].index] == *r@[a] by {
                assert(*r@[a] == s[pos[a]]);
                assert(stream_key_fn()(s[pos[a]]) == s[pos[a]].index);
            }
            assert forall|k: StreamIndex|
                self@.dom().contains(k) && in_group(self@[k], recording) implies exists|a: int|
                0 <= a < r@.len() && (#[trigger] r@[a]).index == k by {
                let j = choose|j: int| 0 <= j < s.len() && stream_key_fn()(s[j]) == k;
                assert(self@[stream_key_fn()(s[j])] == s[j]);
                let a = choose|a: int| 0 <= a < r@.len() && #[trigger] pos[a] == j;
                assert(r@[a].index == k);
            }
            assert forall|a: int, b: int|
                0 <= a < r@.len() && 0 <= b < r@.len() && a != b implies (#[trigger] r@[a]).index
                != (#[trigger] r@[b]).index by {
                assert(*r@[a] == s[pos[a]]);
                assert(*r@[b] == s[pos[b]]);
                if a < b {
                    assert(pos[a] < pos[b]);
                } else {
                    assert(pos[b] < pos[a]);
                }
            }
        }
        r
    }

    /// Stores `info` under its index, replacing any stream stored there, and
    /// reports the change events this implies.
    pub fn upsert(&mut self, info: StreamInfo) -> (r: RecordUpdate)
        requires
            old(self).wf(),
        ensures
            final(self).wf(),
            final(self)@ == old(self)@.insert(info.index, info),
            r == spec_stream_update(old(self)@, info),
    {
        proof {
            lemma_keyed_map(self.streams@, stream_key_fn());
        }
        let key = info.index;
        match self.position(&key) {
            Some(i) => {
                let existing = &self.streams[i];
                proof {
                    assert(stream_key_fn()(self.streams@[i as int]) == key);
                    assert(self@[key] == *existing);
                }
                let volume_changed = !existing.volume.same_levels(&info.volume);
                let mute_changed = existing.muted != info.muted;
                let properties_changed = existing.properties_changed(&info);
                proof {
                    lemma_keyed_map_update(self.streams@, stream_key_fn(), i as int, info);
                }
                self.streams.set(i, info);
                RecordUpdate { added: false, volume_changed, mute_changed, properties_changed }
            },
            None => {
                proof {
                    lemma_keyed_map_push(self.streams@, stream_key_fn(), info);
                }
                self.streams.push(info);
                RecordUpdate {
                    added: true,
                    volume_changed: false,
                    mute_changed: false,
                    properties_changed: false,
                }
            },
        }
    }

    /// Removes the stream stored under `key` and returns it.
    pub fn remove(&mut self, key: &StreamIndex) -> (r: Option<StreamInfo>)
        requires
            old(self).wf(),
        ensures
            final(self).wf(),
            final(self)@ == old(self)@.remove(*key),
            r == (if old(self)@.dom().contains(*key) {
                Some(old(self)@[*key])
            } else {
                None::<StreamInfo>
            }),
    {
        proof {
            lemma_keyed_map(self.streams@, stream_key_fn());
        }
        match self.position(key) {
            Some(i) => {
                proof {
                    assert(stream_key_fn()(self.streams@[i as int]) == *key);
                    lemma_keyed_map_remove(self.streams@, stream_key_fn(), i as int);
                }
                let d = self.streams.remove(i);
                Some(d)
            },
            None => {
                assert(old(self)@.remove(*key) =~= old(self)@);
                None
            },
        }
    }
}

/// The update that reports no event.
pub open spec fn no_update() -> RecordUpdate {
    RecordUpdate {
        added: false,
        volume_changed: false,
        mute_changed: false,
        properties_changed: false,
    }
}

/// Refreshing a device with the very record the store already holds for it
/// leaves the store as it is and reports no event.
pub proof fn law_device_refresh_is_idempotent(m: Map<DeviceKey, DeviceInfo>, info: DeviceInfo)
    ensures
        m.insert(info.key, info).insert(info.key, info) == m.insert(info.key, info),
        spec_device_update(m.insert(info.key, info), info) == no_update(),
{
    assert(m.insert(info.key, info).insert(info.key, info) =~= m.insert(info.key, info));
    assert forall|i: int| 0 <= i < info.ports@.len() implies same_port(
        #[trigger] info.ports@[i],
        info.ports@[i],
    ) by {}
}

/// A refresh reports a device as added exactly when the store did not know
/// its key, and then reports nothing else; a known device is never
/// reported as added.
pub proof fn law_device_added_iff_unknown(m: Map<DeviceKey, DeviceInfo>, info: DeviceInfo)
    ensures
        spec_device_update(m, info).added == !m.dom().contains(info.key),
        spec_device_update(m, info).added ==> !spec_device_update(m, info).volume_changed
            && !spec_device_update(m, info).mute_changed
            && !spec_device_update(m, info).properties_changed,
{
}

/// Refreshing one device leaves every other device as it was, and reading
/// the refreshed key gives back the record written.
pub proof fn law_device_refresh_is_local(
    m: Map<DeviceKey, DeviceInfo>,
    info: DeviceInfo,
    other: DeviceKey,
)
    ensures
        m.insert(info.key, info).dom().contains(info.key),
        m.insert(info.key, info)[info.key] == info,
        other != info.key ==> (m.insert(info.key, info).dom().contains(other) == m.dom().contains(
            other,
        ) && m.insert(info.key, info)[other] == m[other]),
{
}

/// Removing a device that a refresh had just added restores the store.
pub proof fn law_device_add_then_remove(m: Map<DeviceKey, DeviceInfo>, info: DeviceInfo)
    requires
        !m.dom().contains(info.key),
    ensures
        m.insert(info.key, info).remove(info.key) == m,
{
    assert(m.insert(info.key, info).remove(info.key) =~= m);
}

/// Refreshing a stream with the very record the store already holds for it
/// leaves the store as it is and reports no event.
pub proof fn law_stream_refresh_is_idempotent(m: Map<StreamIndex, StreamInfo>, info: StreamInfo)
    ensures
        m.insert(info.index, info).insert(info.index, info) == m.insert(info.index, info),
        spec_stream_update(m.insert(info.index, info), info) == no_update(),
{
    assert(m.insert(info.index, info).insert(info.index, info) =~= m.insert(info.index, info));
}

/// A refresh reports a stream as added exactly when the store did not know
/// its index, and then reports nothing else.
pub proof fn law_stream_added_iff_unknown(m: Map<StreamIndex, StreamInfo>, info: StreamInfo)
    ensures
        spec_stream_update(m, info).added == !m.dom().contains(info.index),
        spec_stream_update(m, info).added ==> !spec_stream_update(m, info).volume_changed
            && !spec_stream_update(m, info).mute_changed
            && !spec_stream_update(m, info).properties_changed,
{
}

/// Removing a stream that a refresh had just added restores the store.
pub proof fn law_stream_add_then_remove(m: Map<StreamIndex, StreamInfo>, info: StreamInfo)
    requires
        !m.dom().contains(info.index),
    ensures
        m.insert(info.index, info).remove(info.index) == m,
{
    assert(m.insert(info.index, info).remove(info.index) =~= m);
}

/// Refreshing a known device whose port at some position changed any of
/// its fields (a port becoming available when headphones are plugged in,
/// for instance) reports a property change.
pub proof fn law_port_change_is_reported(
    m: Map<DeviceKey, DeviceInfo>,
    info: DeviceInfo,
    i: int,
)
    requires
        m.dom().contains(info.key),
        0 <= i < info.ports@.len(),
        i < m[info.key].ports@.len(),
        m[info.key].ports@[i].name@ != info.ports@[i].name@
            || m[info.key].ports@[i].description@ != info.ports@[i].description@
            || m[info.key].ports@[i].priority != info.ports@[i].priority
            || m[info.key].ports@[i].available != info.ports@[i].available,
    ensures
        spec_device_update(m, info).properties_changed,
        !spec_device_update(m, info).added,
{
    let old = m[info.key];
    if old.same_properties(&info) {
        assert(same_port(old.ports@[i], info.ports@[i]));
    }
}

} // verus!
