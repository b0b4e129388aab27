//! Choosing the network device a service is built on.
//!
//! The search walks NetworkManager's devices in order. Without a preference
//! for active devices it takes the first device of the wanted type. With
//! the preference it takes the first such device that has an active
//! connection, and otherwise the last such device seen.

use vstd::prelude::*;

use crate::text::str_eq;

verus! {

/// NetworkManager's type code for Ethernet devices.
pub const NM_DEVICE_TYPE_ETHERNET: u32 = 1;

/// NetworkManager's type code for Wi-Fi devices.
pub const NM_DEVICE_TYPE_WIFI: u32 = 2;

/// What the search knows of one device.
#[derive(Debug, Clone)]
pub struct DeviceCandidate {
    /// D-Bus object path of the device
    pub path: String,
    /// NetworkManager device type code
    pub device_type: u32,
    /// Object path of the device's active connection ("/" for none)
    pub active_connection: String,
}

/// The device the search chooses from `devices`, given the fallback chosen
/// so far.
pub open spec fn spec_find(
    devices: Seq<DeviceCandidate>,
    target_type: u32,
    prefer_active: bool,
    fallback: Option<Seq<char>>,
) -> Option<Seq<char>>
    decreases devices.len(),
{
    if devices.len() == 0 {
        fallback
    } else {
        let d = devices[0];
        let rest = devices.drop_first();
        if d.device_type != target_type {
            spec_find(rest, target_type, prefer_active, fallback)
        } else if !prefer_active {
            Some(d.path@)
        } else if d.active_connection@ != "/"@ {
            Some(d.path@)
        } else {
            spec_find(rest, target_type, prefer_active, Some(d.path@))
        }
    }
}

/// A device search in progress.
pub struct DeviceSearch {
    target_type: u32,
    prefer_active: bool,
    fallback: Option<String>,
}

impl DeviceSearch {
    /// The device type searched for.
    pub closed spec fn target(&self) -> u32 {
        self.target_type
    }

    /// Whether devices with an active connection are preferred.
    pub closed spec fn prefers_active(&self) -> bool {
        self.prefer_active
    }

    /// The device chosen if no better one turns up.
    pub closed spec fn fallback(&self) -> Option<Seq<char>> {
        match self.fallback {
            Some(p) => Some(p@),
            None => None,
        }
    }

    /// A search with nothing seen yet.
    pub fn new(target_type: u32, prefer_active: bool) -> (r: Self)
        ensures
            r.target() == target_type,
            r.prefers_active() == prefer_active,
            r.fallback().is_none(),
    {
        DeviceSearch { target_type, prefer_active, fallback: None }
    }

    /// Whether a device of this type is a candidate.
    pub fn wants(&self, device_type: u32) -> (r: bool)
        ensures
            r == (device_type == self.target()),
    {
        device_type == self.target_type
    }

    /// Whether a candidate's active connection must be looked up.
    pub fn needs_active_connection(&self) -> (r: bool)
        ensures
            r == self.prefers_active(),
    {
        self.prefer_active
    }

    /// Takes in a candidate of the wanted type. Returns the device if the
    /// search ends with it; otherwise keeps it as the fallback.
    /// `active_connection` is only read when active devices are preferred.
    pub fn accept(&mut self, path: String, active_connection: &str) -> (r: Option<String>)
        ensures
            final(self).target() == old(self).target(),
            final(self).prefers_active() == old(self).prefers_active(),
            if !old(self).prefers_active() || active_connection@ != "/"@ {
                r matches Some(p) && p@ == path@ && final(self).fallback() == old(self).fallback()
            } else {
                r.is_none() && final(self).fallback() == Some(path@)
            },
    {
        if !self.prefer_active {
            return Some(path);
        }
        if !str_eq(active_connection, "/") {
            return Some(path);
        }
        self.fallback = Some(path);
        None
    }

    /// The device chosen when every device has been seen.
    pub fn finish(self) -> (r: Option<String>)
        ensures
            match r {
                Some(p) => self.fallback() == Some(p@),
                None => self.fallback().is_none(),
            },
    {
        self.fallback
    }
}

/// Chooses among known devices the way the search does.
pub fn find_device_path(devices: &[DeviceCandidate], target_type: u32, prefer_active: bool) -> (r:
    Option<String>)
    ensures
        match spec_find(devices@, target_type, prefer_active, None) {
            Some(p) => r matches Some(s) && s@ == p,
            None => r.is_none(),
        },
{
    let mut search = DeviceSearch::new(target_type, prefer_active);
    let mut i: usize = 0;
    assert(devices@.skip(0) =~= devices@);
    while i < devices.len()
        invariant
            i <= devices@.len(),
            search.target() == target_type,
            search.prefers_active() == prefer_active,
            spec_find(devices@, target_type, prefer_active, None) == spec_find(
                devices@.skip(i as int),
                target_type,
                prefer_active,
                search.fallback(),
            ),
        decreases devices@.len() - i,
    {
        let d = &devices[i];
        proof {
            assert(devices@.skip(i as int)[0] == devices@[i as int]);
            assert(devices@.skip(i as int).drop_first() =~= devices@.skip(i as int + 1));
        }
        if search.wants(d.device_type) {
            let found = search.accept(d.path.clone(), d.active_connection.as_str());
            if found.is_some() {
                return found;
            }
        }
        i = i + 1;
    }
    search.finish()
}

/// Without a preference for active devices, the search chooses the first
/// device of the wanted type, and nothing when there is none.
pub proof fn law_first_device_of_type(devices: Seq<DeviceCandidate>, target_type: u32)
    ensures
        match spec_find(devices, target_type, false, None) {
            Some(p) => exists|i: int|
                0 <= i < devices.len() && #[trigger] devices[i].device_type == target_type
                    && devices[i].path@ == p && forall|j: int|
                    0 <= j < i ==> devices[j].device_type != target_type,
            None => forall|i: int| 0 <= i < devices.len() ==> #[trigger] devices[i].device_type
                != target_type,
        },
    decreases devices.len(),
{
    if devices.len() > 0 {
        let rest = devices.drop_first();
        law_first_device_of_type(rest, target_type);
        if devices[0].device_type != target_type {
            match spec_find(rest, target_type, false, None) {
                Some(p) => {
                    let i = choose|i: int|
                        0 <= i < rest.len() && #[trigger] rest[i].device_type == target_type
                            && rest[i].path@ == p && forall|j: int|
                            0 <= j < i ==> rest[j].device_type != target_type;
                    assert(devices[i + 1] == rest[i]);
                    assert forall|j: int| 0 <= j < i + 1 implies devices[j].device_type
                        != target_type by {
                        if j > 0 {
                            assert(devices[j] == rest[j - 1]);
                        }
                    }
                },
                None => {
                    assert forall|i: int| 0 <= i < devices.len() implies #[trigger] devices[i].device_type
                        != target_type by {
                        if i > 0 {
                            assert(devices[i] == rest[i - 1]);
                        }
                    }
                },
            }
        }
    }
}

/// With a preference for active devices, a device of the wanted type that
/// has an active connection is chosen over all later ones.
pub proof fn law_active_device_wins(devices: Seq<DeviceCandidate>, target_type: u32, fallback: Option<Seq<char>>)
    requires
        devices.len() > 0,
        devices[0].device_type == target_type,
        devices[0].active_connection@ != "/"@,
    ensures
        spec_find(devices, target_type, true, fallback) == Some(devices[0].path@),
{
}

} // verus!
