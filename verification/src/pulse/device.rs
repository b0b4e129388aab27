//! Audio devices: identifiers, ports and the device description that the
//! stores keep.

use vstd::prelude::*;

use crate::pulse::volume::VolumeLevels;

verus! {

/// Device index identifier
#[derive(Debug, Clone, Copy, PartialEq, Eq, Hash, Structural)]
pub struct DeviceIndex(pub u32);

/// Device type enumeration
#[derive(Debug, Clone, Copy, PartialEq, Eq, Hash, Structural)]
pub enum DeviceType {
    /// Audio input device (microphone, line-in)
    Input,
    /// Audio output device (speakers, headphones)
    Output,
}

/// Device state enumeration
#[derive(Debug, Clone, Copy, PartialEq, Eq, Hash, Structural)]
pub enum DeviceState {
    /// Device is running and available
    Running,
    /// Device is idle
    Idle,
    /// Device is suspended
    Suspended,
    /// Device is offline or unavailable
    Offline,
}

/// Device name wrapper for type safety
#[derive(Debug, Clone, PartialEq, Eq, Hash)]
pub struct DeviceName(String);

impl View for DeviceName {
    type V = Seq<char>;

    closed spec fn view(&self) -> Seq<char> {
        self.0@
    }
}

impl DeviceName {
    /// Create a new device name
    pub fn new(name: String) -> (r: Self)
        ensures
            r@ == name@,
    {
        DeviceName(name)
    }

    /// Get device name as string slice
    pub fn as_str(&self) -> (r: &str)
        ensures
            r@ == self@,
    {
        self.0.as_str()
    }

    /// The name as an owned string (its display form).
    pub fn to_string(&self) -> (r: String)
        ensures
            r@ == self@,
    {
        self.0.clone()
    }
}

/// Device port information
#[derive(Debug, Clone, PartialEq)]
pub struct DevicePort {
    /// Port name
    pub name: String,
    /// Port description
    pub description: String,
    /// Port priority
    pub priority: u32,
    /// Port availability
    pub available: bool,
}

/// Two ports describe the same port (all fields equal).
pub open spec fn same_port(a: DevicePort, b: DevicePort) -> bool {
    &&& a.name@ == b.name@
    &&& a.description@ == b.description@
    &&& a.priority == b.priority
    &&& a.available == b.available
}

/// Two port lists are equal element by element.
pub open spec fn same_ports(a: Seq<DevicePort>, b: Seq<DevicePort>) -> bool {
    &&& a.len() == b.len()
    &&& forall|i: int| 0 <= i < a.len() ==> same_port(#[trigger] a[i], b[i])
}

/// Two optional strings are equal.
pub open spec fn same_opt_text(a: Option<String>, b: Option<String>) -> bool {
    match (a, b) {
        (None, None) => true,
        (Some(x), Some(y)) => x@ == y@,
        _ => false,
    }
}

/// Whether two optional strings hold the same text.
pub fn opt_string_eq(a: &Option<String>, b: &Option<String>) -> (r: bool)
    ensures
        r == same_opt_text(*a, *b),
{
    match (a, b) {
        (None, None) => true,
        (Some(x), Some(y)) => x.eq(y),
        _ => false,
    }
}

/// Whether two port lists are equal element by element.
pub fn ports_eq(a: &Vec<DevicePort>, b: &Vec<DevicePort>) -> (r: bool)
    ensures
        r == same_ports(a@, b@),
{
    let n = a.len();
    if n != b.len() {
        return false;
    }
    let mut i: usize = 0;
    while i < n
        invariant
            n == a@.len(),
            n == b@.len(),
            i <= n,
            forall|j: int| 0 <= j < i ==> same_port(#[trigger] a@[j], b@[j]),
        decreases n - i,
    {
        let x = &a[i];
        let y = &b[i];
        if !(x.name == y.name && x.description == y.description && x.priority == y.priority
            && x.available == y.available) {
            return false;
        }
        i = i + 1;
    }
    true
}

/// Device key for unique identification
#[derive(Debug, Clone, Copy, PartialEq, Eq, Hash, Structural)]
pub struct DeviceKey {
    /// Device index
    pub index: u32,
    /// Device type
    pub device_type: DeviceType,
}

impl DeviceKey {
    /// Create a new device key
    pub fn new(index: u32, device_type: DeviceType) -> (r: Self)
        ensures
            r.index == index,
            r.device_type == device_type,
    {
        DeviceKey { index, device_type }
    }
}

/// Complete device information
#[derive(Debug, Clone, PartialEq)]
pub struct DeviceInfo {
    /// Device index
    pub index: DeviceIndex,
    /// Device type
    pub device_type: DeviceType,
    /// Device name
    pub name: DeviceName,
    /// Human-readable description
    pub description: String,
    /// Device state
    pub state: DeviceState,
    /// Whether device is muted
    pub muted: bool,
    /// Device volume
    pub volume: VolumeLevels,
    /// Available ports
    pub ports: Vec<DevicePort>,
    /// Currently active port
    pub active_port: Option<String>,
    /// Unique device key
    pub key: DeviceKey,
}

impl DeviceInfo {
    /// The key agrees with the index and type, and the volume is in range.
    pub open spec fn wf(&self) -> bool {
        &&& self.key.index == self.index.0
        &&& self.key.device_type == self.device_type
        &&& self.volume.wf()
    }

    /// The properties compared for a `DeviceChanged` event are all equal:
    /// name, description, state, active port and ports.
    pub open spec fn same_properties(&self, other: &DeviceInfo) -> bool {
        &&& self.name@ == other.name@
        &&& self.description@ == other.description@
        &&& self.state == other.state
        &&& same_opt_text(self.active_port, other.active_port)
        &&& same_ports(self.ports@, other.ports@)
    }

    /// Create a new device info
    #[allow(clippy::too_many_arguments)]
    pub fn new(
        index: u32,
        device_type: DeviceType,
        name: DeviceName,
        description: String,
        state: DeviceState,
        muted: bool,
        volume: VolumeLevels,
        ports: Vec<DevicePort>,
        active_port: Option<String>,
    ) -> (r: Self)
        ensures
            r.index == DeviceIndex(index),
            r.device_type == device_type,
            r.name == name,
            r.description == description,
            r.state == state,
            r.muted == muted,
            r.volume == volume,
            r.ports == ports,
            r.active_port == active_port,
            r.key == (DeviceKey { index, device_type }),
            volume.wf() ==> r.wf(),
    {
        let index = DeviceIndex(index);
        let key = DeviceKey::new(index.0, device_type);
        DeviceInfo {
            index,
            device_type,
            name,
            description,
            state,
            muted,
            volume,
            ports,
            active_port,
            key,
        }
    }

    /// Check if device properties have changed, excluding volume and mute state
    ///
    /// Compares non-audio properties that would trigger a DeviceChanged event.
    /// Volume and mute changes are handled separately via specific events.
    pub fn properties_changed(&self, other: &DeviceInfo) -> (r: bool)
        ensures
            r == !self.same_properties(other),
    {
        let same_name = str_eq_string(&self.name, &other.name);
        !(same_name && self.description == other.description && self.state == other.state
            && opt_string_eq(&self.active_port, &other.active_port) && ports_eq(
            &self.ports,
            &other.ports,
        ))
    }
}

fn str_eq_string(a: &DeviceName, b: &DeviceName) -> (r: bool)
    ensures
        r == (a@ == b@),
{
    a.0 == b.0
}

/// The device with another volume and mute state.
pub open spec fn with_audio(d: DeviceInfo, volume: VolumeLevels, muted: bool) -> DeviceInfo {
    DeviceInfo { volume, muted, ..d }
}

/// Volume and mute state are not properties: a device that differs from
/// another only in volume and mute state has the same properties.
pub proof fn law_volume_and_mute_are_not_properties(d: DeviceInfo, volume: VolumeLevels, muted: bool)
    ensures
        d.same_properties(&with_audio(d, volume, muted)),
        with_audio(d, volume, muted).same_properties(&d),
{
    assert forall|i: int| 0 <= i < d.ports@.len() implies same_port(
        #[trigger] d.ports@[i],
        d.ports@[i],
    ) by {}
}

/// Having the same properties is symmetric.
pub proof fn law_same_properties_symmetric(a: DeviceInfo, b: DeviceInfo)
    ensures
        a.same_properties(&b) == b.same_properties(&a),
{
    if a.same_properties(&b) {
        assert forall|i: int| 0 <= i < b.ports@.len() implies same_port(
            #[trigger] b.ports@[i],
            a.ports@[i],
        ) by {
            assert(same_port(a.ports@[i], b.ports@[i]));
        }
    }
    if b.same_properties(&a) {
        assert forall|i: int| 0 <= i < a.ports@.len() implies same_port(
            #[trigger] a.ports@[i],
            b.ports@[i],
        ) by {
            assert(same_port(b.ports@[i], a.ports@[i]));
        }
    }
}

/// Ports are properties, field by field: two devices with the same
/// properties have port lists of one length whose ports agree in name,
/// description, priority and availability.
pub proof fn law_ports_are_compared_field_by_field(a: DeviceInfo, b: DeviceInfo)
    ensures
        a.same_properties(&b) ==> a.ports@.len() == b.ports@.len(),
        forall|i: int|
            #![trigger a.ports@[i], b.ports@[i]]
            a.same_properties(&b) && 0 <= i < a.ports@.len() ==> {
                &&& a.ports@[i].name@ == b.ports@[i].name@
                &&& a.ports@[i].description@ == b.ports@[i].description@
                &&& a.ports@[i].priority == b.ports@[i].priority
                &&& a.ports@[i].available == b.ports@[i].available
            },
{
    assert forall|i: int|
        #![trigger a.ports@[i], b.ports@[i]]
        a.same_properties(&b) && 0 <= i < a.ports@.len() implies {
        &&& a.ports@[i].name@ == b.ports@[i].name@
        &&& a.ports@[i].description@ == b.ports@[i].description@
        &&& a.ports@[i].priority == b.ports@[i].priority
        &&& a.ports@[i].available == b.ports@[i].available
    } by {
        assert(same_port(a.ports@[i], b.ports@[i]));
    }
}

} // verus!
