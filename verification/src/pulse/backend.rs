//! The PulseAudio backend's decisions.
//!
//! The backend reacts to subscription events and to user commands. The
//! functions here decide, from the event or command and the stores, what
//! changes in the stores, which events and refreshes follow, and which
//! PulseAudio operation to perform; performing it is left to the caller.

use vstd::prelude::*;

use crate::pulse::device::{DeviceIndex, DeviceInfo, DeviceKey, DeviceType};
use crate::pulse::store::{DeviceStore, StreamStore};
use crate::pulse::stream::{StreamIndex, StreamInfo, StreamType};

verus! {

/// PulseAudio backend implementation
pub struct PulseBackend;

/// The object class a subscription event is about.
#[derive(Debug, Clone, Copy, PartialEq, Eq, Structural)]
pub enum Facility {
    /// A sink (output device)
    Sink,
    /// A source (input device)
    Source,
    /// A sink input (playback stream)
    SinkInput,
    /// A source output (recording stream)
    SourceOutput,
    /// A loaded module
    Module,
    /// A client connection
    Client,
    /// A sample cache entry
    SampleCache,
    /// The server itself
    Server,
    /// A sound card
    Card,
}

/// What happened to the object of a subscription event.
#[derive(Debug, Clone, Copy, PartialEq, Eq, Structural)]
pub enum Operation {
    /// The object was created
    New,
    /// The object changed
    Changed,
    /// The object was removed
    Removed,
}

/// Change notifications from PulseAudio subscription
#[derive(Debug, Clone, Copy, PartialEq, Eq, Structural)]
pub enum ChangeNotification {
    /// Device-related change notification
    Device {
        /// PulseAudio facility type
        facility: Facility,
        /// Operation performed on the device
        operation: Operation,
        /// Device index
        index: u32,
    },
    /// Stream-related change notification
    Stream {
        /// PulseAudio facility type
        facility: Facility,
        /// Operation performed on the stream
        operation: Operation,
        /// Stream index
        index: u32,
    },
    /// Server-related change notification
    Server {
        /// PulseAudio facility type
        facility: Facility,
        /// Operation performed on the server
        operation: Operation,
        /// Server index
        index: u32,
    },
}

/// What handling one change notification leads to.
#[derive(Debug)]
pub struct NotificationOutcome {
    /// A device that was removed from the store (a `DeviceRemoved` event).
    pub removed_device: Option<DeviceInfo>,
    /// A stream that was removed from the store (a `StreamRemoved` event).
    pub removed_stream: Option<StreamInfo>,
    /// A refresh to request.
    pub command: Option<PulseCommand>,
    /// Whether to broadcast the device list.
    pub broadcast_devices: bool,
    /// Whether to broadcast the stream list.
    pub broadcast_streams: bool,
}

/// The device type a facility's objects have, if they are devices.
pub open spec fn device_type_of(facility: Facility) -> Option<DeviceType> {
    match facility {
        Facility::Sink => Some(DeviceType::Output),
        Facility::Source => Some(DeviceType::Input),
        _ => None,
    }
}

/// The stream type a facility's objects have, if they are streams.
pub open spec fn stream_type_of(facility: Facility) -> Option<StreamType> {
    match facility {
        Facility::SinkInput => Some(StreamType::Playback),
        Facility::SourceOutput => Some(StreamType::Record),
        _ => None,
    }
}

/// The notification a subscription callback forwards, if any.
pub open spec fn spec_notification(
    facility: Option<Facility>,
    operation: Option<Operation>,
    index: u32,
) -> Option<ChangeNotification> {
    match (facility, operation) {
        (Some(f), Some(op)) => match f {
            Facility::Sink | Facility::Source => Some(
                ChangeNotification::Device { facility: f, operation: op, index },
            ),
            Facility::SinkInput | Facility::SourceOutput => Some(
                ChangeNotification::Stream { facility: f, operation: op, index },
            ),
            Facility::Server => Some(
                ChangeNotification::Server { facility: f, operation: op, index },
            ),
            _ => None,
        },
        _ => None,
    }
}

/// Subscription events are routed by what their facility is about: sink and
/// source events become device notifications, sink input and source output
/// events stream notifications, server events server notifications, each
/// carrying the event's facility, operation and index; events about other
/// facilities, or without facility or operation, are dropped.
pub proof fn law_notification_routing(facility: Facility, operation: Operation, index: u32)
    ensures
        (facility == Facility::Sink || facility == Facility::Source) ==> spec_notification(
            Some(facility),
            Some(operation),
            index,
        ) == Some(ChangeNotification::Device { facility, operation, index }),
        (facility == Facility::SinkInput || facility == Facility::SourceOutput)
            ==> spec_notification(Some(facility), Some(operation), index) == Some(
            ChangeNotification::Stream { facility, operation, index },
        ),
        facility == Facility::Server ==> spec_notification(Some(facility), Some(operation), index)
            == Some(ChangeNotification::Server { facility, operation, index }),
        (facility == Facility::Module || facility == Facility::Client || facility
            == Facility::SampleCache || facility == Facility::Card) ==> spec_notification(
            Some(facility),
            Some(operation),
            index,
        ) is None,
        spec_notification(None, Some(operation), index) is None,
        spec_notification(Some(facility), None, index) is None,
        (spec_notification(Some(facility), Some(operation), index) matches Some(
            ChangeNotification::Device { .. },
        )) <==> device_type_of(facility) is Some,
        (spec_notification(Some(facility), Some(operation), index) matches Some(
            ChangeNotification::Stream { .. },
        )) <==> stream_type_of(facility) is Some,
{
}

fn nothing() -> (r: NotificationOutcome)
    ensures
        r.removed_device.is_none(),
        r.removed_stream.is_none(),
        r.command.is_none(),
        !r.broadcast_devices,
        !r.broadcast_streams,
{
    NotificationOutcome {
        removed_device: None,
        removed_stream: None,
        command: None,
        broadcast_devices: false,
        broadcast_streams: false,
    }
}

impl PulseBackend {
    /// Turns a raw subscription event into a change notification.
    ///
    /// Events without facility or operation, and events about other
    /// facilities than devices, streams and the server, are dropped.
    pub fn change_notification(
        facility: Option<Facility>,
        operation: Option<Operation>,
        index: u32,
    ) -> (r: Option<ChangeNotification>)
        ensures
            r == spec_notification(facility, operation, index),
    {
        match (facility, operation) {
            (Some(f), Some(op)) => match f {
                Facility::Sink | Facility::Source => Some(
                    ChangeNotification::Device { facility: f, operation: op, index },
                ),
                Facility::SinkInput | Facility::SourceOutput => Some(
                    ChangeNotification::Stream { facility: f, operation: op, index },
                ),
                Facility::Server => Some(
                    ChangeNotification::Server { facility: f, operation: op, index },
                ),
                _ => None,
            },
            _ => None,
        }
    }

    /// Handles a device notification: a removed device leaves the store and
    /// is reported; a new or changed device triggers a device refresh. The
    /// device list is broadcast in both cases. Notifications about other
    /// facilities change nothing.
    pub fn handle_device_change(
        facility: Facility,
        operation: Operation,
        index: u32,
        devices: &mut DeviceStore,
    ) -> (r: NotificationOutcome)
        requires
            old(devices).wf(),
        ensures
            final(devices).wf(),
            r.removed_stream.is_none(),
            !r.broadcast_streams,
            match device_type_of(facility) {
                None => final(devices)@ == old(devices)@ && r.removed_device.is_none()
                    && r.command.is_none() && !r.broadcast_devices,
                Some(t) => {
                    let key = DeviceKey { index, device_type: t };
                    &&& r.broadcast_devices
                    &&& if operation == Operation::Removed {
                        &&& final(devices)@ == old(devices)@.remove(key)
                        &&& r.removed_device == (if old(devices)@.dom().contains(key) {
                            Some(old(devices)@[key])
                        } else {
                            None::<DeviceInfo>
                        })
                        &&& r.command.is_none()
                    } else {
                        &&& final(devices)@ == old(devices)@
                        &&& r.removed_device.is_none()
                        &&& r.command == Some(PulseCommand::TriggerDeviceDiscovery)
                    }
                },
            },
    {
        let device_type = match facility {
            Facility::Sink => DeviceType::Output,
            Facility::Source => DeviceType::Input,
            _ => {
                return nothing();
            },
        };
        let key = DeviceKey::new(index, device_type);
        match operation {
            Operation::Removed => {
                let removed = devices.remove(&key);
                NotificationOutcome {
                    removed_device: removed,
                    removed_stream: None,
                    command: None,
                    broadcast_devices: true,
                    broadcast_streams: false,
                }
            },
            Operation::New | Operation::Changed => NotificationOutcome {
                removed_device: None,
                removed_stream: None,
                command: Some(PulseCommand::TriggerDeviceDiscovery),
                broadcast_devices: true,
                broadcast_streams: false,
            },
        }
    }

    /// Handles a stream notification: a removed stream leaves the store and
    /// is reported; a new or changed stream triggers a stream refresh. The
    /// stream list is broadcast in both cases. Notifications about other
    /// facilities change nothing.
    pub fn handle_stream_change(
        facility: Facility,
        operation: Operation,
        index: u32,
        streams: &mut StreamStore,
    ) -> (r: NotificationOutcome)
        requires
            old(streams).wf(),
        ensures
            final(streams).wf(),
            r.removed_device.is_none(),
            !r.broadcast_devices,
            match stream_type_of(facility) {
                None => final(streams)@ == old(streams)@ && r.removed_stream.is_none()
                    && r.command.is_none() && !r.broadcast_streams,
                Some(t) => {
                    let key = StreamIndex(index);
                    &&& r.broadcast_streams
                    &&& if operation == Operation::Removed {
                        &&& final(streams)@ == old(streams)@.remove(key)
                        &&& r.removed_stream == (if old(streams)@.dom().contains(key) {
                            Some(old(streams)@[key])
                        } else {
                            None::<StreamInfo>
                        })
                        &&& r.command.is_none()
                    } else {
                        &&& final(streams)@ == old(streams)@
                        &&& r.removed_stream.is_none()
                        &&& r.command == Some(PulseCommand::TriggerStreamDiscovery)
                    }
                },
            },
    {
        match facility {
            Facility::SinkInput | Facility::SourceOutput => {},
            _ => {
                return nothing();
            },
        }
        let key = StreamIndex(index);
        match operation {
            Operation::Removed => {
                let removed = streams.remove(&key);
                NotificationOutcome {
                    removed_device: None,
                    removed_stream: removed,
                    command: None,
                    broadcast_devices: false,
                    broadcast_streams: true,
                }
            },
            Operation::New | Operation::Changed => NotificationOutcome {
                removed_device: None,
                removed_stream: None,
                command: Some(PulseCommand::TriggerStreamDiscovery),
                broadcast_devices: false,
                broadcast_streams: true,
            },
        }
    }

    /// Handles a server notification: a change triggers a server info
    /// refresh; the device list is broadcast in any case.
    pub fn handle_server_change(operation: Operation) -> (r: NotificationOutcome)
        ensures
            r.removed_device.is_none(),
            r.removed_stream.is_none(),
            r.broadcast_devices,
            !r.broadcast_streams,
            r.command == (if operation == Operation::Changed {
                Some(PulseCommand::TriggerServerInfoQuery)
            } else {
                None::<PulseCommand>
            }),
    {
        let command = match operation {
            Operation::Changed => Some(PulseCommand::TriggerServerInfoQuery),
            _ => None,
        };
        NotificationOutcome {
            removed_device: None,
            removed_stream: None,
            command,
            broadcast_devices: true,
            broadcast_streams: false,
        }
    }

    /// Process change notifications from PulseAudio
    pub fn process_change_notification(
        notification: ChangeNotification,
        devices: &mut DeviceStore,
        streams: &mut StreamStore,
    ) -> (r: NotificationOutcome)
        requires
            old(devices).wf(),
            old(streams).wf(),
        ensures
            final(devices).wf(),
            final(streams).wf(),
            match notification {
                ChangeNotification::Device { .. } => {
                    &&& final(streams)@ == old(streams)@
                    &&& r.removed_stream.is_none()
                    &&& !r.broadcast_streams
                },
                ChangeNotification::Stream { .. } => {
                    &&& final(devices)@ == old(devices)@
                    &&& r.removed_device.is_none()
                    &&& !r.broadcast_devices
                },
                ChangeNotification::Server { operation, .. } => {
                    &&& final(devices)@ == old(devices)@
                    &&& final(streams)@ == old(streams)@
                    &&& r.removed_device.is_none()
                    &&& r.removed_stream.is_none()
                    &&& !r.broadcast_streams
                    &&& r.broadcast_devices
                    &&& r.command == (if operation == Operation::Changed {
                        Some(PulseCommand::TriggerServerInfoQuery)
                    } else {
                        None::<PulseCommand>
                    })
                },
            },
            match notification {
                ChangeNotification::Device { facility, operation, index } => match device_type_of(
                    facility,
                ) {
                    None => final(devices)@ == old(devices)@ && r.command.is_none()
                        && r.removed_device.is_none() && !r.broadcast_devices,
                    Some(t) => {
                        let key = DeviceKey { index, device_type: t };
                        &&& r.broadcast_devices
                        &&& operation == Operation::Removed ==> final(devices)@ == old(
                            devices,
                        )@.remove(key) && r.removed_device == (if old(devices)@.dom().contains(
                            key,
                        ) {
                            Some(old(devices)@[key])
                        } else {
                            None::<DeviceInfo>
                        })
                        &&& operation != Operation::Removed ==> final(devices)@ == old(devices)@
                            && r.command == Some(PulseCommand::TriggerDeviceDiscovery)
                    },
                },
                ChangeNotification::Stream { facility, operation, index } => match stream_type_of(
                    facility,
                ) {
                    None => final(streams)@ == old(streams)@ && r.command.is_none()
                        && r.removed_stream.is_none() && !r.broadcast_streams,
                    Some(t) => {
                        let key = StreamIndex(index);
                        &&& r.broadcast_streams
                        &&& operation == Operation::Removed ==> final(streams)@ == old(
                            streams,
                        )@.remove(key) && r.removed_stream == (if old(streams)@.dom().contains(
                            key,
                        ) {
                            Some(old(streams)@[key])
                        } else {
                            None::<StreamInfo>
                        })
                        &&& operation != Operation::Removed ==> final(streams)@ == old(streams)@
                            && r.command == Some(PulseCommand::TriggerStreamDiscovery)
                    },
                },
                ChangeNotification::Server { .. } => true,
            },
    {
        match notification {
            ChangeNotification::Device { facility, operation, index } => {
                Self::handle_device_change(facility, operation, index, devices)
            },
            ChangeNotification::Stream { facility, operation, index } => {
                Self::handle_stream_change(facility, operation, index, streams)
            },
            ChangeNotification::Server { operation, .. } => Self::handle_server_change(operation),
        }
    }
}

/// PulseAudio commands for backend communication
#[derive(Debug, Clone, PartialEq, Eq)]
pub enum PulseCommand {
    /// Trigger device discovery refresh
    TriggerDeviceDiscovery,
    /// Trigger stream discovery refresh
    TriggerStreamDiscovery,
    /// Trigger server info query for default device detection
    TriggerServerInfoQuery,
    /// Set device volume
    SetDeviceVolume {
        /// Target device
        device: DeviceIndex,
        /// New channel volumes, in PulseAudio units
        volume: Vec<u32>,
    },
    /// Set device mute state
    SetDeviceMute {
        /// Target device
        device: DeviceIndex,
        /// Mute state
        muted: bool,
    },
    /// Set default input device
    SetDefaultInput {
        /// Target device
        device: DeviceIndex,
    },
    /// Set default output device
    SetDefaultOutput {
        /// Target device
        device: DeviceIndex,
    },
    /// Set stream volume
    SetStreamVolume {
        /// Target stream
        stream: StreamIndex,
        /// New channel volumes, in PulseAudio units
        volume: Vec<u32>,
    },
    /// Set stream mute state
    SetStreamMute {
        /// Target stream
        stream: StreamIndex,
        /// Mute state
        muted: bool,
    },
    /// Move stream to different device
    MoveStream {
        /// Target stream
        stream: StreamIndex,
        /// Destination device
        device: DeviceIndex,
    },
    /// Shutdown backend
    Shutdown,
}

/// A PulseAudio operation to perform.
#[derive(Debug, Clone, PartialEq, Eq)]
pub enum PulseAction {
    /// Read the sink and source lists again
    DiscoverDevices,
    /// Read the sink input and source output lists again
    DiscoverStreams,
    /// Read the server information (default devices) again
    QueryServerInfo,
    /// Set every channel of a sink to one level
    SetSinkVolume { index: u32, channels: u8, level: u32 },
    /// Set every channel of a source to one level
    SetSourceVolume { index: u32, channels: u8, level: u32 },
    /// Mute or unmute a sink
    SetSinkMute { index: u32, muted: bool },
    /// Mute or unmute a source
    SetSourceMute { index: u32, muted: bool },
    /// Make the named source the default input
    SetDefaultSource { name: String },
    /// Make the named sink the default output
    SetDefaultSink { name: String },
    /// Set the channel volumes of a sink input
    SetSinkInputVolume { index: u32, volume: Vec<u32> },
    /// Set the channel volumes of a source output
    SetSourceOutputVolume { index: u32, volume: Vec<u32> },
    /// Mute or unmute a sink input
    SetSinkInputMute { index: u32, muted: bool },
    /// Mute or unmute a source output
    SetSourceOutputMute { index: u32, muted: bool },
    /// Move a sink input to another sink
    MoveSinkInput { index: u32, device: u32 },
    /// Move a source output to another source
    MoveSourceOutput { index: u32, device: u32 },
}

/// Sum of the channel levels.
pub open spec fn level_sum(s: Seq<u32>) -> nat
    decreases s.len(),
{
    if s.len() == 0 {
        0
    } else {
        level_sum(s.drop_last()) + s.last() as nat
    }
}

/// Highest level PulseAudio accepts for a channel.
pub open spec fn pulse_volume_limit() -> u32 {
    0x7fff_ffff
}

/// PulseAudio's validity test for channel volumes: 1 to 32 channels, each
/// at most the highest accepted level.
pub open spec fn channel_volumes_valid(s: Seq<u32>) -> bool {
    &&& 1 <= s.len() <= 32
    &&& forall|i: int| 0 <= i < s.len() ==> s[i] <= pulse_volume_limit()
}

/// PulseAudio's average of channel volumes: the rounded-down mean of valid
/// volumes, and 0 (muted) for invalid ones.
pub open spec fn channel_volumes_average(s: Seq<u32>) -> u32 {
    if channel_volumes_valid(s) {
        (level_sum(s) / s.len()) as u32
    } else {
        0
    }
}

proof fn lemma_level_sum_bound(s: Seq<u32>)
    ensures
        level_sum(s) <= s.len() * 0xffff_ffff,
    decreases s.len(),
{
    if s.len() > 0 {
        lemma_level_sum_bound(s.drop_last());
    }
}

proof fn lemma_average_fits(s: Seq<u32>)
    requires
        channel_volumes_valid(s),
    ensures
        level_sum(s) / s.len() <= pulse_volume_limit(),
    decreases s.len(),
{
    lemma_level_sum_limited(s);
    let n = s.len();
    let t = level_sum(s);
    assert(t / n <= pulse_volume_limit()) by (nonlinear_arith)
        requires
            t <= n * pulse_volume_limit(),
            n >= 1,
    ;
}

proof fn lemma_level_sum_limited(s: Seq<u32>)
    requires
        forall|i: int| 0 <= i < s.len() ==> s[i] <= pulse_volume_limit(),
    ensures
        level_sum(s) <= s.len() * pulse_volume_limit(),
    decreases s.len(),
{
    if s.len() > 0 {
        lemma_level_sum_limited(s.drop_last());
    }
}

proof fn lemma_level_sum_constant(n: nat, v: u32)
    ensures
        level_sum(Seq::new(n, |i: int| v)) == n * v,
    decreases n,
{
    let s = Seq::new(n, |i: int| v);
    if n == 0 {
        assert(s.len() == 0);
    } else {
        assert(s.drop_last() =~= Seq::new((n - 1) as nat, |i: int| v));
        lemma_level_sum_constant((n - 1) as nat, v);
        assert(s.last() == v);
        assert(level_sum(s) == level_sum(s.drop_last()) + s.last() as nat);
        assert(n * v == (n - 1) * v + v) by (nonlinear_arith);
    }
}

/// The average of valid channel volumes is their rounded-down arithmetic
/// mean: `count * average <= sum < count * (average + 1)`.
pub proof fn law_average_is_mean(volume: Seq<u32>)
    requires
        channel_volumes_valid(volume),
    ensures
        volume.len() * channel_volumes_average(volume) <= level_sum(volume),
        level_sum(volume) < volume.len() * (channel_volumes_average(volume) + 1),
{
    lemma_average_fits(volume);
    let n = volume.len() as int;
    let t = level_sum(volume) as int;
    let a = channel_volumes_average(volume) as int;
    assert(a == t / n);
    assert(n * a <= t && t < n * (a + 1)) by (nonlinear_arith)
        requires
            n >= 1,
            t >= 0,
            a == t / n,
    ;
}

/// When every channel asks for the same level, that level is sent, whatever
/// it is (including levels above 100%).
pub proof fn law_equal_channels_keep_their_level(channels: nat, level: u32)
    requires
        1 <= channels <= 32,
        level <= pulse_volume_limit(),
    ensures
        channel_volumes_average(Seq::new(channels, |i: int| level)) == level,
{
    let s = Seq::new(channels, |i: int| level);
    assert(channel_volumes_valid(s));
    lemma_level_sum_constant(channels, level);
    let n = channels as int;
    let v = level as int;
    assert((n * v) / n == v) by (nonlinear_arith)
        requires
            n >= 1,
    ;
}

/// The average of channel volumes as PulseAudio computes it.
pub fn channel_volumes_avg(volume: &[u32]) -> (r: u32)
    ensures
        r == channel_volumes_average(volume@),
{
    let n = volume.len();
    if n == 0 || n > 32 {
        return 0;
    }
    let mut sum: u64 = 0;
    let mut i: usize = 0;
    while i < n
        invariant
            n == volume@.len(),
            n <= 32,
            i <= n,
            sum == level_sum(volume@.take(i as int)),
            forall|j: int| 0 <= j < i ==> volume@[j] <= pulse_volume_limit(),
        decreases n - i,
    {
        proof {
            lemma_level_sum_bound(volume@.take(i as int));
            assert(volume@.take(i as int + 1).drop_last() =~= volume@.take(i as int));
        }
        let v = volume[i];
        if v > 0x7fff_ffff {
            return 0;
        }
        sum = sum + v as u64;
        i = i + 1;
    }
    proof {
        assert(volume@.take(n as int) =~= volume@);
        lemma_average_fits(volume@);
    }
    (sum / n as u64) as u32
}

/// The action a device volume command leads to for a known device: all of
/// the device's channels set to the average of the requested volumes.
pub open spec fn device_volume_action(d: DeviceInfo, volume: Seq<u32>) -> PulseAction {
    let channels = (d.volume@.len() % 256) as u8;
    let level = channel_volumes_average(volume);
    match d.device_type {
        DeviceType::Output => PulseAction::SetSinkVolume { index: d.index.0, channels, level },
        DeviceType::Input => PulseAction::SetSourceVolume { index: d.index.0, channels, level },
    }
}

/// Whether a stream plays back (it is served by a sink input).
pub open spec fn is_playback(s: StreamInfo) -> bool {
    s.stream_type == StreamType::Playback
}

impl PulseBackend {
    /// Decides the PulseAudio operation for a command.
    ///
    /// Discovery triggers lead to the matching discovery. Commands about devices act on some stored device with the given
    /// index (sink or source according to its type); commands about streams
    /// act on the stored stream (sink input for playback, source output
    /// otherwise). A command whose target is unknown, and `Shutdown`, lead
    /// to no operation.
    pub fn handle_command(
        command: &PulseCommand,
        devices: &DeviceStore,
        streams: &StreamStore,
    ) -> (r: Option<PulseAction>)
        requires
            devices.wf(),
            streams.wf(),
        ensures
            match *command {
                PulseCommand::TriggerDeviceDiscovery => r == Some(PulseAction::DiscoverDevices),
                PulseCommand::TriggerStreamDiscovery => r == Some(PulseAction::DiscoverStreams),
                PulseCommand::TriggerServerInfoQuery => r == Some(PulseAction::QueryServerInfo),
                PulseCommand::SetDeviceVolume { device, volume } => match r {
                    Some(a) => exists|k: DeviceKey|
                        #![trigger devices@[k]]
                        devices@.dom().contains(k) && devices@[k].index == device && a
                            == device_volume_action(devices@[k], volume@),
                    None => forall|k: DeviceKey|
                        #![trigger devices@[k]]
                        devices@.dom().contains(k) ==> devices@[k].index != device,
                },
                PulseCommand::SetDeviceMute { device, muted } => match r {
                    Some(a) => exists|k: DeviceKey|
                        #![trigger devices@[k]]
                        devices@.dom().contains(k) && devices@[k].index == device && a == (
                        match devices@[k].device_type {
                            DeviceType::Output => PulseAction::SetSinkMute {
                                index: device.0,
                                muted,
                            },
                            DeviceType::Input => PulseAction::SetSourceMute {
                                index: device.0,
                                muted,
                            },
                        }),
                    None => forall|k: DeviceKey|
                        #![trigger devices@[k]]
                        devices@.dom().contains(k) ==> devices@[k].index != device,
                },
                PulseCommand::SetDefaultInput { device } => match r {
                    Some(a) => exists|k: DeviceKey|
                        #![trigger devices@[k]]
                        devices@.dom().contains(k) && devices@[k].index == device && (
                        a matches PulseAction::SetDefaultSource { name } && name@
                            == devices@[k].name@),
                    None => forall|k: DeviceKey|
                        #![trigger devices@[k]]
                        devices@.dom().contains(k) ==> devices@[k].index != device,
                },
                PulseCommand::SetDefaultOutput { device } => match r {
                    Some(a) => exists|k: DeviceKey|
                        #![trigger devices@[k]]
                        devices@.dom().contains(k) && devices@[k].index == device && (
                        a matches PulseAction::SetDefaultSink { name } && name@
                            == devices@[k].name@),
                    None => forall|k: DeviceKey|
                        #![trigger devices@[k]]
                        devices@.dom().contains(k) ==> devices@[k].index != device,
                },
                PulseCommand::SetStreamVolume { stream, volume } => if streams@.dom().contains(
                    stream,
                ) {
                    if is_playback(streams@[stream]) {
                        r matches Some(PulseAction::SetSinkInputVolume { index, volume: v })
                            && index == stream.0 && v@ == volume@
                    } else {
                        r matches Some(PulseAction::SetSourceOutputVolume { index, volume: v })
                            && index == stream.0 && v@ == volume@
                    }
                } else {
                    r.is_none()
                },
                PulseCommand::SetStreamMute { stream, muted } => r == (if streams@.dom().contains(
                    stream,
                ) {
                    if is_playback(streams@[stream]) {
                        Some(PulseAction::SetSinkInputMute { index: stream.0, muted })
                    } else {
                        Some(PulseAction::SetSourceOutputMute { index: stream.0, muted })
                    }
                } else {
                    None::<PulseAction>
                }),
                PulseCommand::MoveStream { stream, device } => r == (if streams@.dom().contains(
                    stream,
                ) {
                    if is_playback(streams@[stream]) {
                        Some(PulseAction::MoveSinkInput { index: stream.0, device: device.0 })
                    } else {
                        Some(PulseAction::MoveSourceOutput { index: stream.0, device: device.0 })
                    }
                } else {
                    None::<PulseAction>
                }),
                PulseCommand::Shutdown => r.is_none(),
            },
    {
        match command {
            PulseCommand::TriggerDeviceDiscovery => Some(PulseAction::DiscoverDevices),
            PulseCommand::TriggerStreamDiscovery => Some(PulseAction::DiscoverStreams),
            PulseCommand::TriggerServerInfoQuery => Some(PulseAction::QueryServerInfo),
            PulseCommand::SetDeviceVolume { device, volume } => {
                match devices.find_by_index(*device) {
                    Some(info) => {
                        let level = channel_volumes_avg(volume.as_slice());
                        let n = info.volume.channels();
                        let channels = (n % 256) as u8;
                        let action = match info.device_type {
                            DeviceType::Output => PulseAction::SetSinkVolume {
                                index: device.0,
                                channels,
                                level,
                            },
                            DeviceType::Input => PulseAction::SetSourceVolume {
                                index: device.0,
                                channels,
                                level,
                            },
                        };
                        proof {
                            assert(devices@[info.key].index == *device);
                        }
                        Some(action)
                    },
                    None => None,
                }
            },
            PulseCommand::SetDeviceMute { device, muted } => {
                match devices.find_by_index(*device) {
                    Some(info) => {
                        let action = match info.device_type {
                            DeviceType::Output => PulseAction::SetSinkMute {
                                index: device.0,
                                muted: *muted,
                            },
                            DeviceType::Input => PulseAction::SetSourceMute {
                                index: device.0,
                                muted: *muted,
                            },
                        };
                        proof {
                            assert(devices@[info.key].index == *device);
                        }
                        Some(action)
                    },
                    None => None,
                }
            },
            PulseCommand::SetDefaultInput { device } => {
                match devices.find_by_index(*device) {
                    Some(info) => {
                        let name = info.name.to_string();
                        proof {
                            assert(devices@[info.key].index == *device);
                        }
                        Some(PulseAction::SetDefaultSource { name })
                    },
                    None => None,
                }
            },
            PulseCommand::SetDefaultOutput { device } => {
                match devices.find_by_index(*device) {
                    Some(info) => {
                        let name = info.name.to_string();
                        proof {
                            assert(devices@[info.key].index == *device);
                        }
                        Some(PulseAction::SetDefaultSink { name })
                    },
                    None => None,
                }
            },
            PulseCommand::SetStreamVolume { stream, volume } => {
                match streams.get(stream) {
                    Some(info) => {
                        let v = volume.clone();
                        proof {
                            assert(v@ =~= volume@);
                        }
                        if info.stream_type == StreamType::Playback {
                            Some(PulseAction::SetSinkInputVolume { index: stream.0, volume: v })
                        } else {
                            Some(PulseAction::SetSourceOutputVolume { index: stream.0, volume: v })
                        }
                    },
                    None => None,
                }
            },
            PulseCommand::SetStreamMute { stream, muted } => {
                match streams.get(stream) {
                    Some(info) => {
                        if info.stream_type == StreamType::Playback {
                            Some(PulseAction::SetSinkInputMute { index: stream.0, muted: *muted })
                        } else {
                            Some(PulseAction::SetSourceOutputMute { index: stream.0, muted: *muted })
                        }
                    },
                    None => None,
                }
            },
            PulseCommand::MoveStream { stream, device } => {
                match streams.get(stream) {
                    Some(info) => {
                        if info.stream_type == StreamType::Playback {
                            Some(PulseAction::MoveSinkInput { index: stream.0, device: device.0 })
                        } else {
                            Some(PulseAction::MoveSourceOutput { index: stream.0, device: device.0 })
                        }
                    },
                    None => None,
                }
            },
            PulseCommand::Shutdown => None,
        }
    }

    /// The stored device that the server names as default, if the server
    /// names one and a stored device has that name.
    pub fn default_device<'a>(devices: &'a DeviceStore, name: Option<&str>) -> (r: Option<
        &'a DeviceInfo,
    >)
        requires
            devices.wf(),
        ensures
            match name {
                None => r.is_none(),
                Some(n) => match r {
                    Some(d) => d.name@ == n@ && devices@.dom().contains(d.key) && devices@[d.key]
                        == *d,
                    None => forall|k: DeviceKey| #[trigger]
                        devices@.dom().contains(k) ==> devices@[k].name@ != n@,
                },
            },
    {
        match name {
            Some(n) => devices.find_by_name(n),
            None => None,
        }
    }
}

} // verus!
