use std::borrow::Cow;

use wayle::pulse::backend::{
    ChangeNotification, Facility, Operation, PulseAction, PulseBackend, PulseCommand,
};
use wayle::pulse::conversion::{
    convert_sample_format, cow_str_to_string, create_device_info_from_sink,
    create_device_info_from_source, create_stream_info_from_sink_input,
    create_stream_info_from_source_output, DeviceRecord, PortAvailability, PortRecord,
    PulseSampleFormat, StreamRecord,
};
use wayle::pulse::device::{
    DeviceIndex, DeviceInfo, DeviceKey, DeviceName, DevicePort, DeviceState, DeviceType,
};
use wayle::pulse::error::PulseError;
use wayle::pulse::store::{DeviceStore, StreamStore};
use wayle::pulse::stream::{
    SampleFormat, StreamFormat, StreamIndex, StreamInfo, StreamState, StreamType,
};
use wayle::pulse::volume::VolumeLevels;

fn port(name: &str) -> DevicePort {
    DevicePort {
        name: name.to_string(),
        description: format!("{name} port"),
        priority: 10,
        available: true,
    }
}

fn device(index: u32, device_type: DeviceType, name: &str, levels: &[u32], muted: bool) -> DeviceInfo {
    DeviceInfo::new(
        index,
        device_type,
        DeviceName::new(name.to_string()),
        format!("{name} description"),
        DeviceState::Running,
        muted,
        VolumeLevels::from_raw(levels),
        vec![port("analog")],
        Some("analog".to_string()),
    )
}

fn stream(index: u32, stream_type: StreamType, levels: &[u32]) -> StreamInfo {
    StreamInfo {
        index: StreamIndex(index),
        name: "music".to_string(),
        application_name: "player".to_string(),
        stream_type,
        state: StreamState::Running,
        device_index: DeviceIndex(1),
        volume: VolumeLevels::from_raw(levels),
        muted: false,
        format: StreamFormat {
            sample_rate: 48000,
            channels: 2,
            sample_format: SampleFormat::S16LE,
        },
    }
}

#[test]
fn sample_format_bit_depths() {
    assert_eq!(SampleFormat::U8.bit_depth(), Some(8));
    assert_eq!(SampleFormat::S16BE.bit_depth(), Some(16));
    assert_eq!(SampleFormat::S24LE.bit_depth(), Some(24));
    assert_eq!(SampleFormat::F32BE.bit_depth(), Some(32));
    assert_eq!(SampleFormat::Unknown.bit_depth(), None);
}

#[test]
fn sample_format_classes() {
    assert!(SampleFormat::S16LE.is_little_endian());
    assert!(!SampleFormat::S16LE.is_big_endian());
    assert!(SampleFormat::F32BE.is_big_endian());
    assert!(SampleFormat::F32LE.is_float());
    assert!(!SampleFormat::F32LE.is_signed_int());
    assert!(SampleFormat::S32BE.is_signed_int());
    assert!(SampleFormat::U8.is_unsigned_int());
    assert!(!SampleFormat::U8.is_little_endian() && !SampleFormat::U8.is_big_endian());
    let unknown = SampleFormat::Unknown;
    assert!(!unknown.is_float() && !unknown.is_signed_int() && !unknown.is_unsigned_int());
}

#[test]
fn sample_format_descriptions() {
    assert_eq!(SampleFormat::U8.description(), "8-bit unsigned PCM");
    assert_eq!(SampleFormat::S24BE.description(), "24-bit signed PCM (big-endian)");
    assert_eq!(SampleFormat::F32LE.description(), "32-bit float PCM (little-endian)");
    assert_eq!(SampleFormat::Unknown.description(), "Unknown format");
}

#[test]
fn stream_format_descriptions() {
    let stereo = StreamFormat { sample_rate: 44100, channels: 2, sample_format: SampleFormat::S16LE };
    assert_eq!(stereo.description(), "44100 Hz, Stereo, 16-bit signed PCM (little-endian)");
    let mono = StreamFormat { sample_rate: 8000, channels: 1, sample_format: SampleFormat::U8 };
    assert_eq!(mono.description(), "8000 Hz, Mono, 8-bit unsigned PCM");
    let surround = StreamFormat { sample_rate: 96000, channels: 6, sample_format: SampleFormat::F32LE };
    assert_eq!(surround.description(), "96000 Hz, 6-channel, 32-bit float PCM (little-endian)");
    let none = StreamFormat { sample_rate: 0, channels: 0, sample_format: SampleFormat::Unknown };
    assert_eq!(none.description(), "0 Hz, 0-channel, Unknown format");
}

#[test]
fn stream_format_quality_checks() {
    let cd = StreamFormat { sample_rate: 44100, channels: 2, sample_format: SampleFormat::S16BE };
    assert!(cd.is_cd_quality());
    assert!(!cd.is_high_resolution());
    assert_eq!(cd.bytes_per_second(), 176400);
    let hires = StreamFormat { sample_rate: 96000, channels: 2, sample_format: SampleFormat::S24LE };
    assert!(!hires.is_cd_quality());
    assert!(hires.is_high_resolution());
    assert_eq!(hires.bytes_per_second(), 576000);
    let float48 = StreamFormat { sample_rate: 48000, channels: 2, sample_format: SampleFormat::F32LE };
    assert!(float48.is_high_resolution());
    let unknown = StreamFormat { sample_rate: 48000, channels: 2, sample_format: SampleFormat::Unknown };
    assert!(!unknown.is_high_resolution());
    assert_eq!(unknown.bytes_per_second(), 192000);
}

#[test]
fn volume_levels_are_clamped() {
    let v = VolumeLevels::from_raw(&[0, 65536, 262144, 300000, u32::MAX]);
    assert_eq!(v.as_slice(), &[0, 65536, 262144, 262144, 262144]);
    assert_eq!(v.channels(), 5);
    assert_eq!(v.channel(1), Some(65536));
    assert_eq!(v.channel(5), None);
    assert!(v.same_levels(&v.duplicate()));
    assert!(!v.same_levels(&VolumeLevels::from_raw(&[0, 65536])));
}

#[test]
fn device_info_new_sets_key() {
    let d = device(7, DeviceType::Input, "mic", &[65536], false);
    assert_eq!(d.index, DeviceIndex(7));
    assert_eq!(d.key, DeviceKey::new(7, DeviceType::Input));
    assert_eq!(d.name.as_str(), "mic");
    assert_eq!(d.name.to_string(), "mic");
}

#[test]
fn properties_changed_ignores_volume_and_mute() {
    let a = device(1, DeviceType::Output, "speakers", &[65536, 65536], false);
    let b = device(1, DeviceType::Output, "speakers", &[0, 0], true);
    assert!(!a.properties_changed(&b));
    let mut c = device(1, DeviceType::Output, "speakers", &[65536, 65536], false);
    c.description = "other".to_string();
    assert!(a.properties_changed(&c));
    let mut d = device(1, DeviceType::Output, "speakers", &[65536, 65536], false);
    d.ports = vec![port("hdmi")];
    assert!(a.properties_changed(&d));
    let mut e = device(1, DeviceType::Output, "speakers", &[65536, 65536], false);
    e.active_port = None;
    assert!(a.properties_changed(&e));
}

#[test]
fn device_store_reports_added_then_changes() {
    let mut store = DeviceStore::new();
    let first = store.upsert(device(1, DeviceType::Output, "speakers", &[65536, 65536], false));
    assert!(first.added && !first.volume_changed && !first.mute_changed && !first.properties_changed);
    let same = store.upsert(device(1, DeviceType::Output, "speakers", &[65536, 65536], false));
    assert!(!same.added && !same.volume_changed && !same.mute_changed && !same.properties_changed);
    let louder = store.upsert(device(1, DeviceType::Output, "speakers", &[70000, 70000], true));
    assert!(!louder.added && louder.volume_changed && louder.mute_changed && !louder.properties_changed);
    let renamed = store.upsert(device(1, DeviceType::Output, "headphones", &[70000, 70000], true));
    assert!(renamed.properties_changed && !renamed.volume_changed);
    assert_eq!(store.len(), 1);
    let got = store.get(&DeviceKey::new(1, DeviceType::Output)).unwrap();
    assert_eq!(got.name.as_str(), "headphones");
}

#[test]
fn device_store_keys_include_type() {
    let mut store = DeviceStore::new();
    store.upsert(device(1, DeviceType::Output, "speakers", &[65536], false));
    let r = store.upsert(device(1, DeviceType::Input, "mic", &[65536], false));
    assert!(r.added);
    assert_eq!(store.len(), 2);
    assert_eq!(store.devices_by_type(DeviceType::Input).len(), 1);
    assert_eq!(store.devices_by_type(DeviceType::Input)[0].name.as_str(), "mic");
    assert_eq!(store.devices_by_type(DeviceType::Output).len(), 1);
    assert_eq!(store.entries().len(), 2);
}

#[test]
fn device_store_lookup_errors() {
    let mut store = DeviceStore::new();
    store.upsert(device(3, DeviceType::Output, "speakers", &[65536], false));
    assert!(store.device(DeviceKey::new(3, DeviceType::Output)).is_ok());
    assert_eq!(store.device(DeviceKey::new(3, DeviceType::Output)).unwrap().index, DeviceIndex(3));
    assert_eq!(
        store.device(DeviceKey::new(3, DeviceType::Input)).unwrap_err(),
        PulseError::DeviceNotFound(DeviceIndex(3))
    );
    assert_eq!(
        store.device(DeviceKey::new(4, DeviceType::Output)).unwrap_err(),
        PulseError::DeviceNotFound(DeviceIndex(4))
    );
    assert_eq!(store.find_by_index(DeviceIndex(3)).unwrap().name.as_str(), "speakers");
    assert!(store.find_by_index(DeviceIndex(9)).is_none());
    assert_eq!(store.find_by_name("speakers").unwrap().index, DeviceIndex(3));
    assert!(store.find_by_name("nothing").is_none());
}

#[test]
fn device_store_remove_returns_device() {
    let mut store = DeviceStore::new();
    store.upsert(device(2, DeviceType::Input, "mic", &[65536], false));
    let removed = store.remove(&DeviceKey::new(2, DeviceType::Input)).unwrap();
    assert_eq!(removed.name.as_str(), "mic");
    assert!(store.remove(&DeviceKey::new(2, DeviceType::Input)).is_none());
    assert_eq!(store.len(), 0);
}

#[test]
fn stream_store_groups_and_errors() {
    let mut store = StreamStore::new();
    assert!(store.upsert(stream(10, StreamType::Playback, &[65536])).added);
    assert!(store.upsert(stream(11, StreamType::Record, &[65536])).added);
    assert!(store.upsert(stream(12, StreamType::Capture, &[65536])).added);
    let louder = store.upsert(stream(10, StreamType::Playback, &[100]));
    assert!(louder.volume_changed && !louder.added && !louder.properties_changed);
    assert_eq!(store.streams_by_group(false).len(), 1);
    assert_eq!(store.streams_by_group(true).len(), 2);
    assert_eq!(store.stream(StreamIndex(99)).unwrap_err(), PulseError::StreamNotFound(StreamIndex(99)));
    assert_eq!(store.stream(StreamIndex(11)).unwrap().stream_type, StreamType::Record);
    assert!(store.remove(&StreamIndex(11)).is_some());
    assert_eq!(store.len(), 2);
}

#[test]
fn subscription_events_become_notifications() {
    assert_eq!(
        PulseBackend::change_notification(Some(Facility::Sink), Some(Operation::New), 4),
        Some(ChangeNotification::Device { facility: Facility::Sink, operation: Operation::New, index: 4 })
    );
    assert_eq!(
        PulseBackend::change_notification(Some(Facility::SourceOutput), Some(Operation::Removed), 2),
        Some(ChangeNotification::Stream {
            facility: Facility::SourceOutput,
            operation: Operation::Removed,
            index: 2
        })
    );
    assert!(matches!(
        PulseBackend::change_notification(Some(Facility::Server), Some(Operation::Changed), 0),
        Some(ChangeNotification::Server { .. })
    ));
    assert_eq!(PulseBackend::change_notification(Some(Facility::Module), Some(Operation::New), 1), None);
    assert_eq!(PulseBackend::change_notification(None, Some(Operation::New), 1), None);
    assert_eq!(PulseBackend::change_notification(Some(Facility::Sink), None, 1), None);
}

#[test]
fn device_notifications_update_the_store() {
    let mut devices = DeviceStore::new();
    let mut streams = StreamStore::new();
    devices.upsert(device(5, DeviceType::Output, "speakers", &[65536], false));
    let changed = PulseBackend::process_change_notification(
        ChangeNotification::Device { facility: Facility::Sink, operation: Operation::Changed, index: 5 },
        &mut devices,
        &mut streams,
    );
    assert_eq!(changed.command, Some(PulseCommand::TriggerDeviceDiscovery));
    assert!(changed.broadcast_devices && changed.removed_device.is_none());
    let wrong_type = PulseBackend::process_change_notification(
        ChangeNotification::Device { facility: Facility::Source, operation: Operation::Removed, index: 5 },
        &mut devices,
        &mut streams,
    );
    assert!(wrong_type.removed_device.is_none() && wrong_type.broadcast_devices);
    assert_eq!(devices.len(), 1);
    let removed = PulseBackend::process_change_notification(
        ChangeNotification::Device { facility: Facility::Sink, operation: Operation::Removed, index: 5 },
        &mut devices,
        &mut streams,
    );
    assert_eq!(removed.removed_device.unwrap().name.as_str(), "speakers");
    assert_eq!(removed.command, None);
    assert_eq!(devices.len(), 0);
    let other = PulseBackend::handle_device_change(Facility::Card, Operation::New, 1, &mut devices);
    assert!(other.command.is_none() && !other.broadcast_devices);
}

#[test]
fn stream_and_server_notifications() {
    let mut devices = DeviceStore::new();
    let mut streams = StreamStore::new();
    streams.upsert(stream(3, StreamType::Playback, &[65536]));
    let removed = PulseBackend::process_change_notification(
        ChangeNotification::Stream { facility: Facility::SinkInput, operation: Operation::Removed, index: 3 },
        &mut devices,
        &mut streams,
    );
    assert_eq!(removed.removed_stream.unwrap().index, StreamIndex(3));
    assert!(removed.broadcast_streams);
    let added = PulseBackend::handle_stream_change(Facility::SinkInput, Operation::New, 4, &mut streams);
    assert_eq!(added.command, Some(PulseCommand::TriggerStreamDiscovery));
    let server = PulseBackend::handle_server_change(Operation::Changed);
    assert_eq!(server.command, Some(PulseCommand::TriggerServerInfoQuery));
    assert!(server.broadcast_devices);
    let server_new = PulseBackend::handle_server_change(Operation::New);
    assert_eq!(server_new.command, None);
}

#[test]
fn commands_pick_the_pulse_operation() {
    let mut devices = DeviceStore::new();
    let mut streams = StreamStore::new();
    devices.upsert(device(1, DeviceType::Output, "speakers", &[65536, 65536], false));
    devices.upsert(device(2, DeviceType::Input, "mic", &[65536], false));
    streams.upsert(stream(8, StreamType::Playback, &[65536]));
    streams.upsert(stream(9, StreamType::Record, &[65536]));

    let vol = PulseCommand::SetDeviceVolume { device: DeviceIndex(1), volume: vec![30000, 40000, 50000] };
    assert_eq!(
        PulseBackend::handle_command(&vol, &devices, &streams),
        Some(PulseAction::SetSinkVolume { index: 1, channels: 2, level: 40000 })
    );
    let vol_in = PulseCommand::SetDeviceVolume { device: DeviceIndex(2), volume: vec![7, 8] };
    assert_eq!(
        PulseBackend::handle_command(&vol_in, &devices, &streams),
        Some(PulseAction::SetSourceVolume { index: 2, channels: 1, level: 7 })
    );
    let invalid = PulseCommand::SetDeviceVolume { device: DeviceIndex(1), volume: vec![] };
    assert_eq!(
        PulseBackend::handle_command(&invalid, &devices, &streams),
        Some(PulseAction::SetSinkVolume { index: 1, channels: 2, level: 0 })
    );
    let unknown = PulseCommand::SetDeviceMute { device: DeviceIndex(5), muted: true };
    assert_eq!(PulseBackend::handle_command(&unknown, &devices, &streams), None);
    let mute = PulseCommand::SetDeviceMute { device: DeviceIndex(2), muted: true };
    assert_eq!(
        PulseBackend::handle_command(&mute, &devices, &streams),
        Some(PulseAction::SetSourceMute { index: 2, muted: true })
    );
    let def = PulseCommand::SetDefaultOutput { device: DeviceIndex(1) };
    assert_eq!(
        PulseBackend::handle_command(&def, &devices, &streams),
        Some(PulseAction::SetDefaultSink { name: "speakers".to_string() })
    );
    let def_in = PulseCommand::SetDefaultInput { device: DeviceIndex(2) };
    assert_eq!(
        PulseBackend::handle_command(&def_in, &devices, &streams),
        Some(PulseAction::SetDefaultSource { name: "mic".to_string() })
    );
    let svol = PulseCommand::SetStreamVolume { stream: StreamIndex(9), volume: vec![1, 2] };
    assert_eq!(
        PulseBackend::handle_command(&svol, &devices, &streams),
        Some(PulseAction::SetSourceOutputVolume { index: 9, volume: vec![1, 2] })
    );
    let smute = PulseCommand::SetStreamMute { stream: StreamIndex(8), muted: false };
    assert_eq!(
        PulseBackend::handle_command(&smute, &devices, &streams),
        Some(PulseAction::SetSinkInputMute { index: 8, muted: false })
    );
    let mv = PulseCommand::MoveStream { stream: StreamIndex(8), device: DeviceIndex(1) };
    assert_eq!(
        PulseBackend::handle_command(&mv, &devices, &streams),
        Some(PulseAction::MoveSinkInput { index: 8, device: 1 })
    );
    let mv_missing = PulseCommand::MoveStream { stream: StreamIndex(80), device: DeviceIndex(1) };
    assert_eq!(PulseBackend::handle_command(&mv_missing, &devices, &streams), None);
    assert_eq!(
        PulseBackend::handle_command(&PulseCommand::TriggerDeviceDiscovery, &devices, &streams),
        Some(PulseAction::DiscoverDevices)
    );
    assert_eq!(PulseBackend::handle_command(&PulseCommand::Shutdown, &devices, &streams), None);
}

#[test]
fn default_device_is_found_by_name() {
    let mut devices = DeviceStore::new();
    devices.upsert(device(1, DeviceType::Output, "alsa_output.pci", &[65536], false));
    assert_eq!(
        PulseBackend::default_device(&devices, Some("alsa_output.pci")).unwrap().index,
        DeviceIndex(1)
    );
    assert!(PulseBackend::default_device(&devices, Some("missing")).is_none());
    assert!(PulseBackend::default_device(&devices, None).is_none());
}

#[test]
fn conversion_of_reported_devices_and_streams() {
    assert_eq!(cow_str_to_string(Some(&Cow::Borrowed("abc"))), "abc");
    assert_eq!(cow_str_to_string(Some(&Cow::Owned("xyz".to_string()))), "xyz");
    assert_eq!(cow_str_to_string(None), "");
    assert_eq!(convert_sample_format(PulseSampleFormat::S24_32le), SampleFormat::Unknown);
    assert_eq!(convert_sample_format(PulseSampleFormat::S16le), SampleFormat::S16LE);
    assert_eq!(convert_sample_format(PulseSampleFormat::F32be), SampleFormat::F32BE);

    let port_a = PortRecord {
        name: Some(Cow::Borrowed("analog-output")),
        description: None,
        priority: 9,
        available: PortAvailability::Yes,
    };
    let port_b = PortRecord {
        name: None,
        description: Some(Cow::Borrowed("Headphones")),
        priority: 1,
        available: PortAvailability::Unknown,
    };
    let record = DeviceRecord {
        index: 4,
        name: Some(Cow::Borrowed("sink")),
        description: None,
        mute: true,
        volume: vec![65536, 500000],
        ports: vec![port_a.clone(), port_b],
        active_port: Some(port_a),
    };
    let sink = create_device_info_from_sink(&record);
    assert_eq!(sink.key, DeviceKey::new(4, DeviceType::Output));
    assert_eq!(sink.name.as_str(), "sink");
    assert_eq!(sink.description, "");
    assert_eq!(sink.state, DeviceState::Running);
    assert!(sink.muted);
    assert_eq!(sink.volume.as_slice(), &[65536, 262144]);
    assert_eq!(sink.ports.len(), 2);
    assert!(sink.ports[0].available && !sink.ports[1].available);
    assert_eq!(sink.ports[1].name, "");
    assert_eq!(sink.ports[1].description, "Headphones");
    assert_eq!(sink.active_port.as_deref(), Some("analog-output"));
    let source = create_device_info_from_source(&record);
    assert_eq!(source.key, DeviceKey::new(4, DeviceType::Input));

    let srec = StreamRecord {
        index: 12,
        name: None,
        application_name: Some("Firefox".to_string()),
        device: 4,
        volume: vec![32768],
        mute: false,
        rate: 44100,
        channels: 2,
        format: PulseSampleFormat::S16le,
    };
    let play = create_stream_info_from_sink_input(&srec);
    assert_eq!(play.index, StreamIndex(12));
    assert_eq!(play.name, "");
    assert_eq!(play.application_name, "Firefox");
    assert_eq!(play.stream_type, StreamType::Playback);
    assert_eq!(play.device_index, DeviceIndex(4));
    assert!(play.format.is_cd_quality());
    let rec = create_stream_info_from_source_output(&srec);
    assert_eq!(rec.stream_type, StreamType::Record);
}
