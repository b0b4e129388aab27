//! Building device and stream descriptions from what PulseAudio reports.
//!
//! PulseAudio's introspection hands out sink, source, sink input and source
//! output records. The record types here hold, as plain values, the fields
//! of those records that the descriptions are made from.

use std::borrow::Cow;

use vstd::prelude::*;

use crate::pulse::device::{
    DeviceIndex, DeviceInfo, DeviceKey, DeviceName, DevicePort, DeviceState, DeviceType,
};
use crate::pulse::stream::{SampleFormat, StreamFormat, StreamIndex, StreamInfo, StreamState, StreamType};
use crate::pulse::volume::{clamp_level, VolumeLevels};

verus! {

/// Availability of a device port as PulseAudio reports it.
#[derive(Debug, Clone, Copy, PartialEq, Eq, Structural)]
pub enum PortAvailability {
    /// Availability unknown
    Unknown,
    /// Not available
    No,
    /// Available
    Yes,
}

/// Sample formats as PulseAudio names them.
#[derive(Debug, Clone, Copy, PartialEq, Eq, Structural)]
pub enum PulseSampleFormat {
    /// Unsigned 8 bit
    U8,
    /// 8 bit a-Law
    ALaw,
    /// 8 bit mu-Law
    ULaw,
    /// Signed 16 bit little endian
    S16le,
    /// Signed 16 bit big endian
    S16be,
    /// 32 bit float little endian
    F32le,
    /// 32 bit float big endian
    F32be,
    /// Signed 32 bit little endian
    S32le,
    /// Signed 32 bit big endian
    S32be,
    /// Signed 24 bit packed little endian
    S24le,
    /// Signed 24 bit packed big endian
    S24be,
    /// Signed 24 bit in 32 bit little endian
    S24_32le,
    /// Signed 24 bit in 32 bit big endian
    S24_32be,
    /// An invalid value
    Invalid,
}

/// A device port as PulseAudio reports it.
#[derive(Debug, Clone)]
pub struct PortRecord<'a> {
    /// Port name
    pub name: Option<Cow<'a, str>>,
    /// Port description
    pub description: Option<Cow<'a, str>>,
    /// Port priority
    pub priority: u32,
    /// Port availability
    pub available: PortAvailability,
}

/// A sink or source as PulseAudio reports it.
#[derive(Debug, Clone)]
pub struct DeviceRecord<'a> {
    /// Index of the sink or source
    pub index: u32,
    /// Name
    pub name: Option<Cow<'a, str>>,
    /// Description
    pub description: Option<Cow<'a, str>>,
    /// Mute state
    pub mute: bool,
    /// Channel volumes, in PulseAudio units
    pub volume: Vec<u32>,
    /// Ports
    pub ports: Vec<PortRecord<'a>>,
    /// The active port
    pub active_port: Option<PortRecord<'a>>,
}

/// A sink input or source output as PulseAudio reports it.
#[derive(Debug, Clone)]
pub struct StreamRecord<'a> {
    /// Index of the sink input or source output
    pub index: u32,
    /// Name
    pub name: Option<Cow<'a, str>>,
    /// The `application.name` property, if set
    pub application_name: Option<String>,
    /// Index of the sink or source it is connected to
    pub device: u32,
    /// Channel volumes, in PulseAudio units
    pub volume: Vec<u32>,
    /// Mute state
    pub mute: bool,
    /// Sample rate in Hz
    pub rate: u32,
    /// Number of channels
    pub channels: u8,
    /// Sample format
    pub format: PulseSampleFormat,
}

/// The text of an optional string, empty when absent.
pub open spec fn text_or_empty(s: Option<Cow<'_, str>>) -> Seq<char> {
    match s {
        Some(c) => c@,
        None => Seq::empty(),
    }
}

/// Our sample format for a PulseAudio sample format.
pub open spec fn spec_sample_format(format: PulseSampleFormat) -> SampleFormat {
    match format {
        PulseSampleFormat::U8 => SampleFormat::U8,
        PulseSampleFormat::S16le => SampleFormat::S16LE,
        PulseSampleFormat::S16be => SampleFormat::S16BE,
        PulseSampleFormat::S24le => SampleFormat::S24LE,
        PulseSampleFormat::S24be => SampleFormat::S24BE,
        PulseSampleFormat::S32le => SampleFormat::S32LE,
        PulseSampleFormat::S32be => SampleFormat::S32BE,
        PulseSampleFormat::F32le => SampleFormat::F32LE,
        PulseSampleFormat::F32be => SampleFormat::F32BE,
        _ => SampleFormat::Unknown,
    }
}

/// Whether PulseAudio names the format little-endian.
pub open spec fn pulse_little_endian(p: PulseSampleFormat) -> bool {
    p == PulseSampleFormat::S16le || p == PulseSampleFormat::S24le || p == PulseSampleFormat::S32le
        || p == PulseSampleFormat::F32le || p == PulseSampleFormat::S24_32le
}

/// Whether PulseAudio names the format big-endian.
pub open spec fn pulse_big_endian(p: PulseSampleFormat) -> bool {
    p == PulseSampleFormat::S16be || p == PulseSampleFormat::S24be || p == PulseSampleFormat::S32be
        || p == PulseSampleFormat::F32be || p == PulseSampleFormat::S24_32be
}

/// Whether PulseAudio names the format a float format.
pub open spec fn pulse_float(p: PulseSampleFormat) -> bool {
    p == PulseSampleFormat::F32le || p == PulseSampleFormat::F32be
}

/// Whether PulseAudio names the format a signed linear integer format.
pub open spec fn pulse_signed_int(p: PulseSampleFormat) -> bool {
    p == PulseSampleFormat::S16le || p == PulseSampleFormat::S16be || p == PulseSampleFormat::S24le
        || p == PulseSampleFormat::S24be || p == PulseSampleFormat::S32le
        || p == PulseSampleFormat::S32be || p == PulseSampleFormat::S24_32le
        || p == PulseSampleFormat::S24_32be
}

/// The sample width PulseAudio's name for a linear PCM format states, for
/// the formats packed at that width.
pub open spec fn pulse_packed_bits(p: PulseSampleFormat) -> Option<u32> {
    match p {
        PulseSampleFormat::U8 => Some(8),
        PulseSampleFormat::S16le | PulseSampleFormat::S16be => Some(16),
        PulseSampleFormat::S24le | PulseSampleFormat::S24be => Some(24),
        PulseSampleFormat::S32le | PulseSampleFormat::S32be | PulseSampleFormat::F32le
        | PulseSampleFormat::F32be => Some(32),
        _ => None,
    }
}

/// A PulseAudio format keeps its layout when it is converted: a format
/// with a counterpart becomes the one with the same width, the same sample
/// class (unsigned, signed, float) and the same byte order; a-law, mu-law,
/// 24-in-32-bit and invalid formats, which have none, become `Unknown`.
pub proof fn law_conversion_keeps_sample_layout(p: PulseSampleFormat)
    ensures
        (spec_sample_format(p) == SampleFormat::Unknown) <==> (p == PulseSampleFormat::ALaw || p
            == PulseSampleFormat::ULaw || p == PulseSampleFormat::S24_32le || p
            == PulseSampleFormat::S24_32be || p == PulseSampleFormat::Invalid),
        spec_sample_format(p) != SampleFormat::Unknown ==> {
            let r = spec_sample_format(p);
            &&& r.spec_bit_depth() == pulse_packed_bits(p)
            &&& r.spec_little_endian() == pulse_little_endian(p)
            &&& r.spec_big_endian() == pulse_big_endian(p)
            &&& r.spec_float() == pulse_float(p)
            &&& r.spec_signed_int() == pulse_signed_int(p)
            &&& (r == SampleFormat::U8) == (p == PulseSampleFormat::U8)
        },
{
}

/// Distinct PulseAudio formats with counterparts convert to distinct formats.
pub proof fn law_conversion_is_injective(p: PulseSampleFormat, q: PulseSampleFormat)
    ensures
        spec_sample_format(p) != SampleFormat::Unknown && spec_sample_format(p)
            == spec_sample_format(q) ==> p == q,
{
}

/// The port description made from a reported port.
pub open spec fn port_matches(p: DevicePort, rec: PortRecord) -> bool {
    &&& p.name@ == text_or_empty(rec.name)
    &&& p.description@ == text_or_empty(rec.description)
    &&& p.priority == rec.priority
    &&& p.available == (rec.available == PortAvailability::Yes)
}

/// The volume levels made from reported channel volumes.
pub open spec fn levels_match(v: VolumeLevels, raw: Seq<u32>) -> bool {
    &&& v.wf()
    &&& v@.len() == raw.len()
    &&& forall|i: int| 0 <= i < raw.len() ==> v@[i] == clamp_level(raw[i])
}

/// The device description made from a reported sink or source.
pub open spec fn device_matches(d: DeviceInfo, rec: DeviceRecord, device_type: DeviceType) -> bool {
    &&& d.index == DeviceIndex(rec.index)
    &&& d.device_type == device_type
    &&& d.key == (DeviceKey { index: rec.index, device_type })
    &&& d.name@ == text_or_empty(rec.name)
    &&& d.description@ == text_or_empty(rec.description)
    &&& d.state == DeviceState::Running
    &&& d.muted == rec.mute
    &&& levels_match(d.volume, rec.volume@)
    &&& d.ports@.len() == rec.ports@.len()
    &&& forall|i: int| 0 <= i < rec.ports@.len() ==> port_matches(#[trigger] d.ports@[i], rec.ports@[i])
    &&& match rec.active_port {
        Some(p) => match p.name {
            Some(n) => d.active_port matches Some(a) && a@ == n@,
            None => d.active_port.is_none(),
        },
        None => d.active_port.is_none(),
    }
}

/// The stream description made from a reported sink input or source output.
pub open spec fn stream_matches(s: StreamInfo, rec: StreamRecord, stream_type: StreamType) -> bool {
    &&& s.index == StreamIndex(rec.index)
    &&& s.name@ == text_or_empty(rec.name)
    &&& s.application_name@ == match rec.application_name {
        Some(a) => a@,
        None => Seq::empty(),
    }
    &&& s.stream_type == stream_type
    &&& s.state == StreamState::Running
    &&& s.device_index == DeviceIndex(rec.device)
    &&& levels_match(s.volume, rec.volume@)
    &&& s.muted == rec.mute
    &&& s.format == (StreamFormat {
        sample_rate: rec.rate,
        channels: rec.channels,
        sample_format: spec_sample_format(rec.format),
    })
}

/// The text of an optional string, or an empty string.
pub fn cow_str_to_string(cow_str: Option<&Cow<str>>) -> (r: String)
    ensures
        r@ == match cow_str {
            Some(c) => c@,
            None => Seq::empty(),
        },
{
    match cow_str {
        Some(c) => match c {
            Cow::Borrowed(b) => (*b).to_owned(),
            Cow::Owned(o) => o.clone(),
        },
        None => String::new(),
    }
}

/// Convert PulseAudio sample format to our format
pub fn convert_sample_format(format: PulseSampleFormat) -> (r: SampleFormat)
    ensures
        r == spec_sample_format(format),
{
    match format {
        PulseSampleFormat::U8 => SampleFormat::U8,
        PulseSampleFormat::S16le => SampleFormat::S16LE,
        PulseSampleFormat::S16be => SampleFormat::S16BE,
        PulseSampleFormat::S24le => SampleFormat::S24LE,
        PulseSampleFormat::S24be => SampleFormat::S24BE,
        PulseSampleFormat::S32le => SampleFormat::S32LE,
        PulseSampleFormat::S32be => SampleFormat::S32BE,
        PulseSampleFormat::F32le => SampleFormat::F32LE,
        PulseSampleFormat::F32be => SampleFormat::F32BE,
        _ => SampleFormat::Unknown,
    }
}

fn convert_port(port: &PortRecord) -> (r: DevicePort)
    ensures
        port_matches(r, *port),
{
    DevicePort {
        name: cow_str_to_string(port.name.as_ref()),
        description: cow_str_to_string(port.description.as_ref()),
        priority: port.priority,
        available: port.available == PortAvailability::Yes,
    }
}

fn create_device_info(record: &DeviceRecord, device_type: DeviceType) -> (r: DeviceInfo)
    ensures
        r.wf(),
        device_matches(r, *record, device_type),
{
    let volume = VolumeLevels::from_raw(record.volume.as_slice());
    let name = cow_str_to_string(record.name.as_ref());
    let description = cow_str_to_string(record.description.as_ref());
    let mut ports: Vec<DevicePort> = Vec::new();
    let mut i: usize = 0;
    while i < record.ports.len()
        invariant
            i <= record.ports@.len(),
            ports@.len() == i,
            forall|j: int| 0 <= j < i ==> port_matches(#[trigger] ports@[j], record.ports@[j]),
        decreases record.ports@.len() - i,
    {
        ports.push(convert_port(&record.ports[i]));
        i = i + 1;
    }
    let active_port = match &record.active_port {
        Some(p) => match &p.name {
            Some(n) => Some(cow_str_to_string(Some(n))),
            None => None,
        },
        None => None,
    };
    DeviceInfo::new(
        record.index,
        device_type,
        DeviceName::new(name),
        description,
        DeviceState::Running,
        record.mute,
        volume,
        ports,
        active_port,
    )
}

/// Create device info from PulseAudio sink information
pub fn create_device_info_from_sink(sink_info: &DeviceRecord) -> (r: DeviceInfo)
    ensures
        r.wf(),
        device_matches(r, *sink_info, DeviceType::Output),
{
    create_device_info(sink_info, DeviceType::Output)
}

/// Create device info from PulseAudio source information
pub fn create_device_info_from_source(source_info: &DeviceRecord) -> (r: DeviceInfo)
    ensures
        r.wf(),
        device_matches(r, *source_info, DeviceType::Input),
{
    create_device_info(source_info, DeviceType::Input)
}

fn create_stream_info(record: &StreamRecord, stream_type: StreamType) -> (r: StreamInfo)
    ensures
        stream_matches(r, *record, stream_type),
{
    let volume = VolumeLevels::from_raw(record.volume.as_slice());
    let name = cow_str_to_string(record.name.as_ref());
    let application_name = match &record.application_name {
        Some(a) => a.clone(),
        None => String::new(),
    };
    let format = StreamFormat {
        sample_rate: record.rate,
        channels: record.channels,
        sample_format: convert_sample_format(record.format),
    };
    StreamInfo {
        index: StreamIndex(record.index),
        name,
        application_name,
        stream_type,
        state: StreamState::Running,
        device_index: DeviceIndex(record.device),
        volume,
        muted: record.mute,
        format,
    }
}

/// Create stream info from PulseAudio sink input information
pub fn create_stream_info_from_sink_input(sink_input_info: &StreamRecord) -> (r: StreamInfo)
    ensures
        stream_matches(r, *sink_input_info, StreamType::Playback),
{
    create_stream_info(sink_input_info, StreamType::Playback)
}

/// Create stream info from PulseAudio source output information
pub fn create_stream_info_from_source_output(source_output_info: &StreamRecord) -> (r: StreamInfo)
    ensures
        stream_matches(r, *source_output_info, StreamType::Record),
{
    create_stream_info(source_output_info, StreamType::Record)
}

} // verus!
