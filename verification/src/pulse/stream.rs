//! Audio streams: identifiers, sample formats and stream descriptions.

use vstd::prelude::*;

use crate::pulse::device::DeviceIndex;
use crate::pulse::volume::VolumeLevels;
use crate::text::{decimal, push_decimal};

verus! {

/// Audio stream index
#[derive(Debug, Clone, Copy, PartialEq, Eq, Hash, Structural)]
pub struct StreamIndex(pub u32);

/// Audio stream type
#[derive(Debug, Clone, Copy, PartialEq, Eq, Hash, Structural)]
pub enum StreamType {
    /// Playback stream (audio output)
    Playback,
    /// Record stream (audio input)
    Record,
    /// Capture stream (audio input)
    Capture,
}

/// Audio stream state
#[derive(Debug, Clone, Copy, PartialEq, Eq, Hash, Structural)]
pub enum StreamState {
    /// Stream is running
    Running,
    /// Stream is idle
    Idle,
    /// Stream is suspended
    Suspended,
    /// Stream is terminated
    Terminated,
}

/// Audio sample format
#[derive(Debug, Clone, Copy, PartialEq, Eq, Hash, Structural)]
pub enum SampleFormat {
    /// 8-bit unsigned
    U8,
    /// 16-bit signed little-endian
    S16LE,
    /// 16-bit signed big-endian
    S16BE,
    /// 24-bit signed little-endian
    S24LE,
    /// 24-bit signed big-endian
    S24BE,
    /// 32-bit signed little-endian
    S32LE,
    /// 32-bit signed big-endian
    S32BE,
    /// 32-bit float little-endian (high quality)
    F32LE,
    /// 32-bit float big-endian
    F32BE,
    /// Unknown or unsupported format
    Unknown,
}

impl SampleFormat {
    /// Bits per sample of the format, if the format is known.
    pub open spec fn spec_bit_depth(self) -> Option<u32> {
        match self {
            SampleFormat::U8 => Some(8),
            SampleFormat::S16LE | SampleFormat::S16BE => Some(16),
            SampleFormat::S24LE | SampleFormat::S24BE => Some(24),
            SampleFormat::S32LE | SampleFormat::S32BE | SampleFormat::F32LE
            | SampleFormat::F32BE => Some(32),
            SampleFormat::Unknown => None,
        }
    }

    /// Whether the format is a little-endian one.
    pub open spec fn spec_little_endian(self) -> bool {
        self == SampleFormat::S16LE || self == SampleFormat::S24LE || self == SampleFormat::S32LE
            || self == SampleFormat::F32LE
    }

    /// Whether the format is a big-endian one.
    pub open spec fn spec_big_endian(self) -> bool {
        self == SampleFormat::S16BE || self == SampleFormat::S24BE || self == SampleFormat::S32BE
            || self == SampleFormat::F32BE
    }

    /// Whether the format holds floating-point samples.
    pub open spec fn spec_float(self) -> bool {
        self == SampleFormat::F32LE || self == SampleFormat::F32BE
    }

    /// Whether the format holds signed integer samples.
    pub open spec fn spec_signed_int(self) -> bool {
        self == SampleFormat::S16LE || self == SampleFormat::S16BE || self == SampleFormat::S24LE
            || self == SampleFormat::S24BE || self == SampleFormat::S32LE
            || self == SampleFormat::S32BE
    }

    /// Human-readable description of the format.
    pub open spec fn spec_description(self) -> Seq<char> {
        match self {
            SampleFormat::U8 => "8-bit unsigned PCM"@,
            SampleFormat::S16LE => "16-bit signed PCM (little-endian)"@,
            SampleFormat::S16BE => "16-bit signed PCM (big-endian)"@,
            SampleFormat::S24LE => "24-bit signed PCM (little-endian)"@,
            SampleFormat::S24BE => "24-bit signed PCM (big-endian)"@,
            SampleFormat::S32LE => "32-bit signed PCM (little-endian)"@,
            SampleFormat::S32BE => "32-bit signed PCM (big-endian)"@,
            SampleFormat::F32LE => "32-bit float PCM (little-endian)"@,
            SampleFormat::F32BE => "32-bit float PCM (big-endian)"@,
            SampleFormat::Unknown => "Unknown format"@,
        }
    }

    /// Get the bit depth of the sample format
    pub fn bit_depth(&self) -> (r: Option<u32>)
        ensures
            r == self.spec_bit_depth(),
    {
        match self {
            SampleFormat::U8 => Some(8),
            SampleFormat::S16LE | SampleFormat::S16BE => Some(16),
            SampleFormat::S24LE | SampleFormat::S24BE => Some(24),
            SampleFormat::S32LE | SampleFormat::S32BE | SampleFormat::F32LE
            | SampleFormat::F32BE => Some(32),
            SampleFormat::Unknown => None,
        }
    }

    /// Check if the format is little-endian
    pub fn is_little_endian(&self) -> (r: bool)
        ensures
            r == (*self == SampleFormat::S16LE || *self == SampleFormat::S24LE
                || *self == SampleFormat::S32LE || *self == SampleFormat::F32LE),
    {
        matches!(self, SampleFormat::S16LE | SampleFormat::S24LE | SampleFormat::S32LE | SampleFormat::F32LE)
    }

    /// Check if the format is big-endian
    pub fn is_big_endian(&self) -> (r: bool)
        ensures
            r == (*self == SampleFormat::S16BE || *self == SampleFormat::S24BE
                || *self == SampleFormat::S32BE || *self == SampleFormat::F32BE),
    {
        matches!(self, SampleFormat::S16BE | SampleFormat::S24BE | SampleFormat::S32BE | SampleFormat::F32BE)
    }

    /// Check if the format is floating point
    pub fn is_float(&self) -> (r: bool)
        ensures
            r == (*self == SampleFormat::F32LE || *self == SampleFormat::F32BE),
    {
        matches!(self, SampleFormat::F32LE | SampleFormat::F32BE)
    }

    /// Check if the format is signed integer
    pub fn is_signed_int(&self) -> (r: bool)
        ensures
            r == (*self == SampleFormat::S16LE || *self == SampleFormat::S16BE
                || *self == SampleFormat::S24LE || *self == SampleFormat::S24BE
                || *self == SampleFormat::S32LE || *self == SampleFormat::S32BE),
    {
        matches!(
            self,
            SampleFormat::S16LE | SampleFormat::S16BE | SampleFormat::S24LE | SampleFormat::S24BE
            | SampleFormat::S32LE | SampleFormat::S32BE
        )
    }

    /// Check if the format is unsigned integer
    pub fn is_unsigned_int(&self) -> (r: bool)
        ensures
            r == (*self == SampleFormat::U8),
    {
        matches!(self, SampleFormat::U8)
    }

    /// Get a human-readable description of the format
    pub fn description(&self) -> (r: &'static str)
        ensures
            r@ == self.spec_description(),
    {
        match self {
            SampleFormat::U8 => "8-bit unsigned PCM",
            SampleFormat::S16LE => "16-bit signed PCM (little-endian)",
            SampleFormat::S16BE => "16-bit signed PCM (big-endian)",
            SampleFormat::S24LE => "24-bit signed PCM (little-endian)",
            SampleFormat::S24BE => "24-bit signed PCM (big-endian)",
            SampleFormat::S32LE => "32-bit signed PCM (little-endian)",
            SampleFormat::S32BE => "32-bit signed PCM (big-endian)",
            SampleFormat::F32LE => "32-bit float PCM (little-endian)",
            SampleFormat::F32BE => "32-bit float PCM (big-endian)",
            SampleFormat::Unknown => "Unknown format",
        }
    }
}

/// Audio stream format
#[derive(Debug, Clone, Copy, PartialEq, Eq, Structural)]
pub struct StreamFormat {
    /// Sample rate in Hz
    pub sample_rate: u32,
    /// Number of channels
    pub channels: u8,
    /// Sample format
    pub sample_format: SampleFormat,
}

/// Bits per sample used for arithmetic: the format's depth, 16 when unknown.
pub open spec fn effective_bits(f: SampleFormat) -> u32 {
    match f.spec_bit_depth() {
        Some(b) => b,
        None => 16,
    }
}

impl StreamFormat {
    /// Human-readable channel layout: "Mono", "Stereo" or "<n>-channel".
    pub open spec fn spec_channel_description(self) -> Seq<char> {
        if self.channels == 1 {
            "Mono"@
        } else if self.channels == 2 {
            "Stereo"@
        } else {
            decimal(self.channels as nat) + "-channel"@
        }
    }

    /// Human-readable description: "<rate> Hz, <channels>, <sample format>".
    pub open spec fn spec_description(self) -> Seq<char> {
        decimal(self.sample_rate as nat) + " Hz, "@ + self.spec_channel_description() + ", "@
            + self.sample_format.spec_description()
    }

    /// Bytes per second of audio in this format.
    pub open spec fn spec_bytes_per_second(self) -> int {
        self.sample_rate * self.channels * (effective_bits(self.sample_format) / 8)
    }

    /// Get a human-readable description of the complete format
    pub fn description(&self) -> (r: String)
        ensures
            r@ == self.spec_description(),
    {
        let mut s = String::new();
        push_decimal(&mut s, self.sample_rate);
        s.append(" Hz, ");
        if self.channels == 1 {
            s.append("Mono");
        } else if self.channels == 2 {
            s.append("Stereo");
        } else {
            push_decimal(&mut s, self.channels as u32);
            s.append("-channel");
        }
        s.append(", ");
        s.append(self.sample_format.description());
        proof {
            assert(s@ =~= self.spec_description());
        }
        s
    }

    /// Check if this is a standard CD quality format (44.1kHz, 16-bit, stereo)
    pub fn is_cd_quality(&self) -> (r: bool)
        ensures
            r == (self.sample_rate == 44100 && self.channels == 2 && (self.sample_format
                == SampleFormat::S16LE || self.sample_format == SampleFormat::S16BE)),
    {
        self.sample_rate == 44100 && self.channels == 2 && matches!(
            self.sample_format,
            SampleFormat::S16LE | SampleFormat::S16BE
        )
    }

    /// Check if this is a high-resolution audio format (>48kHz or >16-bit)
    pub fn is_high_resolution(&self) -> (r: bool)
        ensures
            r == (self.sample_rate > 48000 || effective_bits(self.sample_format) > 16
                || self.sample_format == SampleFormat::F32LE
                || self.sample_format == SampleFormat::F32BE),
    {
        let bits = match self.sample_format.bit_depth() {
            Some(b) => b,
            None => 16,
        };
        self.sample_rate > 48000 || bits > 16 || self.sample_format.is_float()
    }

    /// Calculate bytes per second for this format
    pub fn bytes_per_second(&self) -> (r: u32)
        requires
            self.spec_bytes_per_second() <= u32::MAX,
        ensures
            r == self.spec_bytes_per_second(),
    {
        let bits_per_sample = match self.sample_format.bit_depth() {
            Some(b) => b,
            None => 16,
        };
        assert(bits_per_sample <= 32);
        let bytes = bits_per_sample / 8;
        let ch = self.channels as u32;
        assert(ch * bytes <= 1020) by (nonlinear_arith)
            requires
                ch <= 255,
                bytes <= 4,
        ;
        let frame: u32 = self.channels as u32 * bytes;
        proof {
            assert(self.sample_rate * frame == self.spec_bytes_per_second()) by (nonlinear_arith)
                requires
                    frame == self.channels * bytes,
                    bytes == effective_bits(self.sample_format) / 8,
            ;
        }
        self.sample_rate * frame
    }
}

/// Audio stream information
#[derive(Debug, Clone)]
pub struct StreamInfo {
    /// Stream index
    pub index: StreamIndex,
    /// Stream name
    pub name: String,
    /// Application name
    pub application_name: String,
    /// Stream type
    pub stream_type: StreamType,
    /// Stream state
    pub state: StreamState,
    /// Device this stream is connected to
    pub device_index: DeviceIndex,
    /// Stream volume
    pub volume: VolumeLevels,
    /// Whether stream is muted
    pub muted: bool,
    /// Stream format information
    pub format: StreamFormat,
}

impl StreamInfo {
    /// The properties compared for a `StreamChanged` event are all equal:
    /// name, application name, type, state, device and format.
    pub open spec fn same_properties(&self, other: &StreamInfo) -> bool {
        &&& self.name@ == other.name@
        &&& self.application_name@ == other.application_name@
        &&& self.stream_type == other.stream_type
        &&& self.state == other.state
        &&& self.device_index == other.device_index
        &&& self.format == other.format
    }

    /// Check if stream properties have changed, excluding volume and mute state
    ///
    /// Volume and mute changes are reported through their own events.
    pub fn properties_changed(&self, other: &StreamInfo) -> (r: bool)
        ensures
            r == !self.same_properties(other),
    {
        !(self.name.eq(&other.name) && self.application_name.eq(&other.application_name)
            && self.stream_type == other.stream_type && self.state == other.state
            && self.device_index == other.device_index && self.format == other.format)
    }

    /// Whether this stream records audio (record or capture streams).
    pub fn is_recording(&self) -> (r: bool)
        ensures
            r == (self.stream_type == StreamType::Record || self.stream_type
                == StreamType::Capture),
    {
        matches!(self.stream_type, StreamType::Record | StreamType::Capture)
    }
}

/// Every known sample format is exactly one of floating point, signed
/// integer and unsigned integer, and has a bit depth; the unknown format is
/// none of them and has no bit depth.
pub proof fn law_sample_format_classes(f: SampleFormat)
    ensures
        f.spec_bit_depth().is_none() <==> f == SampleFormat::Unknown,
        f != SampleFormat::Unknown ==> ((f == SampleFormat::F32LE || f == SampleFormat::F32BE)
            as int + (f == SampleFormat::S16LE || f == SampleFormat::S16BE || f
            == SampleFormat::S24LE || f == SampleFormat::S24BE || f == SampleFormat::S32LE || f
            == SampleFormat::S32BE) as int + (f == SampleFormat::U8) as int == 1),
        !(f == SampleFormat::S16LE || f == SampleFormat::S24LE || f == SampleFormat::S32LE || f
            == SampleFormat::F32LE) || !(f == SampleFormat::S16BE || f == SampleFormat::S24BE || f
            == SampleFormat::S32BE || f == SampleFormat::F32BE),
        (f == SampleFormat::F32LE || f == SampleFormat::F32BE) ==> f.spec_bit_depth() == Some(
            32u32,
        ),
{
}

/// A CD-quality format (44.1 kHz, 16-bit, stereo) is not a high-resolution
/// format, and carries 176400 bytes per second.
pub proof fn law_cd_quality_is_not_high_resolution(f: StreamFormat)
    requires
        f.sample_rate == 44100,
        f.channels == 2,
        f.sample_format == SampleFormat::S16LE || f.sample_format == SampleFormat::S16BE,
    ensures
        !(f.sample_rate > 48000 || effective_bits(f.sample_format) > 16
            || f.sample_format == SampleFormat::F32LE || f.sample_format == SampleFormat::F32BE),
        f.spec_bytes_per_second() == 176400,
{
}

/// The bit depth of a known format is the width its description starts
/// with: the description opens with the depth in decimal followed by
/// "-bit" ("32-bit signed PCM ..." has depth 32). Only the unknown format
/// has no depth.
pub proof fn law_bit_depth_is_the_described_width(f: SampleFormat)
    ensures
        match f.spec_bit_depth() {
            Some(w) => {
                let head = decimal(w as nat) + "-bit"@;
                &&& head.len() <= f.spec_description().len()
                &&& f.spec_description().subrange(0, head.len() as int) == head
            },
            None => f == SampleFormat::Unknown,
        },
{
    reveal_strlit("-bit");
    reveal_strlit("8-bit unsigned PCM");
    reveal_strlit("16-bit signed PCM (little-endian)");
    reveal_strlit("16-bit signed PCM (big-endian)");
    reveal_strlit("24-bit signed PCM (little-endian)");
    reveal_strlit("24-bit signed PCM (big-endian)");
    reveal_strlit("32-bit signed PCM (little-endian)");
    reveal_strlit("32-bit signed PCM (big-endian)");
    reveal_strlit("32-bit float PCM (little-endian)");
    reveal_strlit("32-bit float PCM (big-endian)");
    reveal_with_fuel(decimal, 3);
    match f.spec_bit_depth() {
        Some(w) => {
            let head = decimal(w as nat) + "-bit"@;
            assert(f.spec_description().subrange(0, head.len() as int) =~= head);
        },
        None => {},
    }
}

/// A stereo stream of 32-bit samples needs four bytes per channel and
/// sample: its byte rate is eight times its sample rate, for every
/// 32-bit format.
pub proof fn law_32_bit_stereo_byte_rate(rate: u32, f: SampleFormat)
    requires
        f == SampleFormat::S32LE || f == SampleFormat::S32BE || f == SampleFormat::F32LE || f
            == SampleFormat::F32BE,
    ensures
        (StreamFormat { sample_rate: rate, channels: 2, sample_format: f }).spec_bytes_per_second()
            == 8 * rate,
{
    assert(effective_bits(f) / 8 == 4);
    assert(rate * 2 * 4 == 8 * rate) by (nonlinear_arith);
}

} // verus!
