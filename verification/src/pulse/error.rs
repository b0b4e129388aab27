//! PulseAudio service errors.

use vstd::prelude::*;

use crate::pulse::device::DeviceIndex;
use crate::pulse::stream::StreamIndex;

verus! {

/// PulseAudio service errors
#[derive(Debug, Clone, PartialEq, Eq)]
pub enum PulseError {
    /// PulseAudio connection failed
    ConnectionFailed(String),
    /// PulseAudio operation failed
    OperationFailed(String),
    /// Device not found
    DeviceNotFound(DeviceIndex),
    /// Stream not found
    StreamNotFound(StreamIndex),
    /// Thread communication failed
    ThreadCommunication,
    /// Service initialization failed
    InitializationFailed(String),
}

} // verus!
