//! PulseAudio domain: devices, streams, their stores and the backend's
//! decisions.

pub mod store;
pub mod stream;
pub mod backend;
pub mod conversion;
pub mod device;
pub mod error;
pub mod volume;
