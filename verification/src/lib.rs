//! Verified core of the Wayle desktop services: the PulseAudio device and
//! stream model and its bookkeeping, and the NetworkManager decision logic.

pub mod keyed;
pub mod network;
pub mod pulse;
pub mod text;
