//! NetworkManager domain: the decisions taken around D-Bus calls.

pub mod mac;
pub mod wifi;
pub mod discovery;
pub mod monitoring;
pub mod ip6;
pub mod ip4;
pub mod settings;
