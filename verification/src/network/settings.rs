//! Connection settings profiles.

use vstd::prelude::*;

verus! {

/// Connection Settings Profile.
///
/// Represents a single network connection configuration stored in NetworkManager.
/// This includes the connection's settings, whether it has unsaved changes, and
/// where it's stored on disk (if file-backed).
#[derive(Debug, Clone, PartialEq, Eq)]
pub struct SettingsConnection {
    /// If set, indicates that the in-memory state of the connection does not
    /// match the on-disk state.
    pub unsaved: bool,
    /// Additional flags of the connection profile (NMSettingsConnectionFlags bits).
    pub flags: u32,
    /// File that stores the connection in case the connection is file-backed.
    pub filename: String,
}

} // verus!
