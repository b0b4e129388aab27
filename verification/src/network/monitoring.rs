//! Reactions to device and primary-connection changes.

use vstd::prelude::*;

use crate::network::discovery::{NM_DEVICE_TYPE_ETHERNET, NM_DEVICE_TYPE_WIFI};
use crate::text::str_eq;

verus! {

/// Kind of the primary network connection.
#[derive(Debug, Clone, Copy, PartialEq, Eq, Structural)]
pub enum ConnectionType {
    /// The Wi-Fi device's connection
    Wifi,
    /// The wired device's connection
    Wired,
    /// Neither, or not known
    Unknown,
}

/// What to do when NetworkManager reports a new device.
#[derive(Debug, Clone, Copy, PartialEq, Eq, Structural)]
pub enum DeviceAddedAction {
    /// Build the Wi-Fi service on the new device
    CreateWifi,
    /// Build the wired service on the new device
    CreateWired,
    /// Leave the services as they are
    Ignore,
}

/// Which service a removed device belonged to.
#[derive(Debug, Clone, Copy, PartialEq, Eq, Structural)]
pub enum RemovedDevice {
    /// The Wi-Fi service's device: clear the Wi-Fi service
    Wifi,
    /// The wired service's device: clear the wired service
    Wired,
    /// Neither
    Unknown,
}

/// Network monitoring decisions
pub struct NetworkMonitoring;

impl NetworkMonitoring {
    /// A new Wi-Fi device gets a service only when there is no Wi-Fi service
    /// yet, a new Ethernet device only when there is no wired service yet;
    /// other devices are ignored.
    pub fn device_added_action(device_type: u32, has_wifi: bool, has_wired: bool) -> (r:
        DeviceAddedAction)
        ensures
            r == (if device_type == NM_DEVICE_TYPE_WIFI && !has_wifi {
                DeviceAddedAction::CreateWifi
            } else if device_type == NM_DEVICE_TYPE_ETHERNET && !has_wired {
                DeviceAddedAction::CreateWired
            } else {
                DeviceAddedAction::Ignore
            }),
    {
        if device_type == NM_DEVICE_TYPE_WIFI {
            if has_wifi {
                DeviceAddedAction::Ignore
            } else {
                DeviceAddedAction::CreateWifi
            }
        } else if device_type == NM_DEVICE_TYPE_ETHERNET {
            if has_wired {
                DeviceAddedAction::Ignore
            } else {
                DeviceAddedAction::CreateWired
            }
        } else {
            DeviceAddedAction::Ignore
        }
    }

    /// The service whose device was removed: the Wi-Fi service if its device
    /// has the removed path, else the wired service if its device has it.
    pub fn device_removed(removed_path: &str, wifi_path: Option<&str>, wired_path: Option<&str>) -> (r:
        RemovedDevice)
        ensures
            r == (if wifi_path matches Some(w) && w@ == removed_path@ {
                RemovedDevice::Wifi
            } else if wired_path matches Some(w) && w@ == removed_path@ {
                RemovedDevice::Wired
            } else {
                RemovedDevice::Unknown
            }),
    {
        if let Some(w) = wifi_path {
            if str_eq(w, removed_path) {
                return RemovedDevice::Wifi;
            }
        }
        if let Some(w) = wired_path {
            if str_eq(w, removed_path) {
                return RemovedDevice::Wired;
            }
        }
        RemovedDevice::Unknown
    }

    /// The primary connection's kind: Wi-Fi if it is the Wi-Fi service's
    /// active connection, else wired if it is the wired service's, else
    /// unknown.
    pub fn primary_connection_type(
        primary: &str,
        wifi_active: Option<&str>,
        wired_active: Option<&str>,
    ) -> (r: ConnectionType)
        ensures
            r == (if wifi_active matches Some(w) && w@ == primary@ {
                ConnectionType::Wifi
            } else if wired_active matches Some(w) && w@ == primary@ {
                ConnectionType::Wired
            } else {
                ConnectionType::Unknown
            }),
    {
        if let Some(w) = wifi_active {
            if str_eq(w, primary) {
                return ConnectionType::Wifi;
            }
        }
        if let Some(w) = wired_active {
            if str_eq(w, primary) {
                return ConnectionType::Wired;
            }
        }
        ConnectionType::Unknown
    }
}

} // verus!
