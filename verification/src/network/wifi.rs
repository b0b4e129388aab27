//! Wi-Fi connection decisions: which networks are locked to their access
//! point, what a new connection profile holds, and when a device has an
//! active connection to tear down.

use vstd::prelude::*;

use crate::network::mac::{parse_mac_address, spec_parse_mac};
use crate::text::str_eq;

verus! {

/// One value of a connection profile setting.
#[derive(Debug, Clone, PartialEq, Eq)]
pub enum SettingValue {
    /// A string value
    Text(String),
    /// A byte array value
    Bytes(Vec<u8>),
}

/// One key and value of a settings section.
#[derive(Debug, Clone, PartialEq, Eq)]
pub struct SettingEntry {
    /// Property name
    pub key: String,
    /// Property value
    pub value: SettingValue,
}

/// One named section of a connection profile ("connection", "802-11-wireless", ...).
#[derive(Debug, Clone, PartialEq, Eq)]
pub struct SettingsSection {
    /// Setting name
    pub name: String,
    /// The section's properties
    pub entries: Vec<SettingEntry>,
}

/// A connection profile: its settings sections.
#[derive(Debug, Clone, PartialEq, Eq)]
pub struct ConnectionSettings {
    /// The sections, each name once
    pub sections: Vec<SettingsSection>,
}

/// The value of a setting, as text or bytes.
pub enum ValueModel {
    /// A string value
    Text(Seq<char>),
    /// A byte array value
    Bytes(Seq<u8>),
}

/// The mathematical content of a setting value.
pub open spec fn value_model(v: SettingValue) -> ValueModel {
    match v {
        SettingValue::Text(s) => ValueModel::Text(s@),
        SettingValue::Bytes(b) => ValueModel::Bytes(b@),
    }
}

/// The mathematical content of a settings section: its name and its
/// key/value pairs in order.
pub open spec fn section_model(s: SettingsSection) -> (Seq<char>, Seq<(Seq<char>, ValueModel)>) {
    (s.name@, s.entries@.map_values(|e: SettingEntry| (e.key@, value_model(e.value))))
}

/// The mathematical content of a connection profile.
pub open spec fn settings_model(c: ConnectionSettings) -> Seq<(Seq<char>, Seq<(Seq<char>, ValueModel)>)> {
    c.sections@.map_values(|s: SettingsSection| section_model(s))
}

/// The profile for joining a Wi-Fi network: a "connection" section (type
/// and id), a "802-11-wireless" section (SSID bytes, and the BSSID bytes
/// when a BSSID is given and can be read), and, with a password, a
/// "802-11-wireless-security" section using WPA-PSK.
pub open spec fn wifi_settings_model(
    ssid: Seq<char>,
    ssid_bytes: Seq<u8>,
    bssid: Option<Seq<char>>,
    password: Option<Seq<char>>,
) -> Seq<(Seq<char>, Seq<(Seq<char>, ValueModel)>)> {
    let connection = (
        "connection"@,
        seq![
            ("type"@, ValueModel::Text("802-11-wireless"@)),
            ("id"@, ValueModel::Text(ssid)),
        ],
    );
    let ssid_entry = seq![("ssid"@, ValueModel::Bytes(ssid_bytes))];
    let wireless_entries = match bssid {
        Some(b) => match spec_parse_mac(b) {
            Some(bytes) => ssid_entry.push(("bssid"@, ValueModel::Bytes(bytes))),
            None => ssid_entry,
        },
        None => ssid_entry,
    };
    let base = seq![connection, ("802-11-wireless"@, wireless_entries)];
    match password {
        Some(p) => base.push(
            (
                "802-11-wireless-security"@,
                seq![("key-mgmt"@, ValueModel::Text("wpa-psk"@)), ("psk"@, ValueModel::Text(p))],
            ),
        ),
        None => base,
    }
}

/// SSIDs that routers ship with by default. Connections to networks with
/// these names are locked to the access point's BSSID, so that a neighbour's
/// router of the same make is not joined by mistake.
pub open spec fn manufacturer_default_ssids() -> Seq<Seq<char>> {
    seq![
        "linksys"@,
        "linksys-a"@,
        "linksys-g"@,
        "default"@,
        "belkin54g"@,
        "NETGEAR"@,
        "o2DSL"@,
        "WLAN"@,
        "ALICE-WLAN"@,
    ]
}

/// Whether an active-connection object path names a connection ("/" and
/// the empty path mean none).
pub open spec fn names_connection(path: Seq<char>) -> bool {
    path != "/"@ && path.len() != 0
}

/// The text of an optional string.
pub open spec fn opt_text(o: Option<String>) -> Option<Seq<char>> {
    match o {
        Some(s) => Some(s@),
        None => None,
    }
}

fn text(s: &str) -> (r: String)
    ensures
        r@ == s@,
{
    s.to_owned()
}

fn entry(key: &str, value: SettingValue) -> (r: SettingEntry)
    ensures
        r.key@ == key@,
        r.value == value,
{
    SettingEntry { key: text(key), value }
}

/// Wi-Fi controls
pub struct WifiControls;

impl WifiControls {
    /// Whether the SSID is one that routers ship with by default.
    pub fn is_manufacturer_default(ssid: &str) -> (r: bool)
        ensures
            r == manufacturer_default_ssids().contains(ssid@),
    {
        let ghost l = manufacturer_default_ssids();
        let r = str_eq(ssid, "linksys") || str_eq(ssid, "linksys-a") || str_eq(ssid, "linksys-g")
            || str_eq(ssid, "default") || str_eq(ssid, "belkin54g") || str_eq(ssid, "NETGEAR")
            || str_eq(ssid, "o2DSL") || str_eq(ssid, "WLAN") || str_eq(ssid, "ALICE-WLAN");
        proof {
            if r {
                if ssid@ == "linksys"@ { assert(l[0] == ssid@); }
                else if ssid@ == "linksys-a"@ { assert(l[1] == ssid@); }
                else if ssid@ == "linksys-g"@ { assert(l[2] == ssid@); }
                else if ssid@ == "default"@ { assert(l[3] == ssid@); }
                else if ssid@ == "belkin54g"@ { assert(l[4] == ssid@); }
                else if ssid@ == "NETGEAR"@ { assert(l[5] == ssid@); }
                else if ssid@ == "o2DSL"@ { assert(l[6] == ssid@); }
                else if ssid@ == "WLAN"@ { assert(l[7] == ssid@); }
                else { assert(l[8] == ssid@); }
            } else {
                assert forall|i: int| 0 <= i < l.len() implies l[i] != ssid@ by {}
            }
        }
        r
    }

    /// Whether the device's active-connection path names a connection, that
    /// is, whether disconnecting has anything to deactivate.
    pub fn has_active_connection(active_connection_path: &str) -> (r: bool)
        ensures
            r == names_connection(active_connection_path@),
    {
        !(str_eq(active_connection_path, "/") || active_connection_path.unicode_len() == 0)
    }

    /// Builds the profile for joining a Wi-Fi network.
    pub fn build_connection_settings(
        ssid_string: String,
        ssid_bytes: Vec<u8>,
        bssid: Option<String>,
        password: Option<String>,
    ) -> (r: ConnectionSettings)
        ensures
            settings_model(r) == wifi_settings_model(
                ssid_string@,
                ssid_bytes@,
                opt_text(bssid),
                opt_text(password),
            ),
    {
        let ghost ssid_view = ssid_string@;
        let ghost bytes_view = ssid_bytes@;
        let mut connection: Vec<SettingEntry> = Vec::new();
        connection.push(entry("type", SettingValue::Text(text("802-11-wireless"))));
        connection.push(entry("id", SettingValue::Text(ssid_string)));
        let mut sections: Vec<SettingsSection> = Vec::new();
        sections.push(SettingsSection { name: text("connection"), entries: connection });

        let mut wireless: Vec<SettingEntry> = Vec::new();
        wireless.push(entry("ssid", SettingValue::Bytes(ssid_bytes)));
        let ghost bssid_view = opt_text(bssid);
        if let Some(bssid_str) = bssid {
            if let Some(bytes) = parse_mac_address(bssid_str.as_str()) {
                wireless.push(entry("bssid", SettingValue::Bytes(bytes)));
            }
        }
        sections.push(SettingsSection { name: text("802-11-wireless"), entries: wireless });

        let ghost password_view = opt_text(password);
        if let Some(pwd) = password {
            let mut security: Vec<SettingEntry> = Vec::new();
            security.push(entry("key-mgmt", SettingValue::Text(text("wpa-psk"))));
            security.push(entry("psk", SettingValue::Text(pwd)));
            sections.push(SettingsSection { name: text("802-11-wireless-security"), entries: security });
        }
        let r = ConnectionSettings { sections };
        proof {
            let m = settings_model(r);
            let e = wifi_settings_model(ssid_view, bytes_view, bssid_view, password_view);
            assert forall|i: int| 0 <= i < m.len() implies m[i].1 =~= e[i].1 by {}
            assert(m =~= e);
        }
        r
    }
}

/// A Wi-Fi profile always has its connection and wireless sections first;
/// it has a third, WPA-PSK security section exactly when a password is
/// given; and it records a BSSID exactly when one is given and can be read.
pub proof fn law_wifi_profile_shape(
    ssid: Seq<char>,
    ssid_bytes: Seq<u8>,
    bssid: Option<Seq<char>>,
    password: Option<Seq<char>>,
)
    ensures
        ({
            let m = wifi_settings_model(ssid, ssid_bytes, bssid, password);
            &&& m.len() == (if password.is_some() { 3int } else { 2int })
            &&& m[0].0 == "connection"@
            &&& m[1].0 == "802-11-wireless"@
            &&& m[1].1.len() == (if bssid matches Some(b) && spec_parse_mac(b).is_some() {
                2int
            } else {
                1int
            })
            &&& password matches Some(p) ==> m[2].0 == "802-11-wireless-security"@ && m[2].1[1]
                == ("psk"@, ValueModel::Text(p))
        }),
{
}

} // verus!
