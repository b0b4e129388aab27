use wayle::network::discovery::{
    find_device_path, DeviceCandidate, DeviceSearch, NM_DEVICE_TYPE_ETHERNET, NM_DEVICE_TYPE_WIFI,
};
use wayle::network::ip6::{
    address_from_parts, keep_specified, route_from_parts, AddressEntry, Ip6Config,
    Ip6ConfigProperties, Ipv6Address, Ipv6Route, NameserverEntry, RouteEntry,
};
use wayle::network::mac::parse_mac_address;
use wayle::network::monitoring::{ConnectionType, DeviceAddedAction, NetworkMonitoring, RemovedDevice};
use wayle::network::wifi::{SettingValue, WifiControls};

fn candidate(path: &str, device_type: u32, active: &str) -> DeviceCandidate {
    DeviceCandidate {
        path: path.to_string(),
        device_type,
        active_connection: active.to_string(),
    }
}

#[test]
fn manufacturer_default_ssids() {
    assert!(WifiControls::is_manufacturer_default("linksys"));
    assert!(WifiControls::is_manufacturer_default("NETGEAR"));
    assert!(WifiControls::is_manufacturer_default("ALICE-WLAN"));
    assert!(!WifiControls::is_manufacturer_default("netgear"));
    assert!(!WifiControls::is_manufacturer_default("MyHome"));
    assert!(!WifiControls::is_manufacturer_default(""));
}

#[test]
fn active_connection_paths() {
    assert!(!WifiControls::has_active_connection("/"));
    assert!(!WifiControls::has_active_connection(""));
    assert!(WifiControls::has_active_connection("/org/freedesktop/NetworkManager/ActiveConnection/3"));
}

#[test]
fn mac_addresses_are_read_as_hex_bytes() {
    assert_eq!(parse_mac_address("aa:BB:0c:d:+e:ff"), Some(vec![0xaa, 0xbb, 0x0c, 0x0d, 0x0e, 0xff]));
    assert_eq!(parse_mac_address("0000ff"), Some(vec![0xff]));
    assert_eq!(parse_mac_address("100"), None);
    assert_eq!(parse_mac_address("aa::bb"), None);
    assert_eq!(parse_mac_address(""), None);
    assert_eq!(parse_mac_address("+"), None);
    assert_eq!(parse_mac_address("-1"), None);
    assert_eq!(parse_mac_address("gg:00"), None);
}

#[test]
fn wifi_profile_without_password() {
    let settings = WifiControls::build_connection_settings(
        "Home".to_string(),
        b"Home".to_vec(),
        None,
        None,
    );
    assert_eq!(settings.sections.len(), 2);
    assert_eq!(settings.sections[0].name, "connection");
    assert_eq!(settings.sections[0].entries[0].key, "type");
    assert_eq!(settings.sections[0].entries[0].value, SettingValue::Text("802-11-wireless".to_string()));
    assert_eq!(settings.sections[0].entries[1].value, SettingValue::Text("Home".to_string()));
    assert_eq!(settings.sections[1].name, "802-11-wireless");
    assert_eq!(settings.sections[1].entries.len(), 1);
    assert_eq!(settings.sections[1].entries[0].value, SettingValue::Bytes(b"Home".to_vec()));
}

#[test]
fn wifi_profile_with_bssid_and_password() {
    let settings = WifiControls::build_connection_settings(
        "linksys".to_string(),
        b"linksys".to_vec(),
        Some("00:11:22:33:44:55".to_string()),
        Some("secret".to_string()),
    );
    assert_eq!(settings.sections.len(), 3);
    assert_eq!(settings.sections[1].entries[1].key, "bssid");
    assert_eq!(settings.sections[1].entries[1].value, SettingValue::Bytes(vec![0, 0x11, 0x22, 0x33, 0x44, 0x55]));
    assert_eq!(settings.sections[2].name, "802-11-wireless-security");
    assert_eq!(settings.sections[2].entries[0].value, SettingValue::Text("wpa-psk".to_string()));
    assert_eq!(settings.sections[2].entries[1].key, "psk");
    assert_eq!(settings.sections[2].entries[1].value, SettingValue::Text("secret".to_string()));
    let unreadable = WifiControls::build_connection_settings(
        "x".to_string(),
        b"x".to_vec(),
        Some("not-a-mac".to_string()),
        None,
    );
    assert_eq!(unreadable.sections[1].entries.len(), 1);
}

#[test]
fn device_search_first_of_type() {
    let devices = vec![
        candidate("/d/1", NM_DEVICE_TYPE_ETHERNET, "/"),
        candidate("/d/2", NM_DEVICE_TYPE_WIFI, "/"),
        candidate("/d/3", NM_DEVICE_TYPE_WIFI, "/a/1"),
    ];
    assert_eq!(find_device_path(&devices, NM_DEVICE_TYPE_WIFI, false), Some("/d/2".to_string()));
    assert_eq!(find_device_path(&devices, NM_DEVICE_TYPE_WIFI, true), Some("/d/3".to_string()));
    assert_eq!(find_device_path(&devices, NM_DEVICE_TYPE_ETHERNET, true), Some("/d/1".to_string()));
    assert_eq!(find_device_path(&devices, 14, false), None);
}

#[test]
fn device_search_steps() {
    let mut search = DeviceSearch::new(NM_DEVICE_TYPE_WIFI, true);
    assert!(search.wants(NM_DEVICE_TYPE_WIFI));
    assert!(!search.wants(NM_DEVICE_TYPE_ETHERNET));
    assert!(search.needs_active_connection());
    assert_eq!(search.accept("/d/1".to_string(), "/"), None);
    assert_eq!(search.accept("/d/2".to_string(), "/"), None);
    assert_eq!(search.finish(), Some("/d/2".to_string()));
}

#[test]
fn monitoring_decisions() {
    assert_eq!(NetworkMonitoring::device_added_action(NM_DEVICE_TYPE_WIFI, false, true), DeviceAddedAction::CreateWifi);
    assert_eq!(NetworkMonitoring::device_added_action(NM_DEVICE_TYPE_WIFI, true, false), DeviceAddedAction::Ignore);
    assert_eq!(NetworkMonitoring::device_added_action(NM_DEVICE_TYPE_ETHERNET, true, false), DeviceAddedAction::CreateWired);
    assert_eq!(NetworkMonitoring::device_added_action(5, false, false), DeviceAddedAction::Ignore);
    assert_eq!(NetworkMonitoring::device_removed("/d/1", Some("/d/1"), Some("/d/1")), RemovedDevice::Wifi);
    assert_eq!(NetworkMonitoring::device_removed("/d/2", Some("/d/1"), Some("/d/2")), RemovedDevice::Wired);
    assert_eq!(NetworkMonitoring::device_removed("/d/3", None, Some("/d/2")), RemovedDevice::Unknown);
    assert_eq!(NetworkMonitoring::primary_connection_type("/a/1", Some("/a/1"), None), ConnectionType::Wifi);
    assert_eq!(NetworkMonitoring::primary_connection_type("/a/2", Some("/a/1"), Some("/a/2")), ConnectionType::Wired);
    assert_eq!(NetworkMonitoring::primary_connection_type("/", None, None), ConnectionType::Unknown);
}

#[test]
fn ip6_configuration_is_read() {
    let props = Ip6ConfigProperties {
        address_data: vec![
            AddressEntry { address: Some("fe80::1".to_string()), prefix: Some(64) },
            AddressEntry { address: Some("garbage".to_string()), prefix: Some(64) },
            AddressEntry { address: Some("2001:db8::2".to_string()), prefix: None },
            AddressEntry { address: Some("::1".to_string()), prefix: Some(384) },
        ],
        gateway: "fe80::ff".to_string(),
        nameserver_data: vec![
            NameserverEntry { address: Some("2001:4860:4860::8888".to_string()) },
            NameserverEntry { address: None },
        ],
        domains: vec!["lan".to_string()],
        searches: vec![],
        dns_options: vec![],
        dns_priority: 100,
        route_data: vec![
            RouteEntry {
                dest: Some("::".to_string()),
                prefix: Some(0),
                next_hop: Some("fe80::ff".to_string()),
                metric: Some(600),
            },
            RouteEntry {
                dest: Some("fe80::".to_string()),
                prefix: Some(64),
                next_hop: Some("::".to_string()),
                metric: None,
            },
            RouteEntry { dest: Some("bad".to_string()), prefix: Some(1), next_hop: None, metric: None },
        ],
    };
    let config = Ip6Config::from_props("/ip6/1".to_string(), props);
    assert_eq!(config.address_data.len(), 2);
    assert_eq!(config.address_data[0].address, 0xfe80_0000_0000_0000_0000_0000_0000_0001);
    assert_eq!(config.address_data[0].prefix, 64);
    assert_eq!(config.address_data[1].address, 1);
    assert_eq!(config.address_data[1].prefix, 128);
    assert_eq!(config.gateway, Some(0xfe80_0000_0000_0000_0000_0000_0000_00ff));
    assert_eq!(config.nameservers, vec![0x2001_4860_4860_0000_0000_0000_0000_8888]);
    assert_eq!(config.route_data.len(), 2);
    assert_eq!(config.route_data[0].destination, 0);
    assert_eq!(config.route_data[0].next_hop, Some(0xfe80_0000_0000_0000_0000_0000_0000_00ff));
    assert_eq!(config.route_data[0].metric, Some(600));
    assert_eq!(config.route_data[1].next_hop, None);
    assert_eq!(config.dns_priority, 100);
    assert_eq!(Ip6Config::parse_gateway("::"), None);
    assert_eq!(Ip6Config::parse_gateway(""), None);
}

#[test]
fn ip6_items_from_read_addresses() {
    assert_eq!(keep_specified(Some(0)), None);
    assert_eq!(keep_specified(Some(1)), Some(1));
    assert_eq!(keep_specified(None), None);
    assert_eq!(
        address_from_parts(Some(42), 64),
        Some(Ipv6Address { address: 42, prefix: 64 })
    );
    assert_eq!(
        address_from_parts(Some(42), 300),
        Some(Ipv6Address { address: 42, prefix: 44 })
    );
    assert_eq!(address_from_parts(None, 64), None);
    assert_eq!(
        route_from_parts(Some(7), 48, Some(0), Some(100)),
        Some(Ipv6Route { destination: 7, prefix: 48, next_hop: None, metric: Some(100) })
    );
    assert_eq!(
        route_from_parts(Some(7), 48, Some(9), None),
        Some(Ipv6Route { destination: 7, prefix: 48, next_hop: Some(9), metric: None })
    );
    assert_eq!(route_from_parts(None, 48, Some(9), None), None);
}
