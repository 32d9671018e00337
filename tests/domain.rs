use lanscan::{
    ActivityStatus, DeviceIdentity, DeviceType, Hostname, InterfaceName, IpAddress, Ipv4Address, MacAddress,
    MacAddressError, NetworkDevice, ServiceInfo, ServiceInstanceName, ServiceType, UpnpInfo,
};

#[test]
fn mod_test_placeholder() {
    assert!(true);
}

#[test]
fn test_mac_address_creation() {
    let mac = MacAddress::new("AA:BB:CC:DD:EE:FF".to_string());
    assert!(mac.is_ok());
    assert_eq!(mac.unwrap().as_str(), "AA:BB:CC:DD:EE:FF");
}

#[test]
fn test_mac_address_lowercase() {
    let mac = MacAddress::new("aa:bb:cc:dd:ee:ff".to_string());
    assert!(mac.is_ok());
    assert_eq!(mac.unwrap().as_str(), "AA:BB:CC:DD:EE:FF");
}

#[test]
fn test_mac_address_with_dashes() {
    let mac = MacAddress::new("AA-BB-CC-DD-EE-FF".to_string());
    assert!(mac.is_ok());
    assert_eq!(mac.unwrap().as_str(), "AA:BB:CC:DD:EE:FF");
}

#[test]
fn test_mac_address_invalid_length() {
    let mac = MacAddress::new("AA:BB:CC".to_string());
    assert!(mac.is_err());
}

#[test]
fn test_mac_address_invalid_hex() {
    let mac = MacAddress::new("ZZ:BB:CC:DD:EE:FF".to_string());
    assert!(mac.is_err());
}

#[test]
fn test_mac_address_validation() {
    let valid_mac = MacAddress::new("AA:BB:CC:DD:EE:FF".to_string());
    assert!(valid_mac.is_ok());

    let invalid_mac = MacAddress::new("00:00:00:00:00:00".to_string());
    assert!(invalid_mac.is_ok());
}

#[test]
fn mac_normalization_forms_agree() {
    for text in ["aa:bb:cc:dd:ee:ff", "AA-BB-CC-DD-EE-FF", "AA:BB:CC:DD:EE:FF", "aA-bB:Cc-dD:eE-Ff"] {
        assert_eq!(MacAddress::new(text.to_string()).unwrap().as_str(), "AA:BB:CC:DD:EE:FF");
    }
}

#[test]
fn mac_error_variants() {
    assert_eq!(MacAddress::new("AA:BB:CC".to_string()).unwrap_err(), MacAddressError::InvalidLength);
    assert_eq!(MacAddress::new("".to_string()).unwrap_err(), MacAddressError::InvalidLength);
    assert_eq!(MacAddress::new("ZZ:BB:CC:DD:EE:FF".to_string()).unwrap_err(), MacAddressError::InvalidFormat);
    assert_eq!(MacAddress::new("AABBCCDDEEFF:::::".to_string()).unwrap_err(), MacAddressError::InvalidFormat);
    assert_eq!(MacAddress::new("+A:BB:CC:DD:EE:FF".to_string()).unwrap_err(), MacAddressError::InvalidFormat);
}

#[test]
fn mac_from_upper_turns_dashes_into_colons() {
    let mac = MacAddress::from_upper("01-23-45-67-89-AB").unwrap();
    assert_eq!(mac.to_text(), "01:23:45:67:89:AB");
    assert_eq!(mac.clone().as_str(), "01:23:45:67:89:AB");
    assert_eq!(MacAddress::from_upper("01:23:45:67:89:ab").unwrap_err(), MacAddressError::InvalidFormat);
}

#[test]
fn test_hostname_states() {
    assert_eq!(Hostname::Resolving.to_text(), "Resolving...");
    assert_eq!(Hostname::Resolved("test.local".to_string()).to_text(), "test.local");
    assert_eq!(Hostname::Unknown.to_text(), "Unknown");
}

#[test]
fn test_hostname_resolved_empty() {
    let hostname = Hostname::resolved("".to_string());
    assert_eq!(hostname, Hostname::Unknown);
}

#[test]
fn hostname_resolved_keeps_a_name() {
    assert_eq!(Hostname::resolved("nas01".to_string()), Hostname::Resolved("nas01".to_string()));
}

#[test]
fn test_network_device_creation() {
    let ip = IpAddress::V4(Ipv4Address::new(192, 168, 1, 50));
    let mac = MacAddress::new("AA:BB:CC:DD:EE:FF".to_string()).unwrap();
    let device = NetworkDevice::new(ip, mac, InterfaceName::new("eth0".to_string()));

    assert_eq!(device.ip, ip);
    assert_eq!(device.interface_name, InterfaceName::new("eth0".to_string()));
    assert_eq!(device.hostname, Hostname::Resolving);
    assert!(device.services.is_empty());
    assert!(device.upnp_info.is_none());
    assert_eq!(device.identity, DeviceIdentity::new());
}

#[test]
fn friendly_type_known_and_fallback() {
    let svc = |t: &str| ServiceInfo::new(ServiceType::new(t.to_string()), ServiceInstanceName::new("x".to_string()), 1);
    assert_eq!(svc("_airplay._tcp.local.").friendly_type(), "AirPlay");
    assert_eq!(svc("_smb._tcp.local.").friendly_type(), "File Sharing");
    assert_eq!(svc("_ipp._tcp.local.").friendly_type(), "Printer");
    assert_eq!(svc("_raop._tcp.local.").friendly_type(), "AirTunes");
    assert_eq!(svc("_workstation._tcp.local.").friendly_type(), "workstation");
    assert_eq!(svc("__odd._udp.local..local.").friendly_type(), "odd");
    assert_eq!(svc("plain").friendly_type(), "plain");
}

#[test]
fn activity_buckets() {
    assert_eq!(ActivityStatus::from_elapsed_ms(0), ActivityStatus::Active);
    assert_eq!(ActivityStatus::from_elapsed_ms(29_999), ActivityStatus::Active);
    assert_eq!(ActivityStatus::from_elapsed_ms(30_000), ActivityStatus::Recent);
    assert_eq!(ActivityStatus::from_elapsed_ms(299_999), ActivityStatus::Recent);
    assert_eq!(ActivityStatus::from_elapsed_ms(300_000), ActivityStatus::Idle);
    assert_eq!(ActivityStatus::from_elapsed_ms(1_799_999), ActivityStatus::Idle);
    assert_eq!(ActivityStatus::from_elapsed_ms(1_800_000), ActivityStatus::Stale);
    assert_eq!(ActivityStatus::at(10_000, 5_000), ActivityStatus::Active);
    assert_eq!(ActivityStatus::at(0, 400_000), ActivityStatus::Idle);
}

#[test]
fn fresh_device_is_active() {
    let ip = IpAddress::V4(Ipv4Address::new(10, 0, 0, 2));
    let mac = MacAddress::new("11:22:33:44:55:66".to_string()).unwrap();
    let device = NetworkDevice::new(ip, mac, InterfaceName::new("wlan0".to_string()));
    assert!(device.last_seen > 0);
    assert_eq!(device.activity_status(), ActivityStatus::Active);
    assert_eq!(ActivityStatus::from_last_seen(0), ActivityStatus::Stale);
}

#[test]
fn colorize_wraps_text() {
    assert_eq!(ActivityStatus::Active.colorize("tv"), "<span color='#00FF00'>tv</span>");
    assert_eq!(ActivityStatus::Idle.colorize("tv"), "tv");
    assert_eq!(ActivityStatus::Stale.pango_color(), ("<span color='#888888'>", "</span>"));
}

#[test]
fn identity_format_variants() {
    let mut id = DeviceIdentity::new();
    assert_eq!(id.format(), format!("{} Device", DeviceType::Unknown.as_emoji()));
    id.friendly_name = Some(lanscan::FriendlyName::new("Den".to_string()));
    assert_eq!(id.format(), format!("{} Den", DeviceType::Unknown.as_emoji()));
    id.device_type = DeviceType::Printer;
    id.manufacturer = Some(lanscan::ManufacturerName::new("Brother".to_string()));
    assert_eq!(id.format(), format!("{} Brother", DeviceType::Printer.as_emoji()));
    id.model = Some(lanscan::ModelName::new("HL-2270DW".to_string()));
    assert_eq!(id.format(), format!("{} Brother HL-2270DW", DeviceType::Printer.as_emoji()));
    id.manufacturer = None;
    assert_eq!(id.format(), format!("{} HL-2270DW", DeviceType::Printer.as_emoji()));
    assert_eq!(DeviceType::MobileDevice.as_str(), "Mobile Device");
}

#[test]
fn upnp_info_starts_empty() {
    let u = UpnpInfo::new();
    assert!(u.friendly_name.is_none() && u.manufacturer.is_none() && u.model_name.is_none() && u.device_type.is_none());
    assert_eq!(UpnpInfo::default(), u);
}

#[test]
fn test_network_snapshot_devices_by_interface() {
    let ip1 = IpAddress::V4(Ipv4Address::new(192, 168, 1, 50));
    let ip2 = IpAddress::V4(Ipv4Address::new(192, 168, 1, 51));
    let mac1 = MacAddress::new("AA:BB:CC:DD:EE:FF".to_string()).unwrap();
    let mac2 = MacAddress::new("11:22:33:44:55:66".to_string()).unwrap();

    let device1 = NetworkDevice::new(ip1, mac1, InterfaceName::new("eth0".to_string()));
    let device2 = NetworkDevice::new(ip2, mac2, InterfaceName::new("wlan0".to_string()));

    let snapshot = lanscan::NetworkSnapshot::new(vec![], vec![device1, device2], None, vec![]);

    let by_interface = snapshot.devices_by_interface();
    let get = |name: &str| by_interface.iter().find(|(n, _)| n.as_str() == name).map(|(_, v)| v);
    assert_eq!(by_interface.len(), 2);
    assert_eq!(get("eth0").unwrap().len(), 1);
    assert_eq!(get("wlan0").unwrap().len(), 1);
}

#[test]
fn devices_grouped_in_order_of_first_appearance() {
    let mk = |d: u8, name: &str| {
        NetworkDevice::new(
            IpAddress::V4(Ipv4Address::new(10, 0, 0, d)),
            MacAddress::new("00:11:22:33:44:55".to_string()).unwrap(),
            InterfaceName::new(name.to_string()),
        )
    };
    let snapshot = lanscan::NetworkSnapshot::new(vec![], vec![mk(1, "wlan0"), mk(2, "eth0"), mk(3, "wlan0")], None, vec![]);
    let groups = snapshot.devices_by_interface();
    assert_eq!(groups.len(), 2);
    assert_eq!(groups[0].0.as_str(), "wlan0");
    assert_eq!(groups[0].1, vec![0, 2]);
    assert_eq!(groups[1].0.as_str(), "eth0");
    assert_eq!(groups[1].1, vec![1]);
}
