use lanscan::discovery::{browsed_service_types, instance_label, record_resolved_service, ServicesByAddress};
use lanscan::sweep::{generate_subnet_ips, subnets_to_scan};
use lanscan::tables::{
    devices_from_neighbors, nameserver_entries, parse_default_gateway, parse_hex_ip, parse_neighbor_entries,
    HexAddressError, NeighborEntry,
};
use lanscan::{
    AddressMap, Gateway, Hostname, InterfaceName, IpAddress, Ipv4Address, Ipv6Address, NetworkDevice,
    NetworkInterface, SsdpDiscovery, UpnpDeviceInfo,
};

/// Reads the address texts these tests use: dotted quads, and `fe80::1`.
fn address_of(text: &str) -> Option<IpAddress> {
    if text == "fe80::1" {
        Some(IpAddress::V6(Ipv6Address((0xfe80u128 << 112) | 1)))
    } else {
        Ipv4Address::parse(text).map(IpAddress::V4)
    }
}

fn parse_arp_table(content: &str) -> Vec<NetworkDevice> {
    let entries = parse_neighbor_entries(content);
    let addresses: Vec<Option<IpAddress>> = entries.iter().map(|e| address_of(&e.address)).collect();
    devices_from_neighbors(&entries, &addresses)
}

const ARP_HEADER: &str = "IP address       HW type     Flags       HW address            Mask     Device";

#[test]
fn test_parse_arp_line_complete() {
    let line = "192.168.1.50     0x1         0x2         aa:bb:cc:dd:ee:ff     *        eth0";
    let parts: Vec<&str> = line.split_whitespace().collect();

    assert_eq!(parts[0], "192.168.1.50");
    assert_eq!(parts[2], "0x2");
    assert_eq!(parts[3], "aa:bb:cc:dd:ee:ff");
    assert_eq!(parts[5], "eth0");

    let devices = parse_arp_table(&format!("{}\n{}\n", ARP_HEADER, line));
    assert_eq!(devices.len(), 1);
    assert_eq!(devices[0].ip, IpAddress::V4(Ipv4Address::new(192, 168, 1, 50)));
    assert_eq!(devices[0].mac.as_str(), "AA:BB:CC:DD:EE:FF");
    assert_eq!(devices[0].interface_name.as_str(), "eth0");
}

#[test]
fn test_parse_arp_line_incomplete() {
    let line = "192.168.1.51     0x1         0x0         00:00:00:00:00:00     *        eth0";
    let parts: Vec<&str> = line.split_whitespace().collect();

    assert_eq!(parts[2], "0x0");
    assert!(parse_arp_table(&format!("{}\n{}\n", ARP_HEADER, line)).is_empty());
}

#[test]
fn arp_table_skips_bad_rows() {
    let content = format!(
        "{}\n{}\n{}\n{}\n{}\n{}\n",
        ARP_HEADER,
        "192.168.1.10 0x1 0x2 11:22:33:44:55:66 * eth0",
        "192.168.1.11 0x1 0x2 11:22:33:44:55 * eth0",
        "192.168.1.300 0x1 0x2 11:22:33:44:55:67 * eth0",
        "192.168.1.12 0x1 0x2 11:22:33:44:55:68",
        "10.0.0.7 0x1 0x2 AA-BB-CC-DD-EE-01 * wlan0",
    );
    let devices = parse_arp_table(&content);
    assert_eq!(devices.len(), 2);
    assert_eq!(devices[0].ip, IpAddress::V4(Ipv4Address::new(192, 168, 1, 10)));
    assert_eq!(devices[1].mac.as_str(), "AA:BB:CC:DD:EE:01");
    assert_eq!(devices[1].interface_name.as_str(), "wlan0");
    assert_eq!(devices[1].hostname, Hostname::Resolving);
    assert!(parse_arp_table("").is_empty());
    assert!(parse_arp_table(ARP_HEADER).is_empty());
}

#[test]
fn neighbor_fields_one_row() {
    let fields: Vec<String> = ["10.1.2.3", "0x1", "0x2", "de:ad:be:ef:00:01", "*", "br0"].iter().map(|s| s.to_string()).collect();
    let e = NeighborEntry::from_fields(&fields).unwrap();
    assert_eq!(e.address, "10.1.2.3");
    assert_eq!(e.mac.as_str(), "DE:AD:BE:EF:00:01");
    assert_eq!(e.interface_name.as_str(), "br0");
    assert!(NeighborEntry::from_fields(&fields[..5].to_vec()).is_none());
}

#[test]
fn neighbor_rows_with_ipv6_address_are_kept() {
    let table = format!("{}
fe80::1 0x1 0x2 aa:bb:cc:dd:ee:01 * eth0
", ARP_HEADER);
    let devices = parse_arp_table(&table);
    assert_eq!(devices.len(), 1);
    assert_eq!(devices[0].ip, IpAddress::V6(Ipv6Address((0xfe80u128 << 112) | 1)));
}

#[test]
fn neighbor_table_keeps_first_row_per_address() {
    let table = format!(
        "{}
{}
{}
{}
",
        ARP_HEADER,
        "192.168.1.20 0x1 0x2 aa:aa:aa:aa:aa:01 * eth0",
        "192.168.1.21 0x1 0x2 aa:aa:aa:aa:aa:02 * eth0",
        "192.168.1.20 0x1 0x2 aa:aa:aa:aa:aa:03 * wlan0",
    );
    let devices = parse_arp_table(&table);
    assert_eq!(devices.len(), 2);
    assert_eq!(devices[0].mac.as_str(), "AA:AA:AA:AA:AA:01");
    assert_eq!(devices[0].interface_name.as_str(), "eth0");
    assert_eq!(devices[1].ip, IpAddress::V4(Ipv4Address::new(192, 168, 1, 21)));
    assert_eq!(parse_neighbor_entries(&table).len(), 3);
}

#[test]
fn unreadable_addresses_are_skipped() {
    let table = format!("{}
not-an-ip 0x1 0x2 aa:aa:aa:aa:aa:01 * eth0
", ARP_HEADER);
    assert_eq!(parse_neighbor_entries(&table).len(), 1);
    assert!(parse_arp_table(&table).is_empty());
}

#[test]
fn lines_drop_carriage_returns_before_newlines() {
    let table = format!("{}\r\n192.168.1.10 0x1 0x2 11:22:33:44:55:66 * eth0\r\n", ARP_HEADER);
    let entries = parse_neighbor_entries(&table);
    assert_eq!(entries.len(), 1);
    assert_eq!(entries[0].interface_name.as_str(), "eth0");
}

#[test]
fn test_parse_hex_ip() {
    assert_eq!(parse_hex_ip("0101A8C0").unwrap(), Ipv4Address::new(192, 168, 1, 1));
    assert_eq!(parse_hex_ip("00000000").unwrap(), Ipv4Address::new(0, 0, 0, 0));
    assert_eq!(parse_hex_ip("FE00A8C0").unwrap(), Ipv4Address::new(192, 168, 0, 254));
    assert_eq!(parse_hex_ip("fe00a8c0").unwrap(), Ipv4Address::new(192, 168, 0, 254));
}

#[test]
fn test_parse_hex_ip_invalid() {
    let result = parse_hex_ip("ZZZZ");
    assert!(result.is_err());

    let result = parse_hex_ip("01A8C0");
    assert!(result.is_err());

    assert_eq!(parse_hex_ip("01A8C0"), Err(HexAddressError::InvalidLength));
    assert_eq!(parse_hex_ip("0101A8CG"), Err(HexAddressError::InvalidHex));
}

#[test]
fn hex_address_may_carry_a_plus_sign() {
    assert_eq!(parse_hex_ip("+101A8C0").unwrap(), Ipv4Address::new(192, 168, 1, 1));
    assert_eq!(parse_hex_ip("+0000000").unwrap(), Ipv4Address::new(0, 0, 0, 0));
    assert_eq!(parse_hex_ip("++01A8C0"), Err(HexAddressError::InvalidHex));
    assert_eq!(parse_hex_ip("-101A8C0"), Err(HexAddressError::InvalidHex));
    assert_eq!(parse_hex_ip("+0101A8C0"), Err(HexAddressError::InvalidLength));
    let table = "Iface Destination Gateway Flags\neth0 00000000 +101A8C0 0003\n";
    assert_eq!(parse_default_gateway(table), Some(Gateway(IpAddress::V4(Ipv4Address::new(192, 168, 1, 1)))));
}

#[test]
fn fields_split_on_unicode_whitespace() {
    let table = format!("{}\n192.168.1.10\u{00A0}0x1\u{2003}0x2\t11:22:33:44:55:66\u{3000}*  eth0\n", ARP_HEADER);
    let entries = parse_neighbor_entries(&table);
    assert_eq!(entries.len(), 1);
    assert_eq!(entries[0].address, "192.168.1.10");
    assert_eq!(entries[0].interface_name.as_str(), "eth0");
}

#[test]
fn interface_from_system_report() {
    let v6 = IpAddress::V6(Ipv6Address(1));
    let v4 = IpAddress::V4(Ipv4Address::new(10, 0, 0, 4));
    let i = NetworkInterface::from_system("eth0".to_string(), &vec![v6, v4], Some("aa-bb-cc-dd-ee-ff".to_string())).unwrap();
    assert_eq!(i.ip, v4);
    assert_eq!(i.mac.unwrap().as_str(), "AA:BB:CC:DD:EE:FF");
    let j = NetworkInterface::from_system("lo".to_string(), &vec![v4], Some("bogus".to_string())).unwrap();
    assert!(j.mac.is_none());
    assert!(NetworkInterface::from_system("v6only".to_string(), &vec![v6], None).is_none());
}

#[test]
fn test_parse_route_line() {
    let line = "eno1\t00000000\t0101A8C0\t0003\t0\t0\t1002\t00000000\t0\t0\t0";
    let parts: Vec<&str> = line.split_whitespace().collect();

    assert_eq!(parts[1], "00000000");
    assert_eq!(parts[2], "0101A8C0");

    let table = format!("Iface\tDestination\tGateway\tFlags\n{}\n", line);
    assert_eq!(
        parse_default_gateway(&table),
        Some(Gateway::new(IpAddress::V4(Ipv4Address::new(192, 168, 1, 1))))
    );
}

#[test]
fn route_table_first_default_route_wins() {
    let table = "Iface Destination Gateway Flags\n\
                 eth0 0001A8C0 00000000 0001\n\
                 eth0 00000000 NOTHEX00 0003\n\
                 eth0 00000000 FE00A8C0 0003\n\
                 wlan0 00000000 0101A8C0 0003\n";
    assert_eq!(
        parse_default_gateway(table),
        Some(Gateway(IpAddress::V4(Ipv4Address::new(192, 168, 0, 254))))
    );
    assert_eq!(parse_default_gateway("Iface Destination Gateway\neth0 0001A8C0 00000000\n"), None);
    assert_eq!(parse_default_gateway("eth0 00000000 0101A8C0\n"), None);
}

#[test]
fn test_parse_resolv_conf() {
    let content = "# Generated by resolvconf\ndomain lan\nnameserver 192.168.1.1\nnameserver 8.8.8.8\nnameserver fd25:a234:e8f7::1\noptions edns0\n";
    let dns_servers = nameserver_entries(content);

    assert_eq!(dns_servers.len(), 3);
    assert_eq!(Ipv4Address::parse(&dns_servers[0]), Some(Ipv4Address::new(192, 168, 1, 1)));
    assert_eq!(Ipv4Address::parse(&dns_servers[1]), Some(Ipv4Address::new(8, 8, 8, 8)));
    assert_eq!(dns_servers[2], "fd25:a234:e8f7::1");
    assert!(nameserver_entries("  # nameserver 1.1.1.1\n\n   nameserver   9.9.9.9  \n").len() == 1);
}

#[test]
fn ipv4_text_rules() {
    assert_eq!(Ipv4Address::parse("0.0.0.0"), Some(Ipv4Address::new(0, 0, 0, 0)));
    assert_eq!(Ipv4Address::parse("255.255.255.255"), Some(Ipv4Address::new(255, 255, 255, 255)));
    assert_eq!(Ipv4Address::parse("256.1.1.1"), None);
    assert_eq!(Ipv4Address::parse("01.1.1.1"), None);
    assert_eq!(Ipv4Address::parse("1.1.1"), None);
    assert_eq!(Ipv4Address::parse("1.1.1.1.1"), None);
    assert_eq!(Ipv4Address::parse("1..1.1"), None);
    assert_eq!(Ipv4Address::parse("+1.1.1.1"), None);
    assert_eq!(Ipv4Address::parse(""), None);
    assert!(Ipv4Address::new(127, 0, 0, 1).is_loopback());
    assert_eq!(Ipv4Address::new(1, 2, 3, 4).octets(), [1, 2, 3, 4]);
}

#[test]
fn test_generate_subnet_ips() {
    let base_ip = Ipv4Address::new(192, 168, 1, 100);
    let ips = generate_subnet_ips(&base_ip);

    assert_eq!(ips.len(), 254);
    assert_eq!(ips[0], Ipv4Address::new(192, 168, 1, 1));
    assert_eq!(ips[253], Ipv4Address::new(192, 168, 1, 254));

    assert!(!ips.contains(&Ipv4Address::new(192, 168, 1, 0)));
    assert!(!ips.contains(&Ipv4Address::new(192, 168, 1, 255)));
}

fn iface(name: &str, ip: IpAddress) -> NetworkInterface {
    NetworkInterface::new(InterfaceName::new(name.to_string()), ip, None)
}

#[test]
fn test_subnet_deduplication() {
    let interfaces = vec![
        iface("eth0", IpAddress::V4(Ipv4Address::new(192, 168, 1, 100))),
        iface("wlan0", IpAddress::V4(Ipv4Address::new(192, 168, 1, 150))),
        iface("eth1", IpAddress::V4(Ipv4Address::new(10, 0, 0, 50))),
    ];

    let unique_subnets: Vec<(u8, u8, u8)> = subnets_to_scan(&interfaces).iter().map(|a| (a.0, a.1, a.2)).collect();

    assert_eq!(unique_subnets.len(), 2);
    assert!(unique_subnets.contains(&(192, 168, 1)));
    assert!(unique_subnets.contains(&(10, 0, 0)));
}

#[test]
fn sweep_skips_loopback_and_ipv6_and_keeps_first() {
    let interfaces = vec![
        iface("lo", IpAddress::V4(Ipv4Address::new(127, 0, 0, 1))),
        iface("eth0", IpAddress::V6(Ipv6Address(1))),
        iface("wlan0", IpAddress::V4(Ipv4Address::new(192, 168, 1, 150))),
        iface("eth1", IpAddress::V4(Ipv4Address::new(192, 168, 1, 100))),
    ];
    assert_eq!(subnets_to_scan(&interfaces), vec![Ipv4Address::new(192, 168, 1, 150)]);
    assert!(subnets_to_scan(&vec![]).is_empty());
}

#[test]
fn test_ssdp_discovery_creation() {
    let _discovery = SsdpDiscovery::new();
}

#[test]
fn test_extract_ip() {
    let location = "http://192.168.1.100:1234/description.xml";
    let ip = SsdpDiscovery::extract_ip_from_location(location);
    assert_eq!(ip, Some(IpAddress::V4(Ipv4Address::new(192, 168, 1, 100))));

    let location2 = "http://10.0.0.5:8080/device.xml";
    let ip2 = SsdpDiscovery::extract_ip_from_location(location2);
    assert_eq!(ip2, Some(IpAddress::V4(Ipv4Address::new(10, 0, 0, 5))));
}

#[test]
fn location_edge_cases() {
    assert_eq!(
        SsdpDiscovery::extract_ip_from_location("http://10.0.0.9/desc.xml"),
        Some(IpAddress::V4(Ipv4Address::new(10, 0, 0, 9)))
    );
    assert_eq!(SsdpDiscovery::extract_ip_from_location("https://10.0.0.9/desc.xml"), None);
    assert_eq!(SsdpDiscovery::extract_ip_from_location("http://printer.lan:80/"), None);
    assert_eq!(SsdpDiscovery::extract_ip_from_location("http://[fe80::1]:80/"), None);
}

#[test]
fn ssdp_responses_keep_last_per_address() {
    let mut devices: AddressMap<UpnpDeviceInfo> = AddressMap::new();
    SsdpDiscovery::record_response(&mut devices, "http://10.0.0.5:8080/a.xml", "RootDevice".to_string());
    SsdpDiscovery::record_response(&mut devices, "bogus", "Ignored".to_string());
    SsdpDiscovery::record_response(&mut devices, "http://10.0.0.5:8080/b.xml", "Second".to_string());
    assert_eq!(devices.len(), 1);
    let d = devices.get(&IpAddress::V4(Ipv4Address::new(10, 0, 0, 5))).unwrap();
    assert_eq!(d.device_type.as_deref(), Some("Second"));
    assert!(d.friendly_name.is_none());
}

#[test]
fn services_recorded_on_every_address() {
    let a = IpAddress::V4(Ipv4Address::new(10, 0, 0, 1));
    let b = IpAddress::V4(Ipv4Address::new(10, 0, 0, 2));
    let mut services: ServicesByAddress = AddressMap::new();
    record_resolved_service(&mut services, &vec![a, b], "_ssh._tcp.local.".to_string(), "box._ssh._tcp.local.".to_string(), 22);
    record_resolved_service(&mut services, &vec![a], "_smb._tcp.local.".to_string(), "box._smb._tcp.local.".to_string(), 445);
    assert_eq!(services.len(), 2);
    let at_a = services.get(&a).unwrap();
    assert_eq!(at_a.len(), 2);
    assert_eq!(at_a[1].service_type.as_str(), "_smb._tcp.local.");
    assert_eq!(at_a[1].port, 445);
    assert_eq!(services.get(&b).unwrap().len(), 1);
    assert!(services.get(&IpAddress::V4(Ipv4Address::new(10, 0, 0, 3))).is_none());
}

#[test]
fn instance_labels() {
    assert_eq!(instance_label("printer.local."), Some("printer".to_string()));
    assert_eq!(instance_label("Kitchen Speaker._raop._tcp.local."), Some("Kitchen Speaker".to_string()));
    assert_eq!(instance_label("_._tcp.local."), None);
    assert_eq!(instance_label(".local."), None);
    assert_eq!(instance_label("plain"), Some("plain".to_string()));
}

#[test]
fn browse_catalog_has_the_well_known_types() {
    let types = browsed_service_types();
    assert_eq!(types.len(), 12);
    assert_eq!(types[0], "_airplay._tcp.local.");
    assert_eq!(types[11], "_device-info._tcp.local.");
}
