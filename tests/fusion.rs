use lanscan::discovery::{record_resolved_service, ServicesByAddress, UpnpByAddress};
use lanscan::fusion::{fuse_devices, resolve_hostname};
use lanscan::tables::{devices_from_neighbors, parse_neighbor_entries};
use lanscan::{
    AddressMap, DeviceIdentity, DeviceSignals, DeviceType, FriendlyName, Hostname, InterfaceName, IpAddress,
    Ipv4Address, MacAddress, NetworkDevice, ServiceInfo, ServiceInstanceName, ServiceType, UpnpDeviceInfo, UpnpInfo,
};

fn ip(d: u8) -> IpAddress {
    IpAddress::V4(Ipv4Address::new(192, 168, 1, d))
}

fn seed(d: u8) -> NetworkDevice {
    NetworkDevice::new(ip(d), MacAddress::new("aa:bb:cc:dd:ee:ff".to_string()).unwrap(), InterfaceName::new("eth0".to_string()))
}

fn upnp(friendly: Option<&str>, maker: Option<&str>, model: Option<&str>, urn: Option<&str>) -> UpnpDeviceInfo {
    UpnpDeviceInfo {
        friendly_name: friendly.map(|s| s.to_string()),
        manufacturer: maker.map(|s| s.to_string()),
        model_name: model.map(|s| s.to_string()),
        device_type: urn.map(|s| s.to_string()),
    }
}

fn with_services(d: u8, types: &[&str], instance: &str) -> ServicesByAddress {
    let mut services: ServicesByAddress = AddressMap::new();
    for t in types {
        record_resolved_service(&mut services, &vec![ip(d)], t.to_string(), instance.to_string(), 80);
    }
    services
}

fn fuse_one(services: &ServicesByAddress, upnp: &UpnpByAddress, dns: Hostname) -> NetworkDevice {
    let mut out = fuse_devices(vec![seed(50)], services, upnp, vec![dns]);
    assert_eq!(out.len(), 1);
    out.remove(0)
}

fn device_with(types: &[&str], hostname: Hostname, info: Option<UpnpDeviceInfo>) -> NetworkDevice {
    let mut d = seed(50);
    for t in types {
        d.services.push(ServiceInfo::new(ServiceType::new(t.to_string()), ServiceInstanceName::new("x".to_string()), 1));
    }
    d.hostname = hostname;
    d.upnp_info = info.map(|i| i.to_upnp_info());
    d.build_identity();
    d
}

#[test]
fn hostname_precedence_upnp_first() {
    let mut described: UpnpByAddress = AddressMap::new();
    described.insert(ip(50), upnp(Some("Living Room TV"), None, None, None));
    let d = fuse_one(&AddressMap::new(), &described, Hostname::resolved("tv.local".to_string()));
    assert_eq!(d.hostname, Hostname::Resolved("Living Room TV".to_string()));
}

#[test]
fn hostname_precedence_dns_second() {
    let d = fuse_one(&AddressMap::new(), &AddressMap::new(), Hostname::resolved("nas01".to_string()));
    assert_eq!(d.hostname, Hostname::Resolved("nas01".to_string()));
}

#[test]
fn hostname_precedence_mdns_third() {
    let services = with_services(50, &["_ipp._tcp.local."], "printer.local.");
    let d = fuse_one(&services, &AddressMap::new(), Hostname::Unknown);
    assert_eq!(d.hostname, Hostname::Resolved("printer".to_string()));
    assert_eq!(d.services.len(), 1);
}

#[test]
fn hostname_precedence_unknown_last() {
    let d = fuse_one(&AddressMap::new(), &AddressMap::new(), Hostname::Unknown);
    assert_eq!(d.hostname, Hostname::Unknown);
}

#[test]
fn hostname_precedence_skips_empty_friendly_name() {
    let mut described: UpnpByAddress = AddressMap::new();
    described.insert(ip(50), upnp(Some(""), None, None, None));
    let services = with_services(50, &["_ssh._tcp.local."], "den.local.");
    let d = fuse_one(&services, &described, Hostname::Unknown);
    assert_eq!(d.hostname, Hostname::Resolved("den".to_string()));
    let u = Some(UpnpInfo { friendly_name: Some(FriendlyName::new("".to_string())), ..UpnpInfo::new() });
    assert_eq!(resolve_hostname(&u, Hostname::Resolved("a".to_string()), &None), Hostname::Resolved("a".to_string()));
}

#[test]
fn classification_media_renderer_with_airplay_is_television() {
    let d = device_with(
        &["_airplay._tcp.local."],
        Hostname::Unknown,
        Some(upnp(None, None, None, Some("urn:schemas-upnp-org:device:MediaRenderer:1"))),
    );
    assert_eq!(d.identity.device_type, DeviceType::Television);
}

#[test]
fn classification_media_renderer_alone_is_speaker() {
    let d = device_with(&[], Hostname::Unknown, Some(upnp(None, None, None, Some("urn:schemas-upnp-org:device:MediaRenderer:1"))));
    assert_eq!(d.identity.device_type, DeviceType::Speaker);
}

#[test]
fn classification_ipp_only_is_printer() {
    let d = device_with(&["_ipp._tcp.local."], Hostname::Unknown, None);
    assert_eq!(d.identity.device_type, DeviceType::Printer);
}

#[test]
fn classification_kitchen_nas_hostname() {
    let d = device_with(&[], Hostname::Resolved("kitchen-nas".to_string()), None);
    assert_eq!(d.identity.device_type, DeviceType::NAS);
}

#[test]
fn empty_reverse_dns_name_falls_through() {
    let services = with_services(50, &["_ssh._tcp.local."], "attic.local.");
    let d = fuse_one(&services, &AddressMap::new(), Hostname::Resolved(String::new()));
    assert_eq!(d.hostname, Hostname::Resolved("attic".to_string()));
    let e = fuse_one(&AddressMap::new(), &AddressMap::new(), Hostname::Resolved(String::new()));
    assert_eq!(e.hostname, Hostname::Unknown);
}

#[test]
fn classification_cascade_order() {
    let gw = device_with(&[], Hostname::Unknown, Some(upnp(None, None, None, Some("InternetGatewayDevice"))));
    assert_eq!(gw.identity.device_type, DeviceType::Router);
    let ms = device_with(&[], Hostname::Unknown, Some(upnp(None, None, None, Some("MediaServer"))));
    assert_eq!(ms.identity.device_type, DeviceType::NAS);
    let cast = device_with(&["_googlecast._tcp.local."], Hostname::Unknown, None);
    assert_eq!(cast.identity.device_type, DeviceType::Television);
    let both = device_with(&["_airplay._tcp.local.", "_spotify-connect._tcp.local."], Hostname::Unknown, None);
    assert_eq!(both.identity.device_type, DeviceType::Television);
    let tunes = device_with(&["_raop._tcp.local."], Hostname::Unknown, None);
    assert_eq!(tunes.identity.device_type, DeviceType::Speaker);
    let nas = device_with(&["_SSH._tcp.local.", "_smb._tcp.local."], Hostname::Unknown, None);
    assert_eq!(nas.identity.device_type, DeviceType::NAS);
    let kit = device_with(&["_homekit._tcp.local."], Hostname::Unknown, None);
    assert_eq!(kit.identity.device_type, DeviceType::SmartHome);
    let tv = device_with(&["_raop._tcp.local.", "_airplay._tcp.local."], Hostname::Resolved("Samsung-TV".to_string()), None);
    assert_eq!(tv.identity.device_type, DeviceType::Television);
    let hp = device_with(&[], Hostname::Unknown, Some(upnp(None, Some("HP Inc."), None, None)));
    assert_eq!(hp.identity.device_type, DeviceType::Printer);
    let syn = device_with(&[], Hostname::Unknown, Some(upnp(None, Some("Synology"), None, None)));
    assert_eq!(syn.identity.device_type, DeviceType::NAS);
    let pad = device_with(&[], Hostname::Unknown, Some(upnp(None, None, Some("iPad Air"), None)));
    assert_eq!(pad.identity.device_type, DeviceType::Tablet);
    let phone = device_with(&[], Hostname::Unknown, Some(upnp(None, None, Some("iPhone 15"), None)));
    assert_eq!(phone.identity.device_type, DeviceType::MobileDevice);
    let router = device_with(&[], Hostname::Resolved("Gateway.lan".to_string()), None);
    assert_eq!(router.identity.device_type, DeviceType::Router);
    let tab = device_with(&[], Hostname::Resolved("Galaxy-Tab-S8".to_string()), None);
    assert_eq!(tab.identity.device_type, DeviceType::Tablet);
    let tab2 = device_with(&[], Hostname::Resolved("tabby".to_string()), None);
    assert_eq!(tab2.identity.device_type, DeviceType::Tablet);
    let galaxy = device_with(&[], Hostname::Resolved("galaxy-s23".to_string()), None);
    assert_eq!(galaxy.identity.device_type, DeviceType::MobileDevice);
    let none = device_with(&[], Hostname::Resolved("desktop".to_string()), None);
    assert_eq!(none.identity.device_type, DeviceType::Unknown);
}

#[test]
fn manufacturer_model_and_display_name() {
    let a = device_with(&[], Hostname::Unknown, Some(upnp(Some("samsung Smart TV"), None, Some("QN90B"), None)));
    assert_eq!(a.identity.manufacturer.as_ref().unwrap().as_str(), "Samsung");
    assert_eq!(a.identity.model.as_ref().unwrap().as_str(), "QN90B");
    assert_eq!(a.identity.friendly_name.as_ref().unwrap().as_str(), "samsung Smart TV");

    let b = device_with(&[], Hostname::Resolved("my-lg-oled".to_string()), None);
    assert_eq!(b.identity.manufacturer.as_ref().unwrap().as_str(), "Lg");
    assert_eq!(b.identity.friendly_name.as_ref().unwrap().as_str(), "my-lg-oled");

    let c = device_with(&[], Hostname::Resolved("_hidden".to_string()), Some(upnp(Some("uuid:1234"), Some("Acme"), Some(""), None)));
    assert_eq!(c.identity.manufacturer.as_ref().unwrap().as_str(), "Acme");
    assert!(c.identity.model.is_none());
    assert!(c.identity.friendly_name.is_none());

    let d = device_with(&[], Hostname::Resolved("epson-et".to_string()), Some(upnp(Some("Office Printer"), Some(""), None, None)));
    assert_eq!(d.identity.manufacturer.as_ref().unwrap().as_str(), "Epson");
    assert_eq!(d.identity.device_type, DeviceType::Printer);
}

#[test]
fn identity_rebuild_is_idempotent() {
    let mut d = device_with(&["_airplay._tcp.local."], Hostname::Resolved("sony-bravia".to_string()), None);
    let first = d.identity.clone();
    d.build_identity();
    assert_eq!(d.identity, first);
    d.build_identity();
    assert_eq!(d.identity, first);
    assert_eq!(first.device_type, DeviceType::Television);
    assert_eq!(first.manufacturer.as_ref().unwrap().as_str(), "Sony");
}

#[test]
fn signals_classify_directly() {
    let s = DeviceSignals {
        urn: None,
        services: vec!["_printer._tcp.local.".to_string()],
        maker: None,
        maker_folded: None,
        model: None,
        model_folded: None,
        friendly: None,
        friendly_first_word: None,
        host: Some("Den".to_string()),
        host_folded: Some("den".to_string()),
    };
    assert_eq!(s.classify(), DeviceType::Printer);
    let id = s.identify();
    assert_eq!(id.friendly_name.unwrap().as_str(), "Den");
    assert!(s.has_service("_printer"));
    assert!(!s.has_service("_ipp"));
}

#[test]
fn end_to_end_single_row() {
    let table = "IP address       HW type     Flags       HW address            Mask     Device\n\
                 192.168.1.50     0x1         0x2         aa:bb:cc:dd:ee:ff     *        eth0\n";
    let entries = parse_neighbor_entries(table);
    let addresses: Vec<Option<IpAddress>> = entries.iter().map(|e| Ipv4Address::parse(&e.address).map(IpAddress::V4)).collect();
    let seeds = devices_from_neighbors(&entries, &addresses);
    assert_eq!(seeds.len(), 1);
    let services: ServicesByAddress = AddressMap::new();
    let described: UpnpByAddress = AddressMap::new();
    let devices = fuse_devices(seeds, &services, &described, vec![Hostname::Unknown]);
    assert_eq!(devices.len(), 1);
    let d = &devices[0];
    assert_eq!(d.ip, ip(50));
    assert_eq!(d.mac.as_str(), "AA:BB:CC:DD:EE:FF");
    assert_eq!(d.hostname, Hostname::Unknown);
    assert_eq!(d.identity, DeviceIdentity::new());
    assert_eq!(d.identity.device_type, DeviceType::Unknown);
    assert!(d.identity.manufacturer.is_none() && d.identity.model.is_none() && d.identity.friendly_name.is_none());
}

#[test]
fn fusion_keeps_order_and_attaches_by_address() {
    let services = with_services(51, &["_googlecast._tcp.local."], "Chromecast-Ultra.local.");
    let mut described: UpnpByAddress = AddressMap::new();
    described.insert(ip(50), upnp(None, None, None, Some("urn:schemas-upnp-org:device:InternetGatewayDevice:1")));
    let devices = fuse_devices(vec![seed(50), seed(51)], &services, &described, vec![Hostname::Unknown, Hostname::Unknown]);
    assert_eq!(devices[0].identity.device_type, DeviceType::Router);
    assert!(devices[0].services.is_empty());
    assert_eq!(devices[1].identity.device_type, DeviceType::Television);
    assert_eq!(devices[1].hostname, Hostname::Resolved("Chromecast-Ultra".to_string()));
    assert!(devices[1].upnp_info.is_none());
}

#[test]
fn device_clone_keeps_fields() {
    let d = device_with(&["_ipp._tcp.local."], Hostname::Resolved("office".to_string()), None);
    let c = d.clone();
    assert_eq!(c.ip, d.ip);
    assert_eq!(c.mac, d.mac);
    assert_eq!(c.hostname, d.hostname);
    assert_eq!(c.services, d.services);
    assert_eq!(c.identity, d.identity);
    assert_eq!(c.last_seen, d.last_seen);
}
