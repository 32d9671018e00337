//! What multicast discovery reports, and how it is recorded by address.

use vstd::prelude::*;
use crate::catalog::AddressMap;
use crate::ip::{ipv4_of_text, IpAddress, Ipv4Address};
use crate::names::{DeviceTypeName, FriendlyName, ManufacturerName, ModelName, ServiceInstanceName, ServiceType};
use crate::text::{before_first, first_piece, owned, same_text, strip_prefix};
use crate::types::{services_view, ServiceInfo, ServiceView, UpnpInfo, UpnpView};

verus! {

/// The services mDNS found, by address, each list in the order found.
pub type ServicesByAddress = AddressMap<Vec<ServiceInfo>>;

/// The UPnP descriptors SSDP found, by address.
pub type UpnpByAddress = AddressMap<UpnpDeviceInfo>;

/// The service types that discovery browses for.
pub open spec fn browsed_types() -> Seq<Seq<char>> {
    seq![
        "_airplay._tcp.local."@,
        "_ssh._tcp.local."@,
        "_http._tcp.local."@,
        "_smb._tcp.local."@,
        "_afpovertcp._tcp.local."@,
        "_printer._tcp.local."@,
        "_ipp._tcp.local."@,
        "_googlecast._tcp.local."@,
        "_homekit._tcp.local."@,
        "_spotify-connect._tcp.local."@,
        "_raop._tcp.local."@,
        "_device-info._tcp.local."@,
    ]
}

/// The service types that discovery browses for: AirPlay, SSH, HTTP, SMB,
/// AFP, printers, IPP, Chromecast, HomeKit, Spotify Connect, AirTunes and
/// device information.
pub fn browsed_service_types() -> (r: Vec<&'static str>)
    ensures
        r@.map_values(|t: &str| t@) == browsed_types(),
{
    let r = vec![
        "_airplay._tcp.local.",
        "_ssh._tcp.local.",
        "_http._tcp.local.",
        "_smb._tcp.local.",
        "_afpovertcp._tcp.local.",
        "_printer._tcp.local.",
        "_ipp._tcp.local.",
        "_googlecast._tcp.local.",
        "_homekit._tcp.local.",
        "_spotify-connect._tcp.local.",
        "_raop._tcp.local.",
        "_device-info._tcp.local.",
    ];
    assert(r@.map_values(|t: &str| t@) =~= browsed_types());
    r
}

/// The service views kept for `ip`, if any.
pub open spec fn services_at(m: ServicesByAddress, ip: IpAddress) -> Option<Seq<ServiceView>> {
    match m.lookup(ip) {
        Some(l) => Some(services_view(l@)),
        None => None,
    }
}

/// What recording `v` against each of `addrs` in turn leaves for `ip`.
pub open spec fn recorded(
    prev: Option<Seq<ServiceView>>,
    addrs: Seq<IpAddress>,
    ip: IpAddress,
    v: ServiceView,
) -> Option<Seq<ServiceView>>
    decreases addrs.len(),
{
    if addrs.len() == 0 {
        prev
    } else {
        let p = recorded(prev, addrs.drop_last(), ip, v);
        if addrs.last() == ip {
            Some(
                match p {
                    Some(s) => s,
                    None => Seq::empty(),
                }.push(v),
            )
        } else {
            p
        }
    }
}

/// Records a resolved service against every address it was advertised on.
pub fn record_resolved_service(
    services: &mut ServicesByAddress,
    addresses: &Vec<IpAddress>,
    service_type: String,
    instance_name: String,
    port: u16,
)
    ensures
        forall|ip: IpAddress|
            #[trigger] services_at(*final(services), ip) == recorded(
                services_at(*old(services), ip),
                addresses@,
                ip,
                ServiceView { service_type: service_type@, instance_name: instance_name@, port },
            ),
{
    let info = ServiceInfo::new(ServiceType::new(service_type), ServiceInstanceName::new(instance_name), port);
    let ghost v = info@;
    let mut i: usize = 0;
    while i < addresses.len()
        invariant
            i <= addresses@.len(),
            info@ == v,
            forall|ip: IpAddress|
                #[trigger] services_at(*services, ip) == recorded(
                    services_at(*old(services), ip),
                    addresses@.take(i as int),
                    ip,
                    v,
                ),
        decreases addresses.len() - i,
    {
        let ip = addresses[i];
        let ghost before = *services;
        let item = info.clone();
        services.append(ip, item);
        proof {
            assert(item@ == v);
            assert(addresses@.take(i + 1).last() == ip);
            assert(addresses@.take(i + 1).drop_last() =~= addresses@.take(i as int));
            assert forall|q: IpAddress| #[trigger]
                services_at(*services, q) == recorded(
                    services_at(*old(services), q),
                    addresses@.take(i + 1),
                    q,
                    v,
                ) by {
                assert(services_at(before, q) == recorded(
                    services_at(*old(services), q),
                    addresses@.take(i as int),
                    q,
                    v,
                ));
                if q == ip {
                    let l = services.lookup(q)->0;
                    match before.lookup(q) {
                        Some(p) => {
                            assert(services_view(l@) =~= services_view(p@).push(v));
                        },
                        None => {
                            assert(services_view(l@) =~= Seq::<ServiceView>::empty().push(v));
                        },
                    }
                }
            }
        }
        i += 1;
    }
    assert(addresses@.take(addresses@.len() as int) =~= addresses@);
}

/// The leading label of an mDNS instance name, as a hostname candidate:
/// the text before the first dot, unless it is empty or `_`.
pub open spec fn label_of_instance(name: Seq<char>) -> Option<Seq<char>> {
    let label = before_first(name, '.');
    if label.len() == 0 || label == "_"@ {
        None
    } else {
        Some(label)
    }
}

/// The hostname candidate that an mDNS instance name gives.
pub fn instance_label(name: &str) -> (r: Option<String>)
    ensures
        r.deep_view() == label_of_instance(name@),
{
    let label = first_piece(name, '.');
    if label.is_empty() || same_text(label, "_") {
        None
    } else {
        Some(owned(label))
    }
}

/// What SSDP tells of a device.
#[derive(Debug)]
pub struct UpnpDeviceInfo {
    pub friendly_name: Option<String>,
    pub manufacturer: Option<String>,
    pub model_name: Option<String>,
    pub device_type: Option<String>,
}

impl View for UpnpDeviceInfo {
    type V = UpnpView;

    open spec fn view(&self) -> UpnpView {
        UpnpView {
            friendly_name: self.friendly_name.deep_view(),
            manufacturer: self.manufacturer.deep_view(),
            model_name: self.model_name.deep_view(),
            device_type: self.device_type.deep_view(),
        }
    }
}

impl Clone for UpnpDeviceInfo {
    fn clone(&self) -> (r: Self)
        ensures
            r@ == self@,
    {
        UpnpDeviceInfo {
            friendly_name: self.friendly_name.clone(),
            manufacturer: self.manufacturer.clone(),
            model_name: self.model_name.clone(),
            device_type: self.device_type.clone(),
        }
    }
}

impl UpnpDeviceInfo {
    /// A descriptor with nothing in it.
    pub fn new() -> (r: Self)
        ensures
            r.friendly_name is None,
            r.manufacturer is None,
            r.model_name is None,
            r.device_type is None,
    {
        UpnpDeviceInfo { friendly_name: None, manufacturer: None, model_name: None, device_type: None }
    }
}

impl Default for UpnpDeviceInfo {
    fn default() -> (r: Self)
        ensures
            r.friendly_name is None,
            r.manufacturer is None,
            r.model_name is None,
            r.device_type is None,
    {
        UpnpDeviceInfo::new()
    }
}

impl UpnpDeviceInfo {
    /// The descriptor as a device carries it.
    pub fn to_upnp_info(&self) -> (r: UpnpInfo)
        ensures
            r@ == self@,
    {
        UpnpInfo {
            friendly_name: match &self.friendly_name {
                Some(s) => Some(FriendlyName::new(s.clone())),
                None => None,
            },
            manufacturer: match &self.manufacturer {
                Some(s) => Some(ManufacturerName::new(s.clone())),
                None => None,
            },
            model_name: match &self.model_name {
                Some(s) => Some(ModelName::new(s.clone())),
                None => None,
            },
            device_type: match &self.device_type {
                Some(s) => Some(DeviceTypeName::new(s.clone())),
                None => None,
            },
        }
    }
}

/// The address in a UPnP location of the form `http://<host>[:<port>]/path`,
/// when the host is a dotted-quad IPv4 address.
pub open spec fn location_address(location: Seq<char>) -> Option<IpAddress> {
    if "http://"@.is_prefix_of(location) {
        let rest = location.subrange("http://"@.len() as int, location.len() as int);
        match ipv4_of_text(before_first(before_first(rest, '/'), ':')) {
            Some(a) => Some(IpAddress::V4(a)),
            None => None,
        }
    } else {
        None
    }
}

/// SSDP search for UPnP root devices; the search itself runs outside the
/// library, which reads its responses.
#[derive(Debug, Clone, Copy, Default)]
pub struct SsdpDiscovery;

impl SsdpDiscovery {
    pub fn new() -> (r: Self) {
        SsdpDiscovery
    }

    /// The responder's address in a UPnP location header.
    pub fn extract_ip_from_location(location: &str) -> (r: Option<IpAddress>)
        ensures
            r == location_address(location@),
    {
        let url = match strip_prefix(location, "http://") {
            Some(u) => u,
            None => return None,
        };
        let host_port = first_piece(url, '/');
        let host = first_piece(host_port, ':');
        match Ipv4Address::parse(host) {
            Some(a) => Some(IpAddress::V4(a)),
            None => None,
        }
    }

    /// Records a search response: the responder's descriptor, holding only the
    /// advertised search target, replaces any earlier one for its address.
    /// A response whose location yields no address is dropped.
    pub fn record_response(devices: &mut UpnpByAddress, location: &str, search_target: String)
        ensures
            match location_address(location@) {
                Some(ip) => final(devices).lookup(ip) matches Some(d) && d@ == (UpnpView {
                    friendly_name: None,
                    manufacturer: None,
                    model_name: None,
                    device_type: Some(search_target@),
                }) && forall|other: IpAddress|
                    other != ip ==> #[trigger] final(devices).lookup(other) == old(devices).lookup(other),
                None => *final(devices) == *old(devices),
            },
    {
        match SsdpDiscovery::extract_ip_from_location(location) {
            Some(ip) => {
                let info = UpnpDeviceInfo {
                    friendly_name: None,
                    manufacturer: None,
                    model_name: None,
                    device_type: Some(search_target),
                };
                devices.insert(ip, info);
            },
            None => {},
        }
    }
}

} // verus!
