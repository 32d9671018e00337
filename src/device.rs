//! Devices, interfaces and the snapshot that one discovery run produces.

use vstd::prelude::*;
use crate::identity::{identity_from, DeviceSignals, SignalsView};
use crate::ip::IpAddress;
use crate::mac::{is_mac_text, normalized_mac, MacAddress};
use crate::names::InterfaceName;
use crate::text::{lower_of, lowercase, same_text, words, words_of};
use crate::types::{clone_services, opt_view, services_view, unix_millis_now, unknown_identity, ActivityStatus, DeviceIdentity, Hostname,
    ServiceInfo, UpnpInfo};

verus! {

/// A host seen on the local network.
#[derive(Debug)]
pub struct NetworkDevice {
    /// The key of the device within a snapshot.
    pub ip: IpAddress,
    pub mac: MacAddress,
    pub hostname: Hostname,
    /// The local interface it was seen on.
    pub interface_name: InterfaceName,
    /// The services mDNS found on it, in the order found.
    pub services: Vec<ServiceInfo>,
    pub upnp_info: Option<UpnpInfo>,
    /// When it was last seen, in milliseconds since the Unix epoch.
    pub last_seen: u64,
    pub identity: DeviceIdentity,
}

impl Clone for NetworkDevice {
    fn clone(&self) -> (r: Self)
        ensures
            r.ip == self.ip,
            r.mac@ == self.mac@,
            r.hostname@ == self.hostname@,
            r.interface_name@ == self.interface_name@,
            services_view(r.services@) == services_view(self.services@),
            opt_view(r.upnp_info) == opt_view(self.upnp_info),
            r.last_seen == self.last_seen,
            r.identity@ == self.identity@,
    {
        NetworkDevice {
            ip: self.ip,
            mac: self.mac.clone(),
            hostname: self.hostname.clone(),
            interface_name: self.interface_name.clone(),
            services: clone_services(&self.services),
            upnp_info: match &self.upnp_info {
                Some(u) => Some(u.clone()),
                None => None,
            },
            last_seen: self.last_seen,
            identity: self.identity.clone(),
        }
    }
}

/// The folded form of an optional text.
pub open spec fn folded(o: Option<Seq<char>>) -> Option<Seq<char>> {
    match o {
        Some(s) => Some(lower_of(s)),
        None => None,
    }
}

/// The first whitespace-delimited word of a text, if it has one.
pub open spec fn first_word(s: Seq<char>) -> Option<Seq<char>> {
    if words_of(s).len() > 0 {
        Some(words_of(s)[0])
    } else {
        None
    }
}

/// What the classification rules read of a device.
pub open spec fn signals_of(d: NetworkDevice) -> SignalsView {
    let (urn, maker, model, friendly) = match d.upnp_info {
        Some(u) => (opt_view(u.device_type), opt_view(u.manufacturer), opt_view(u.model_name), opt_view(
            u.friendly_name,
        )),
        None => (None, None, None, None),
    };
    SignalsView {
        urn: folded(urn),
        services: Seq::new(d.services@.len(), |i: int| lower_of(d.services@[i].service_type@)),
        maker,
        maker_folded: folded(maker),
        model,
        model_folded: folded(model),
        friendly,
        friendly_first_word: match friendly {
            Some(f) => first_word(f),
            None => None,
        },
        host: d.hostname.name_of(),
        host_folded: folded(d.hostname.name_of()),
    }
}

/// `a` and `b` agree on everything but their identity.
pub open spec fn same_but_identity(a: NetworkDevice, b: NetworkDevice) -> bool {
    &&& a.ip == b.ip
    &&& a.mac == b.mac
    &&& a.hostname == b.hostname
    &&& a.interface_name == b.interface_name
    &&& a.services == b.services
    &&& a.upnp_info == b.upnp_info
    &&& a.last_seen == b.last_seen
}

fn fold_opt(o: Option<&str>) -> (r: Option<String>)
    ensures
        r.deep_view() == folded(match o {
            Some(s) => Some(s@),
            None => None,
        }),
{
    match o {
        Some(s) => Some(lowercase(s)),
        None => None,
    }
}

fn copy_opt(o: Option<&str>) -> (r: Option<String>)
    ensures
        r.deep_view() == match o {
            Some(s) => Some(s@),
            None => None,
        },
{
    match o {
        Some(s) => Some(s.to_owned()),
        None => None,
    }
}

impl NetworkDevice {
    /// A device as the neighbour table first shows it: name not yet looked
    /// up, no services, no UPnP descriptor, identity unknown, seen now.
    pub fn new(ip: IpAddress, mac: MacAddress, interface_name: InterfaceName) -> (r: Self)
        ensures
            r.ip == ip,
            r.mac == mac,
            r.interface_name == interface_name,
            r.hostname == Hostname::Resolving,
            r.services@.len() == 0,
            r.upnp_info is None,
            r.identity@ == unknown_identity(),
    {
        NetworkDevice {
            ip,
            mac,
            hostname: Hostname::Resolving,
            interface_name,
            services: Vec::new(),
            upnp_info: None,
            last_seen: unix_millis_now(),
            identity: DeviceIdentity::new(),
        }
    }

    /// How recently the device was seen, judged by the clock now.
    pub fn activity_status(&self) -> (r: ActivityStatus)
        ensures
            exists|now: u64|
                r == crate::types::activity_for(crate::types::elapsed_ms(self.last_seen, now)),
    {
        ActivityStatus::from_last_seen(self.last_seen)
    }

    /// Marks the device as seen now; nothing else changes.
    pub fn update_last_seen(&mut self)
        ensures
            final(self).ip == old(self).ip,
            final(self).mac == old(self).mac,
            final(self).hostname == old(self).hostname,
            final(self).interface_name == old(self).interface_name,
            final(self).services == old(self).services,
            final(self).upnp_info == old(self).upnp_info,
            final(self).identity == old(self).identity,
    {
        self.last_seen = unix_millis_now();
    }

    /// What the classification rules read of this device.
    pub fn signals(&self) -> (r: DeviceSignals)
        ensures
            r@ == signals_of(*self),
    {
        let mut services: Vec<String> = Vec::new();
        let mut i: usize = 0;
        while i < self.services.len()
            invariant
                i <= self.services@.len(),
                services@.len() == i,
                forall|j: int|
                    0 <= j < i ==> #[trigger] services@[j]@ == lower_of(self.services@[j].service_type@),
            decreases self.services.len() - i,
        {
            services.push(lowercase(self.services[i].service_type.as_str()));
            i += 1;
        }
        let (urn, maker, model, friendly) = match &self.upnp_info {
            Some(u) => (
                match &u.device_type {
                    Some(t) => Some(t.as_str()),
                    None => None,
                },
                match &u.manufacturer {
                    Some(t) => Some(t.as_str()),
                    None => None,
                },
                match &u.model_name {
                    Some(t) => Some(t.as_str()),
                    None => None,
                },
                match &u.friendly_name {
                    Some(t) => Some(t.as_str()),
                    None => None,
                },
            ),
            None => (None, None, None, None),
        };
        let friendly_first_word = match friendly {
            Some(f) => {
                let ws = words(f);
                if ws.len() > 0 {
                    proof {
                        assert(ws.deep_view()[0] == ws@[0]@);
                    }
                    Some(ws[0].clone())
                } else {
                    None
                }
            },
            None => None,
        };
        let host = match &self.hostname {
            Hostname::Resolved(h) => Some(h.as_str()),
            _ => None,
        };
        let r = DeviceSignals {
            urn: fold_opt(urn),
            services,
            maker: copy_opt(maker),
            maker_folded: fold_opt(maker),
            model: copy_opt(model),
            model_folded: fold_opt(model),
            friendly: copy_opt(friendly),
            friendly_first_word,
            host: copy_opt(host),
            host_folded: fold_opt(host),
        };
        proof {
            assert(r@.services =~= signals_of(*self).services);
        }
        r
    }

    /// Derives the identity from the other fields; nothing else changes.
    pub fn build_identity(&mut self)
        ensures
            final(self).identity@ == identity_from(signals_of(*old(self))),
            same_but_identity(*final(self), *old(self)),
    {
        let identity = self.signals().identify();
        self.identity = identity;
    }
}

/// Rebuilding an identity changes nothing: the identity is derived from the
/// other fields alone, so two devices that differ only in their identity are
/// given the same one.
pub proof fn rebuilt_identity_is_stable(a: NetworkDevice, b: NetworkDevice)
    requires
        same_but_identity(a, b),
    ensures
        identity_from(signals_of(a)) == identity_from(signals_of(b)),
{
    assert(signals_of(a) == signals_of(b));
}

/// Recomputing the identity of an unmodified device gives the identity it
/// already has: `once` is `d` after one `build_identity`, `twice` is `once`
/// after another.
pub proof fn identity_is_idempotent(d: NetworkDevice, once: NetworkDevice, twice: NetworkDevice)
    requires
        same_but_identity(once, d),
        once.identity@ == identity_from(signals_of(d)),
        same_but_identity(twice, once),
        twice.identity@ == identity_from(signals_of(once)),
    ensures
        twice.identity@ == once.identity@,
        same_but_identity(twice, d),
{
    rebuilt_identity_is_stable(once, d);
}

/// A network interface of this machine.
#[derive(Debug)]
pub struct NetworkInterface {
    pub name: InterfaceName,
    pub ip: IpAddress,
    pub mac: Option<MacAddress>,
}

/// The first IPv4 address of a list.
pub open spec fn first_v4(s: Seq<IpAddress>) -> Option<IpAddress>
    decreases s.len(),
{
    if s.len() == 0 {
        None
    } else if s[0] is V4 {
        Some(s[0])
    } else {
        first_v4(s.drop_first())
    }
}

impl NetworkInterface {
    /// The interface as this library keeps it, from what the system reports:
    /// its first IPv4 address, and its hardware address if that is a valid MAC
    /// address. An interface without an IPv4 address gives nothing.
    pub fn from_system(name: String, addresses: &Vec<IpAddress>, mac: Option<String>) -> (r: Option<NetworkInterface>)
        ensures
            match first_v4(addresses@) {
                None => r is None,
                Some(a) => r matches Some(i) && i.name@ == name@ && i.ip == a && match mac {
                    Some(m) => if is_mac_text(normalized_mac(m@)) {
                        i.mac matches Some(x) && x@ == normalized_mac(m@)
                    } else {
                        i.mac is None
                    },
                    None => i.mac is None,
                },
            },
    {
        let mut k: usize = 0;
        assert(addresses@.subrange(0, addresses@.len() as int) =~= addresses@);
        while k < addresses.len() && !matches!(addresses[k], IpAddress::V4(_))
            invariant
                k <= addresses@.len(),
                first_v4(addresses@) == first_v4(addresses@.subrange(k as int, addresses@.len() as int)),
            decreases addresses.len() - k,
        {
            proof {
                let rest = addresses@.subrange(k as int, addresses@.len() as int);
                assert(rest.drop_first() =~= addresses@.subrange(k + 1, addresses@.len() as int));
            }
            k += 1;
        }
        if k == addresses.len() {
            assert(addresses@.subrange(k as int, addresses@.len() as int) =~= Seq::<IpAddress>::empty());
            return None;
        }
        let ip = addresses[k];
        let mac = match mac {
            Some(m) => match MacAddress::new(m) {
                Ok(x) => Some(x),
                Err(_) => None,
            },
            None => None,
        };
        Some(NetworkInterface { name: InterfaceName::new(name), ip, mac })
    }
}

impl Clone for NetworkInterface {
    fn clone(&self) -> (r: Self)
        ensures
            r.name@ == self.name@,
            r.ip == self.ip,
            opt_view(r.mac) == opt_view(self.mac),
    {
        NetworkInterface {
            name: self.name.clone(),
            ip: self.ip,
            mac: match &self.mac {
                Some(m) => Some(m.clone()),
                None => None,
            },
        }
    }
}

impl NetworkInterface {
    pub fn new(name: InterfaceName, ip: IpAddress, mac: Option<MacAddress>) -> (r: Self)
        ensures
            r.name == name,
            r.ip == ip,
            r.mac == mac,
    {
        NetworkInterface { name, ip, mac }
    }
}

/// The address of the default route.
#[derive(Debug, Clone, Copy, PartialEq, Eq, Structural)]
pub struct Gateway(pub IpAddress);

impl Gateway {
    pub fn new(ip: IpAddress) -> (r: Self)
        ensures
            r.0 == ip,
    {
        Gateway(ip)
    }
}

/// Everything one discovery run found.
#[derive(Debug)]
pub struct NetworkSnapshot {
    pub interfaces: Vec<NetworkInterface>,
    pub devices: Vec<NetworkDevice>,
    pub gateway: Option<Gateway>,
    pub dns_servers: Vec<IpAddress>,
}

impl NetworkSnapshot {
    pub fn new(
        interfaces: Vec<NetworkInterface>,
        devices: Vec<NetworkDevice>,
        gateway: Option<Gateway>,
        dns_servers: Vec<IpAddress>,
    ) -> (r: Self)
        ensures
            r.interfaces == interfaces,
            r.devices == devices,
            r.gateway == gateway,
            r.dns_servers == dns_servers,
    {
        NetworkSnapshot { interfaces, devices, gateway, dns_servers }
    }

    /// The devices grouped by the interface they were seen on: one group per
    /// interface name, in order of first appearance, each with the indices of
    /// its devices in ascending order.
    pub fn devices_by_interface(&self) -> (r: Vec<(InterfaceName, Vec<usize>)>)
        ensures
            r@.len() == distinct_names(interface_names(self.devices@)).len(),
            forall|g: int|
                0 <= g < r@.len() ==> (#[trigger] r@[g]).0@ == distinct_names(interface_names(self.devices@))[g]
                    && r@[g].1@ == indices_named(interface_names(self.devices@), r@[g].0@),
    {
        let ghost names = interface_names(self.devices@);
        let mut groups: Vec<(InterfaceName, Vec<usize>)> = Vec::new();
        let mut j: usize = 0;
        while j < self.devices.len()
            invariant
                j <= self.devices@.len(),
                names == interface_names(self.devices@),
                groups@.len() == distinct_names(names.take(j as int)).len(),
                forall|g: int|
                    0 <= g < groups@.len() ==> (#[trigger] groups@[g]).0@ == distinct_names(names.take(j as int))[g]
                        && groups@[g].1@ == indices_named(names.take(j as int), groups@[g].0@),
            decreases self.devices.len() - j,
        {
            let name = self.devices[j].interface_name.as_str();
            let ghost before = names.take(j as int);
            let ghost after = names.take(j + 1);
            proof {
                assert(after.drop_last() =~= before);
                assert(after.last() == name@);
            }
            let mut g: usize = 0;
            while g < groups.len() && !same_text(groups[g].0.as_str(), name)
                invariant
                    g <= groups@.len(),
                    forall|k: int| 0 <= k < g ==> (#[trigger] groups@[k]).0@ != name@,
                decreases groups.len() - g,
            {
                g += 1;
            }
            let found = g < groups.len();
            proof {
                let d = distinct_names(before);
                if !found {
                    assert forall|k: int| 0 <= k < d.len() implies d[k] != name@ by {
                        assert(groups@[k].0@ == d[k]);
                    }
                    assert(!d.contains(name@));
                } else {
                    assert(d[g as int] == name@);
                    assert(d.contains(name@));
                }
            }
            let ghost old_groups = groups@;
            if found {
                let (key, mut list) = groups.remove(g);
                list.push(j);
                groups.insert(g, (key, list));
                proof {
                    assert(groups@ =~= old_groups.update(g as int, (key, list)));
                }
            } else {
                let mut list: Vec<usize> = Vec::new();
                list.push(j);
                groups.push((InterfaceName::new(name.to_owned()), list));
            }
            proof {
                distinct_names_unique(before);
                let d = distinct_names(before);
                assert forall|k: int| 0 <= k < groups@.len() implies (#[trigger] groups@[k]).0@ == distinct_names(after)[k]
                    && groups@[k].1@ == indices_named(after, groups@[k].0@) by {
                    if found {
                        assert(distinct_names(after) == d);
                        if k == g {
                            assert(groups@[k].1@ =~= indices_named(before, name@).push(j));
                        } else {
                            assert(groups@[k] == old_groups[k]);
                            assert(d[k] != d[g as int]);
                        }
                    } else {
                        assert(distinct_names(after) == d.push(name@));
                        if k == groups@.len() - 1 {
                            indices_named_absent(before, name@);
                            assert(groups@[k].1@ =~= seq![j]);
                            assert(Seq::<usize>::empty().push(j) =~= seq![j]);
                        } else {
                            assert(groups@[k] == old_groups[k]);
                        }
                    }
                }
            }
            j += 1;
        }
        proof {
            assert(names.take(j as int) =~= names);
        }
        groups
    }
}

/// The interface names of a sequence of devices.
pub open spec fn interface_names(d: Seq<NetworkDevice>) -> Seq<Seq<char>> {
    d.map_values(|x: NetworkDevice| x.interface_name@)
}

/// The distinct names, in order of first appearance.
pub open spec fn distinct_names(s: Seq<Seq<char>>) -> Seq<Seq<char>>
    decreases s.len(),
{
    if s.len() == 0 {
        Seq::empty()
    } else {
        let r = distinct_names(s.drop_last());
        if r.contains(s.last()) {
            r
        } else {
            r.push(s.last())
        }
    }
}

/// The indices at which `name` occurs, ascending.
pub open spec fn indices_named(s: Seq<Seq<char>>, name: Seq<char>) -> Seq<usize>
    decreases s.len(),
{
    if s.len() == 0 {
        Seq::empty()
    } else {
        let r = indices_named(s.drop_last(), name);
        if s.last() == name {
            r.push((s.len() - 1) as usize)
        } else {
            r
        }
    }
}

proof fn distinct_names_unique(s: Seq<Seq<char>>)
    ensures
        forall|a: int, b: int|
            0 <= a < b < distinct_names(s).len() ==> #[trigger] distinct_names(s)[a] != #[trigger] distinct_names(s)[b],
    decreases s.len(),
{
    if s.len() > 0 {
        distinct_names_unique(s.drop_last());
        let r = distinct_names(s.drop_last());
        if !r.contains(s.last()) {
            assert forall|a: int, b: int| 0 <= a < b < r.push(s.last()).len() implies #[trigger] r.push(s.last())[a]
                != #[trigger] r.push(s.last())[b] by {
                if b == r.len() {
                    assert(r.push(s.last())[a] == r[a]);
                }
            }
        }
    }
}

proof fn indices_named_absent(s: Seq<Seq<char>>, name: Seq<char>)
    requires
        !distinct_names(s).contains(name),
    ensures
        indices_named(s, name) == Seq::<usize>::empty(),
    decreases s.len(),
{
    if s.len() > 0 {
        let r = distinct_names(s.drop_last());
        if r.contains(s.last()) {
            assert(s.last() != name);
        } else {
            assert(r.push(s.last())[r.len() as int] == s.last());
            assert(s.last() != name);
            assert forall|k: int| 0 <= k < r.len() implies r[k] != name by {
                assert(r.push(s.last())[k] == r[k]);
            }
        }
        indices_named_absent(s.drop_last(), name);
    }
}

} // verus!
