//! Fusion of the evidence about each device into one record: discovery
//! results are attached, the hostname is chosen by a fixed precedence, and
//! the identity is derived.

use vstd::prelude::*;
use crate::device::{signals_of, NetworkDevice};
use crate::discovery::{instance_label, label_of_instance, services_at, ServicesByAddress, UpnpByAddress};
use crate::identity::identity_from;
use crate::types::{clone_services, hostname_from, opt_view, services_view, Hostname, HostnameView, ServiceView,
    UpnpInfo};

verus! {

/// The friendly name of an optional UPnP descriptor.
pub open spec fn friendly_of(u: Option<UpnpInfo>) -> Option<Seq<char>> {
    match u {
        Some(i) => opt_view(i.friendly_name),
        None => None,
    }
}

/// The hostname a device gets, first rule first: a non-empty UPnP friendly
/// name; a non-empty name that reverse DNS resolved; the mDNS candidate;
/// else unknown.
pub open spec fn chosen_hostname(
    friendly: Option<Seq<char>>,
    dns: HostnameView,
    mdns: Option<Seq<char>>,
) -> HostnameView {
    if friendly is Some && friendly->0.len() > 0 {
        HostnameView::Resolved(friendly->0)
    } else if dns is Resolved && dns->Resolved_0.len() > 0 {
        dns
    } else if mdns is Some {
        hostname_from(mdns->0)
    } else {
        HostnameView::Unknown
    }
}

/// The mDNS hostname candidate: the label of the first service found.
pub open spec fn mdns_candidate(found: Option<Seq<ServiceView>>) -> Option<Seq<char>> {
    match found {
        Some(l) => if l.len() > 0 {
            label_of_instance(l[0].instance_name)
        } else {
            None
        },
        None => None,
    }
}

/// The hostname a device gets from its UPnP descriptor, the reverse-DNS
/// answer and the mDNS candidate.
pub fn resolve_hostname(upnp: &Option<UpnpInfo>, dns: Hostname, mdns_name: &Option<String>) -> (r: Hostname)
    ensures
        r@ == chosen_hostname(friendly_of(*upnp), dns@, mdns_name.deep_view()),
{
    if let Some(u) = upnp {
        if let Some(f) = &u.friendly_name {
            if !f.as_str().is_empty() {
                return Hostname::Resolved(f.as_str().to_owned());
            }
        }
    }
    if let Hostname::Resolved(n) = &dns {
        if !n.as_str().is_empty() {
            return dns;
        }
    }
    match mdns_name {
        Some(m) => Hostname::resolved(m.clone()),
        None => Hostname::Unknown,
    }
}

/// `d` is `seed` with the services and descriptor found for its address
/// attached, its hostname chosen from them and from `dns`, and its identity
/// derived.
pub open spec fn fused(
    d: NetworkDevice,
    seed: NetworkDevice,
    services: ServicesByAddress,
    upnp: UpnpByAddress,
    dns: HostnameView,
) -> bool {
    let found = services_at(services, seed.ip);
    let described = upnp.lookup(seed.ip);
    &&& d.ip == seed.ip
    &&& d.mac == seed.mac
    &&& d.interface_name == seed.interface_name
    &&& services_view(d.services@) == match found {
        Some(l) => l,
        None => services_view(seed.services@),
    }
    &&& opt_view(d.upnp_info) == match described {
        Some(u) => Some(u@),
        None => opt_view(seed.upnp_info),
    }
    &&& (found is None && described is None ==> d.last_seen == seed.last_seen)
    &&& d.hostname@ == chosen_hostname(friendly_of(d.upnp_info), dns, mdns_candidate(found))
    &&& d.identity@ == identity_from(signals_of(d))
}

impl NetworkDevice {
    /// Attaches the services and the UPnP descriptor found for this device's
    /// address, marking it seen on either, and returns the mDNS hostname
    /// candidate.
    pub fn attach_discoveries(&mut self, services: &ServicesByAddress, upnp: &UpnpByAddress) -> (r: Option<
        String,
    >)
        ensures
            final(self).ip == old(self).ip,
            final(self).mac == old(self).mac,
            final(self).interface_name == old(self).interface_name,
            final(self).hostname == old(self).hostname,
            final(self).identity == old(self).identity,
            services_view(final(self).services@) == match services_at(*services, old(self).ip) {
                Some(l) => l,
                None => services_view(old(self).services@),
            },
            opt_view(final(self).upnp_info) == match upnp.lookup(old(self).ip) {
                Some(u) => Some(u@),
                None => opt_view(old(self).upnp_info),
            },
            services_at(*services, old(self).ip) is None && upnp.lookup(old(self).ip) is None
                ==> final(self).last_seen == old(self).last_seen,
            r.deep_view() == mdns_candidate(services_at(*services, old(self).ip)),
    {
        let mut label: Option<String> = None;
        match services.get(&self.ip) {
            Some(list) => {
                self.services = clone_services(list);
                self.update_last_seen();
                if list.len() > 0 {
                    label = instance_label(list[0].instance_name.as_str());
                }
            },
            None => {},
        }
        match upnp.get(&self.ip) {
            Some(info) => {
                self.upnp_info = Some(info.to_upnp_info());
                self.update_last_seen();
            },
            None => {},
        }
        label
    }
}

/// Fuses the evidence about each seed device: `dns[i]` is the reverse-DNS
/// answer for `seeds[i]`. Devices keep their order.
pub fn fuse_devices(
    seeds: Vec<NetworkDevice>,
    services: &ServicesByAddress,
    upnp: &UpnpByAddress,
    dns: Vec<Hostname>,
) -> (r: Vec<NetworkDevice>)
    requires
        dns@.len() == seeds@.len(),
    ensures
        r@.len() == seeds@.len(),
        forall|i: int|
            0 <= i < r@.len() ==> fused(#[trigger] r@[i], seeds@[i], *services, *upnp, dns@[i]@),
        (forall|i: int, j: int| 0 <= i < j < seeds@.len() ==> (#[trigger] seeds@[i]).ip != (#[trigger] seeds@[j]).ip)
            ==> forall|i: int, j: int| 0 <= i < j < r@.len() ==> (#[trigger] r@[i]).ip != (#[trigger] r@[j]).ip,
{
    let ghost seeds0 = seeds@;
    let ghost dns0 = dns@;
    let n = seeds.len();
    let mut seeds = seeds;
    let mut dns = dns;
    let mut out: Vec<NetworkDevice> = Vec::new();
    let mut i: usize = 0;
    while i < n
        invariant
            n == seeds0.len(),
            dns0.len() == n,
            i <= n,
            seeds@ == seeds0.subrange(i as int, n as int),
            dns@ == dns0.subrange(i as int, n as int),
            out@.len() == i,
            forall|j: int| 0 <= j < i ==> fused(#[trigger] out@[j], seeds0[j], *services, *upnp, dns0[j]@),
        decreases n - i,
    {
        let mut d = seeds.remove(0);
        let answer = dns.remove(0);
        let ghost seed = d;
        let label = d.attach_discoveries(services, upnp);
        d.hostname = resolve_hostname(&d.upnp_info, answer, &label);
        d.build_identity();
        out.push(d);
        proof {
            assert(seeds@ =~= seeds0.subrange(i + 1, n as int));
            assert(dns@ =~= dns0.subrange(i + 1, n as int));
            assert(fused(out@[i as int], seeds0[i as int], *services, *upnp, dns0[i as int]@));
        }
        i += 1;
    }
    proof {
        assert forall|x: int, y: int| 0 <= x < y < out@.len() && seeds0[x].ip != seeds0[y].ip implies (
        #[trigger] out@[x]).ip != (#[trigger] out@[y]).ip by {
            assert(fused(out@[x], seeds0[x], *services, *upnp, dns0[x]@));
            assert(fused(out@[y], seeds0[y], *services, *upnp, dns0[y]@));
        }
    }
    out
}

} // verus!
