//! The address arithmetic of the probe sweep: which /24 subnets to probe,
//! and which hosts in each.

use vstd::prelude::*;
use crate::device::NetworkInterface;
use crate::ip::{IpAddress, Ipv4Address};

verus! {

/// The IPv4 address of an interface that the sweep considers: non-loopback.
pub open spec fn sweep_address(i: NetworkInterface) -> Option<Ipv4Address> {
    match i.ip {
        IpAddress::V4(a) => if a.spec_is_loopback() {
            None
        } else {
            Some(a)
        },
        IpAddress::V6(_) => None,
    }
}

/// Two addresses in the same /24 subnet.
pub open spec fn same_prefix(a: Ipv4Address, b: Ipv4Address) -> bool {
    a.0 == b.0 && a.1 == b.1 && a.2 == b.2
}

/// Some address of `s` shares the /24 subnet of `a`.
pub open spec fn prefix_seen(s: Seq<Ipv4Address>, a: Ipv4Address) -> bool {
    exists|j: int| 0 <= j < s.len() && same_prefix(#[trigger] s[j], a)
}

/// The first address of each /24 subnet, in order of first appearance.
pub open spec fn first_per_prefix(s: Seq<Ipv4Address>) -> Seq<Ipv4Address>
    decreases s.len(),
{
    if s.len() == 0 {
        s
    } else {
        let r = first_per_prefix(s.drop_last());
        if prefix_seen(r, s.last()) {
            r
        } else {
            r.push(s.last())
        }
    }
}

/// The base addresses the sweep probes from: the first non-loopback IPv4
/// interface address of each /24 subnet.
pub open spec fn sweep_bases(ifaces: Seq<NetworkInterface>) -> Seq<Ipv4Address> {
    first_per_prefix(ifaces.filter_map(|i: NetworkInterface| sweep_address(i)))
}

proof fn first_per_prefix_facts(s: Seq<Ipv4Address>)
    ensures
        forall|x: int, y: int|
            0 <= x < y < first_per_prefix(s).len() ==> !same_prefix(
                #[trigger] first_per_prefix(s)[x],
                #[trigger] first_per_prefix(s)[y],
            ),
        forall|k: int| 0 <= k < s.len() ==> prefix_seen(first_per_prefix(s), #[trigger] s[k]),
        forall|x: int| 0 <= x < first_per_prefix(s).len() ==> s.contains(#[trigger] first_per_prefix(s)[x]),
    decreases s.len(),
{
    if s.len() > 0 {
        let p = s.drop_last();
        first_per_prefix_facts(p);
        let r = first_per_prefix(p);
        if prefix_seen(r, s.last()) {
            assert forall|k: int| 0 <= k < s.len() implies prefix_seen(first_per_prefix(s), #[trigger] s[k]) by {
                if k < p.len() {
                    assert(s[k] == p[k]);
                }
            }
            assert forall|x: int| 0 <= x < r.len() implies s.contains(#[trigger] r[x]) by {
                let i = choose|i: int| 0 <= i < p.len() && p[i] == r[x];
                assert(s[i] == p[i]);
            }
        } else {
            let t = r.push(s.last());
            assert forall|x: int, y: int| 0 <= x < y < t.len() implies !same_prefix(#[trigger] t[x], #[trigger] t[y]) by {
                if y == r.len() {
                    assert(t[x] == r[x]);
                } else {
                    assert(t[x] == r[x] && t[y] == r[y]);
                }
            }
            assert forall|k: int| 0 <= k < s.len() implies prefix_seen(t, #[trigger] s[k]) by {
                if k < p.len() {
                    assert(s[k] == p[k]);
                    let j = choose|j: int| 0 <= j < r.len() && same_prefix(r[j], p[k]);
                    assert(t[j] == r[j]);
                } else {
                    assert(t[r.len() as int] == s[k]);
                }
            }
            assert forall|x: int| 0 <= x < t.len() implies s.contains(#[trigger] t[x]) by {
                if x < r.len() {
                    assert(t[x] == r[x]);
                    let i = choose|i: int| 0 <= i < p.len() && p[i] == r[x];
                    assert(s[i] == p[i]);
                } else {
                    assert(s[s.len() - 1] == t[x]);
                }
            }
        }
    }
}

/// The sweep probes each /24 subnet once: no two base addresses share a
/// subnet, every non-loopback IPv4 interface address has its subnet among
/// them, and each is the address of some interface.
pub proof fn sweep_covers_each_subnet_once(ifaces: Seq<NetworkInterface>)
    ensures
        forall|x: int, y: int|
            0 <= x < y < sweep_bases(ifaces).len() ==> !same_prefix(
                #[trigger] sweep_bases(ifaces)[x],
                #[trigger] sweep_bases(ifaces)[y],
            ),
        forall|k: int|
            0 <= k < ifaces.len() && #[trigger] sweep_address(ifaces[k]) is Some ==> prefix_seen(
                sweep_bases(ifaces),
                sweep_address(ifaces[k])->0,
            ),
        forall|x: int|
            0 <= x < sweep_bases(ifaces).len() ==> exists|k: int|
                0 <= k < ifaces.len() && sweep_address(ifaces[k]) == Some(#[trigger] sweep_bases(ifaces)[x]),
{
    let f = |i: NetworkInterface| sweep_address(i);
    let c = ifaces.filter_map(f);
    first_per_prefix_facts(c);
    filter_map_facts(ifaces, f);
    assert forall|k: int| 0 <= k < ifaces.len() && #[trigger] sweep_address(ifaces[k]) is Some implies prefix_seen(
        sweep_bases(ifaces),
        sweep_address(ifaces[k])->0,
    ) by {
        assert(f(ifaces[k]) == sweep_address(ifaces[k]));
        let j = choose|j: int| 0 <= j < c.len() && c[j] == sweep_address(ifaces[k])->0;
        assert(prefix_seen(first_per_prefix(c), c[j]));
    }
    assert forall|x: int| 0 <= x < sweep_bases(ifaces).len() implies exists|k: int|
        0 <= k < ifaces.len() && sweep_address(ifaces[k]) == Some(#[trigger] sweep_bases(ifaces)[x]) by {
        let j = choose|j: int| 0 <= j < c.len() && c[j] == first_per_prefix(c)[x];
        let k = choose|k: int| 0 <= k < ifaces.len() && f(ifaces[k]) == Some(c[j]);
        assert(sweep_address(ifaces[k]) == Some(sweep_bases(ifaces)[x]));
    }
}

proof fn filter_map_facts(s: Seq<NetworkInterface>, f: spec_fn(NetworkInterface) -> Option<Ipv4Address>)
    ensures
        forall|k: int| 0 <= k < s.len() && #[trigger] f(s[k]) is Some ==> s.filter_map(f).contains(f(s[k])->0),
        forall|j: int|
            0 <= j < s.filter_map(f).len() ==> exists|k: int|
                0 <= k < s.len() && f(s[k]) == Some(#[trigger] s.filter_map(f)[j]),
    decreases s.len(),
{
    if s.len() > 0 {
        let p = s.drop_last();
        filter_map_facts(p, f);
        let r = p.filter_map(f);
        assert forall|k: int| 0 <= k < s.len() && #[trigger] f(s[k]) is Some implies s.filter_map(f).contains(
            f(s[k])->0,
        ) by {
            match f(s.last()) {
                Some(v) => {
                    if k < p.len() {
                        assert(s[k] == p[k]);
                        let i = choose|i: int| 0 <= i < r.len() && r[i] == f(p[k])->0;
                        assert((r + seq![v])[i] == r[i]);
                    } else {
                        assert((r + seq![v])[r.len() as int] == v);
                    }
                },
                None => {
                    assert(s[k] == p[k]);
                },
            }
        }
        assert forall|j: int| 0 <= j < s.filter_map(f).len() implies exists|k: int|
            0 <= k < s.len() && f(s[k]) == Some(#[trigger] s.filter_map(f)[j]) by {
            match f(s.last()) {
                Some(v) => {
                    if j < r.len() {
                        assert((r + seq![v])[j] == r[j]);
                        let k = choose|k: int| 0 <= k < p.len() && f(p[k]) == Some(r[j]);
                        assert(s[k] == p[k]);
                    } else {
                        assert((r + seq![v])[j] == v);
                        assert(f(s[s.len() - 1]) == Some(v));
                    }
                },
                None => {
                    let k = choose|k: int| 0 <= k < p.len() && f(p[k]) == Some(r[j]);
                    assert(s[k] == p[k]);
                },
            }
        }
    }
}

fn seen(out: &Vec<Ipv4Address>, a: &Ipv4Address) -> (r: bool)
    ensures
        r == prefix_seen(out@, *a),
{
    let mut j: usize = 0;
    while j < out.len()
        invariant
            j <= out@.len(),
            forall|k: int| 0 <= k < j ==> !same_prefix(#[trigger] out@[k], *a),
        decreases out.len() - j,
    {
        let b = out[j];
        if b.0 == a.0 && b.1 == a.1 && b.2 == a.2 {
            return true;
        }
        j += 1;
    }
    false
}

/// The base addresses the sweep probes from: one per /24 subnet, the first
/// non-loopback IPv4 interface address seen in it.
pub fn subnets_to_scan(interfaces: &Vec<NetworkInterface>) -> (r: Vec<Ipv4Address>)
    ensures
        r@ == sweep_bases(interfaces@),
{
    let ghost f = |i: NetworkInterface| sweep_address(i);
    let mut candidates: Vec<Ipv4Address> = Vec::new();
    let mut i: usize = 0;
    while i < interfaces.len()
        invariant
            i <= interfaces@.len(),
            f == (|i: NetworkInterface| sweep_address(i)),
            candidates@ == interfaces@.take(i as int).filter_map(f),
        decreases interfaces.len() - i,
    {
        proof {
            assert(interfaces@.take(i + 1).drop_last() =~= interfaces@.take(i as int));
        }
        match &interfaces[i].ip {
            IpAddress::V4(a) => if !a.is_loopback() {
                candidates.push(*a);
            },
            IpAddress::V6(_) => {},
        }
        i += 1;
    }
    assert(interfaces@.take(i as int) =~= interfaces@);
    let mut out: Vec<Ipv4Address> = Vec::new();
    let mut k: usize = 0;
    while k < candidates.len()
        invariant
            k <= candidates@.len(),
            out@ == first_per_prefix(candidates@.take(k as int)),
        decreases candidates.len() - k,
    {
        proof {
            assert(candidates@.take(k + 1).drop_last() =~= candidates@.take(k as int));
        }
        let a = candidates[k];
        if !seen(&out, &a) {
            out.push(a);
        }
        k += 1;
    }
    assert(candidates@.take(k as int) =~= candidates@);
    out
}

/// The 254 host addresses `.1` to `.254` of the /24 subnet of `base`.
pub fn generate_subnet_ips(base: &Ipv4Address) -> (r: Vec<Ipv4Address>)
    ensures
        r@.len() == 254,
        forall|i: int| 0 <= i < 254 ==> #[trigger] r@[i] == Ipv4Address(base.0, base.1, base.2, (i + 1) as u8),
{
    let mut out: Vec<Ipv4Address> = Vec::new();
    let mut last: u8 = 1;
    while last <= 254
        invariant
            1 <= last <= 255,
            out@.len() == last - 1,
            forall|i: int| 0 <= i < out@.len() ==> #[trigger] out@[i] == Ipv4Address(base.0, base.1, base.2, (i + 1) as u8),
        decreases 255 - last,
    {
        out.push(Ipv4Address(base.0, base.1, base.2, last));
        last += 1;
    }
    out
}

} // verus!
