//! Parsers for the kernel's neighbour and route tables and for the resolver
//! configuration. Rows that do not parse are skipped.

use vstd::prelude::*;
use crate::device::{Gateway, NetworkDevice};
use crate::ip::{IpAddress, Ipv4Address};
use crate::mac::{hex_value, is_hex_char, is_hex_digit, is_mac_text, normalized_mac, MacAddress};
use crate::names::InterfaceName;
use crate::text::{chars_of, lines, lines_of, same_text, words, words_of};
use crate::types::{unknown_identity, Hostname};

verus! {

/// The lines after the header line.
pub open spec fn body_lines(content: Seq<char>) -> Seq<Seq<char>> {
    let l = lines_of(content);
    if l.len() == 0 {
        l
    } else {
        l.drop_first()
    }
}

/// A neighbour-table row, by its whitespace-separated fields: IP address,
/// hardware type, flags, MAC address, mask, interface. Kept when it has at
/// least six fields, the flags mark a complete entry (`0x2`), and the MAC
/// address is valid; gives the address text, the normalized MAC address and
/// the interface name.
pub open spec fn neighbor_row(f: Seq<Seq<char>>) -> Option<(Seq<char>, Seq<char>, Seq<char>)> {
    if f.len() >= 6 && f[2] == "0x2"@ && is_mac_text(normalized_mac(f[3])) {
        Some((f[0], normalized_mac(f[3]), f[5]))
    } else {
        None
    }
}

/// The complete rows of a neighbour table with a valid MAC address, in order.
pub open spec fn neighbor_rows(content: Seq<char>) -> Seq<(Seq<char>, Seq<char>, Seq<char>)> {
    body_lines(content).filter_map(|l: Seq<char>| neighbor_row(words_of(l)))
}

/// A complete neighbour-table row with a valid MAC address; its address is
/// still text.
#[derive(Debug)]
pub struct NeighborEntry {
    /// The IP address as the table writes it.
    pub address: String,
    pub mac: MacAddress,
    pub interface_name: InterfaceName,
}

impl View for NeighborEntry {
    type V = (Seq<char>, Seq<char>, Seq<char>);

    open spec fn view(&self) -> (Seq<char>, Seq<char>, Seq<char>) {
        (self.address@, self.mac@, self.interface_name@)
    }
}

impl NeighborEntry {
    /// The entry that one neighbour-table row gives, by its fields.
    pub fn from_fields(fields: &Vec<String>) -> (r: Option<NeighborEntry>)
        ensures
            match neighbor_row(fields.deep_view()) {
                Some(row) => r matches Some(e) && e@ == row,
                None => r is None,
            },
    {
        if fields.len() < 6 {
            return None;
        }
        proof {
            assert(fields.deep_view()[0] == fields@[0]@);
            assert(fields.deep_view()[2] == fields@[2]@);
            assert(fields.deep_view()[3] == fields@[3]@);
            assert(fields.deep_view()[5] == fields@[5]@);
        }
        if !same_text(fields[2].as_str(), "0x2") {
            return None;
        }
        let mac = match MacAddress::new(fields[3].clone()) {
            Ok(m) => m,
            Err(_) => return None,
        };
        Some(NeighborEntry { address: fields[0].clone(), mac, interface_name: InterfaceName::new(fields[5].clone()) })
    }
}

/// The complete rows with a valid MAC address of a neighbour table (the
/// text of `/proc/net/arp`, header line first), in table order.
pub fn parse_neighbor_entries(content: &str) -> (r: Vec<NeighborEntry>)
    ensures
        r@.len() == neighbor_rows(content@).len(),
        forall|i: int| 0 <= i < r@.len() ==> (#[trigger] r@[i])@ == neighbor_rows(content@)[i],
{
    let all = lines(content);
    let ghost body = body_lines(content@);
    let ghost f = |l: Seq<char>| neighbor_row(words_of(l));
    let mut entries: Vec<NeighborEntry> = Vec::new();
    if all.len() == 0 {
        assert(body.filter_map(f) =~= Seq::empty());
        return entries;
    }
    let mut i: usize = 1;
    while i < all.len()
        invariant
            1 <= i <= all@.len(),
            all.deep_view() == lines_of(content@),
            body == all.deep_view().drop_first(),
            f == (|l: Seq<char>| neighbor_row(words_of(l))),
            entries@.len() == body.take(i - 1).filter_map(f).len(),
            forall|j: int| 0 <= j < entries@.len() ==> (#[trigger] entries@[j])@ == body.take(i - 1).filter_map(f)[j],
        decreases all.len() - i,
    {
        let fields = words(all[i].as_str());
        proof {
            assert(all.deep_view()[i as int] == all@[i as int]@);
            assert(body.take(i as int).drop_last() =~= body.take(i - 1));
            assert(body.take(i as int).last() == all@[i as int]@);
        }
        let ghost prev = body.take(i - 1).filter_map(f);
        let ghost row = neighbor_row(fields.deep_view());
        assert(f(body.take(i as int).last()) == row);
        assert(body.take(i as int).filter_map(f) == match row {
            Some(x) => prev + seq![x],
            None => prev,
        });
        match NeighborEntry::from_fields(&fields) {
            Some(e) => {
                entries.push(e);
                assert(forall|j: int| 0 <= j < prev.len() ==> (prev + seq![row->0])[j] == prev[j]);
            },
            None => {},
        }
        i += 1;
    }
    assert(body.take(i - 1) =~= body);
    entries
}

/// The rows whose address text was read as an address: `addrs[i]` is what
/// the address text of `entries[i]` denotes, if anything.
pub open spec fn addressed_rows(entries: Seq<NeighborEntry>, addrs: Seq<Option<IpAddress>>) -> Seq<
    (IpAddress, Seq<char>, Seq<char>),
>
    decreases entries.len(),
{
    if entries.len() == 0 || addrs.len() == 0 {
        Seq::empty()
    } else {
        let rest = addressed_rows(entries.drop_last(), addrs.drop_last());
        match addrs.last() {
            Some(a) => rest.push((a, entries.last().mac@, entries.last().interface_name@)),
            None => rest,
        }
    }
}

/// Some row of `s` has address `a`.
pub open spec fn address_seen(s: Seq<(IpAddress, Seq<char>, Seq<char>)>, a: IpAddress) -> bool {
    exists|j: int| 0 <= j < s.len() && (#[trigger] s[j]).0 == a
}

/// The first row for each address, in order of first appearance.
pub open spec fn first_per_address(s: Seq<(IpAddress, Seq<char>, Seq<char>)>) -> Seq<
    (IpAddress, Seq<char>, Seq<char>),
>
    decreases s.len(),
{
    if s.len() == 0 {
        s
    } else {
        let r = first_per_address(s.drop_last());
        if address_seen(r, s.last().0) {
            r
        } else {
            r.push(s.last())
        }
    }
}

/// The rows a device list is made of: one per address, the first row for it.
pub open spec fn neighbor_devices(entries: Seq<NeighborEntry>, addrs: Seq<Option<IpAddress>>) -> Seq<
    (IpAddress, Seq<char>, Seq<char>),
> {
    first_per_address(addressed_rows(entries, addrs))
}

proof fn first_per_address_distinct(s: Seq<(IpAddress, Seq<char>, Seq<char>)>)
    ensures
        forall|x: int, y: int|
            0 <= x < y < first_per_address(s).len() ==> (#[trigger] first_per_address(s)[x]).0 != (
            #[trigger] first_per_address(s)[y]).0,
    decreases s.len(),
{
    if s.len() > 0 {
        first_per_address_distinct(s.drop_last());
        let r = first_per_address(s.drop_last());
        if !address_seen(r, s.last().0) {
            let t = r.push(s.last());
            assert forall|x: int, y: int| 0 <= x < y < t.len() implies (#[trigger] t[x]).0 != (#[trigger] t[y]).0 by {
                assert(t[x] == r[x]);
                if y < r.len() {
                    assert(t[y] == r[y]);
                }
            }
        }
    }
}

/// `d` is a fresh device for neighbour-table row `row`.
pub open spec fn device_for_row(d: NetworkDevice, row: (IpAddress, Seq<char>, Seq<char>)) -> bool {
    &&& d.ip == row.0
    &&& d.mac@ == row.1
    &&& d.interface_name@ == row.2
    &&& d.hostname == Hostname::Resolving
    &&& d.services@.len() == 0
    &&& d.upnp_info is None
    &&& d.identity@ == unknown_identity()
}

/// The seed devices of a neighbour table: `addresses[i]` is what the address
/// text of `entries[i]` denotes, if it is an address. Rows without an
/// address are skipped, and of several rows for one address the first is
/// kept, so no two devices share an address.
pub fn devices_from_neighbors(entries: &Vec<NeighborEntry>, addresses: &Vec<Option<IpAddress>>) -> (r: Vec<
    NetworkDevice,
>)
    requires
        addresses@.len() == entries@.len(),
    ensures
        r@.len() == neighbor_devices(entries@, addresses@).len(),
        forall|i: int|
            0 <= i < r@.len() ==> device_for_row(#[trigger] r@[i], neighbor_devices(entries@, addresses@)[i]),
        forall|i: int, j: int| 0 <= i < j < r@.len() ==> (#[trigger] r@[i]).ip != (#[trigger] r@[j]).ip,
{
    let mut devices: Vec<NetworkDevice> = Vec::new();
    let mut i: usize = 0;
    while i < entries.len()
        invariant
            i <= entries@.len(),
            addresses@.len() == entries@.len(),
            devices@.len() == first_per_address(addressed_rows(entries@.take(i as int), addresses@.take(i as int))).len(),
            forall|j: int|
                0 <= j < devices@.len() ==> device_for_row(
                    #[trigger] devices@[j],
                    first_per_address(addressed_rows(entries@.take(i as int), addresses@.take(i as int)))[j],
                ),
        decreases entries.len() - i,
    {
        let ghost rows0 = addressed_rows(entries@.take(i as int), addresses@.take(i as int));
        let ghost kept0 = first_per_address(rows0);
        proof {
            assert(entries@.take(i + 1).drop_last() =~= entries@.take(i as int));
            assert(addresses@.take(i + 1).drop_last() =~= addresses@.take(i as int));
        }
        match addresses[i] {
            Some(a) => {
                let ghost row = (a, entries@[i as int].mac@, entries@[i as int].interface_name@);
                assert(addressed_rows(entries@.take(i + 1), addresses@.take(i + 1)) == rows0.push(row));
                assert(rows0.push(row).drop_last() =~= rows0);
                assert(rows0.push(row).last() == row);
                let mut k: usize = 0;
                while k < devices.len() && devices[k].ip != a
                    invariant
                        k <= devices@.len(),
                        devices@.len() == kept0.len(),
                        forall|j: int| 0 <= j < devices@.len() ==> (#[trigger] devices@[j]).ip == kept0[j].0,
                        forall|j: int| 0 <= j < k ==> (#[trigger] kept0[j]).0 != a,
                    decreases devices.len() - k,
                {
                    k += 1;
                }
                if k == devices.len() {
                    assert(!address_seen(kept0, a));
                    let e = &entries[i];
                    let d = NetworkDevice::new(a, e.mac.clone(), e.interface_name.clone());
                    devices.push(d);
                    assert(forall|j: int| 0 <= j < kept0.len() ==> kept0.push(row)[j] == kept0[j]);
                    assert(first_per_address(rows0.push(row)) == kept0.push(row));
                } else {
                    assert(kept0[k as int].0 == a);
                    assert(address_seen(kept0, a));
                    assert(first_per_address(rows0.push(row)) == kept0);
                }
            },
            None => {
                assert(addressed_rows(entries@.take(i + 1), addresses@.take(i + 1)) == rows0);
            },
        }
        i += 1;
    }
    proof {
        assert(entries@.take(i as int) =~= entries@);
        assert(addresses@.take(i as int) =~= addresses@);
        first_per_address_distinct(addressed_rows(entries@, addresses@));
        assert forall|x: int, y: int| 0 <= x < y < devices@.len() implies (#[trigger] devices@[x]).ip != (
        #[trigger] devices@[y]).ip by {
            let kept = neighbor_devices(entries@, addresses@);
            assert(kept[x].0 != kept[y].0);
        }
    }
    devices
}

/// The value of two hex digits at `i` and `i + 1`.
pub open spec fn hex_byte(s: Seq<char>, i: int) -> int {
    16 * hex_value(s[i]) + hex_value(s[i + 1])
}

/// The digits of a hex number that may carry a leading `+`, padded back to
/// the text's length with a leading zero in place of the sign.
pub open spec fn hex_digits_of(s: Seq<char>) -> Seq<char> {
    if s.len() > 0 && s[0] == '+' {
        seq!['0'] + s.drop_first()
    } else {
        s
    }
}

/// A little-endian IPv4 address as the route table writes it, read as a
/// hexadecimal number: eight characters, either eight hex digits or `+` and
/// seven hex digits. `0101A8C0` and `+101A8C0` are both 192.168.1.1.
pub open spec fn is_hex_address_text(s: Seq<char>) -> bool {
    s.len() == 8 && forall|i: int| 0 <= i < 8 ==> is_hex_digit(#[trigger] hex_digits_of(s)[i])
}

/// The address that such a number denotes: its low octet first.
pub open spec fn hex_address(s: Seq<char>) -> Ipv4Address {
    let d = hex_digits_of(s);
    Ipv4Address(hex_byte(d, 6) as u8, hex_byte(d, 4) as u8, hex_byte(d, 2) as u8, hex_byte(d, 0) as u8)
}

/// Why a route-table address did not parse.
#[derive(Debug, Clone, Copy, PartialEq, Eq, Structural)]
pub enum HexAddressError {
    /// Not eight characters long.
    InvalidLength,
    /// Eight characters, but not hex digits after an optional `+`.
    InvalidHex,
}

fn hex_digit_value(c: char) -> (r: u8)
    requires
        is_hex_digit(c),
    ensures
        r as int == hex_value(c),
        r < 16,
{
    if '0' <= c && c <= '9' {
        (c as u32 - '0' as u32) as u8
    } else if 'A' <= c && c <= 'F' {
        (c as u32 - 'A' as u32 + 10) as u8
    } else {
        (c as u32 - 'a' as u32 + 10) as u8
    }
}

/// Reads a route-table address: eight characters that read as a hex number
/// (hex digits, after an optional `+`), least significant octet first.
pub fn parse_hex_ip(hex: &str) -> (r: Result<Ipv4Address, HexAddressError>)
    ensures
        match r {
            Ok(a) => is_hex_address_text(hex@) && a == hex_address(hex@),
            Err(e) => !is_hex_address_text(hex@) && (e == HexAddressError::InvalidLength <==> hex@.len() != 8),
        },
{
    let mut cs = chars_of(hex);
    if cs.len() != 8 {
        return Err(HexAddressError::InvalidLength);
    }
    if cs[0] == '+' {
        cs.set(0, '0');
    }
    assert(cs@ =~= hex_digits_of(hex@));
    let mut i: usize = 0;
    while i < 8
        invariant
            cs@ == hex_digits_of(hex@),
            cs@.len() == 8,
            i <= 8,
            forall|j: int| 0 <= j < i ==> is_hex_digit(#[trigger] cs@[j]),
        decreases 8 - i,
    {
        if !is_hex_char(cs[i]) {
            return Err(HexAddressError::InvalidHex);
        }
        i += 1;
    }
    let d0 = hex_digit_value(cs[0]);
    let d1 = hex_digit_value(cs[1]);
    let d2 = hex_digit_value(cs[2]);
    let d3 = hex_digit_value(cs[3]);
    let d4 = hex_digit_value(cs[4]);
    let d5 = hex_digit_value(cs[5]);
    let d6 = hex_digit_value(cs[6]);
    let d7 = hex_digit_value(cs[7]);
    Ok(Ipv4Address(16 * d6 + d7, 16 * d4 + d5, 16 * d2 + d3, 16 * d0 + d1))
}

/// The gateway of a route-table row, by its fields: interface, destination,
/// gateway, ... A default route has destination `00000000`.
pub open spec fn route_gateway(f: Seq<Seq<char>>) -> Option<Ipv4Address> {
    if f.len() >= 3 && f[1] == "00000000"@ && is_hex_address_text(f[2]) {
        Some(hex_address(f[2]))
    } else {
        None
    }
}

/// The gateway of the first default route whose gateway parses.
pub open spec fn first_gateway(rows: Seq<Seq<char>>) -> Option<Ipv4Address>
    decreases rows.len(),
{
    if rows.len() == 0 {
        None
    } else {
        match route_gateway(words_of(rows[0])) {
            Some(a) => Some(a),
            None => first_gateway(rows.drop_first()),
        }
    }
}

/// The default gateway in a route table (the text of `/proc/net/route`).
pub fn parse_default_gateway(content: &str) -> (r: Option<Gateway>)
    ensures
        r == match first_gateway(body_lines(content@)) {
            Some(a) => Some(Gateway(IpAddress::V4(a))),
            None => None,
        },
{
    let all = lines(content);
    if all.len() == 0 {
        return None;
    }
    let ghost body = body_lines(content@);
    let mut i: usize = 1;
    assert(body.subrange(0, body.len() as int) =~= body);
    while i < all.len()
        invariant
            1 <= i <= all@.len(),
            all.deep_view() == lines_of(content@),
            body == all.deep_view().drop_first(),
            first_gateway(body) == first_gateway(body.subrange(i - 1, body.len() as int)),
        decreases all.len() - i,
    {
        let fields = words(all[i].as_str());
        proof {
            let rest = body.subrange(i - 1, body.len() as int);
            assert(rest[0] == all@[i as int]@);
            assert(rest.drop_first() =~= body.subrange(i as int, body.len() as int));
        }
        if fields.len() >= 3 {
            proof {
                assert(fields.deep_view()[1] == fields@[1]@);
                assert(fields.deep_view()[2] == fields@[2]@);
            }
            if same_text(fields[1].as_str(), "00000000") {
                if let Ok(a) = parse_hex_ip(fields[2].as_str()) {
                    return Some(Gateway(IpAddress::V4(a)));
                }
            }
        }
        i += 1;
    }
    None
}

/// The address text of a resolver-configuration line, by its fields: a
/// `nameserver` line gives its second field. Comments and blank lines give
/// nothing, since their first field is not `nameserver`.
pub open spec fn nameserver_of(f: Seq<Seq<char>>) -> Option<Seq<char>> {
    if f.len() >= 2 && f[0] == "nameserver"@ {
        Some(f[1])
    } else {
        None
    }
}

/// The nameserver address texts of a resolver configuration, in order.
pub open spec fn nameservers(content: Seq<char>) -> Seq<Seq<char>> {
    lines_of(content).filter_map(|l: Seq<char>| nameserver_of(words_of(l)))
}

/// The nameserver address texts of a resolver configuration (the text of
/// `/etc/resolv.conf`), in order.
pub fn nameserver_entries(content: &str) -> (r: Vec<String>)
    ensures
        r.deep_view() == nameservers(content@),
{
    let all = lines(content);
    let ghost f = |l: Seq<char>| nameserver_of(words_of(l));
    let mut out: Vec<String> = Vec::new();
    let mut i: usize = 0;
    while i < all.len()
        invariant
            i <= all@.len(),
            all.deep_view() == lines_of(content@),
            f == (|l: Seq<char>| nameserver_of(words_of(l))),
            out.deep_view() == all.deep_view().take(i as int).filter_map(f),
        decreases all.len() - i,
    {
        let fields = words(all[i].as_str());
        proof {
            assert(all.deep_view()[i as int] == all@[i as int]@);
            assert(all.deep_view().take(i + 1).drop_last() =~= all.deep_view().take(i as int));
            assert(all.deep_view().take(i + 1).last() == all@[i as int]@);
            assert(f(all.deep_view().take(i + 1).last()) == nameserver_of(fields.deep_view()));
        }
        if fields.len() >= 2 {
            proof {
                assert(fields.deep_view()[0] == fields@[0]@);
                assert(fields.deep_view()[1] == fields@[1]@);
            }
            if same_text(fields[0].as_str(), "nameserver") {
                out.push(fields[1].clone());
                assert(out.deep_view() =~= all.deep_view().take(i + 1).filter_map(f));
            } else {
                assert(out.deep_view() =~= all.deep_view().take(i + 1).filter_map(f));
            }
        } else {
            assert(out.deep_view() =~= all.deep_view().take(i + 1).filter_map(f));
        }
        i += 1;
    }
    assert(all.deep_view().take(i as int) =~= all.deep_view());
    out
}

} // verus!
