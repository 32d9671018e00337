//! Internet addresses as plain values.

use vstd::prelude::*;
use crate::text::chars_of;

verus! {

/// An IPv4 address by its four octets, most significant first.
#[derive(Debug, Clone, Copy, PartialEq, Eq, Structural, Hash, PartialOrd, Ord)]
pub struct Ipv4Address(pub u8, pub u8, pub u8, pub u8);

/// An IPv6 address by its 128 bits, most significant first.
#[derive(Debug, Clone, Copy, PartialEq, Eq, Structural, Hash, PartialOrd, Ord)]
pub struct Ipv6Address(pub u128);

/// An IPv4 or IPv6 address.
#[derive(Debug, Clone, Copy, PartialEq, Eq, Structural, Hash, PartialOrd, Ord)]
pub enum IpAddress {
    V4(Ipv4Address),
    V6(Ipv6Address),
}

impl Ipv4Address {
    pub fn new(a: u8, b: u8, c: u8, d: u8) -> (r: Ipv4Address)
        ensures
            r == Ipv4Address(a, b, c, d),
    {
        Ipv4Address(a, b, c, d)
    }

    pub fn octets(&self) -> (r: [u8; 4])
        ensures
            r@ == seq![self.0, self.1, self.2, self.3],
    {
        [self.0, self.1, self.2, self.3]
    }

    /// In 127.0.0.0/8.
    pub open spec fn spec_is_loopback(self) -> bool {
        self.0 == 127
    }

    /// In 127.0.0.0/8.
    pub fn is_loopback(&self) -> (r: bool)
        ensures
            r == self.spec_is_loopback(),
    {
        self.0 == 127
    }
}

/// The pieces of `s` between occurrences of `sep`, as `str::split` gives
/// them: one more piece than there are separators.
pub open spec fn split_on(s: Seq<char>, sep: char) -> Seq<Seq<char>>
    decreases s.len(),
{
    if s.len() == 0 {
        seq![Seq::empty()]
    } else {
        let rest = split_on(s.drop_last(), sep);
        if s.last() == sep {
            rest.push(Seq::empty())
        } else {
            rest.update(rest.len() - 1, rest.last().push(s.last()))
        }
    }
}

pub proof fn split_on_has_a_piece(s: Seq<char>, sep: char)
    ensures
        split_on(s, sep).len() >= 1,
    decreases s.len(),
{
    if s.len() > 0 {
        split_on_has_a_piece(s.drop_last(), sep);
    }
}

/// The views of a sequence of character vectors.
pub open spec fn pieces_view(p: Seq<Vec<char>>) -> Seq<Seq<char>> {
    p.map_values(|v: Vec<char>| v@)
}

/// The pieces of a character sequence between occurrences of `sep`.
pub fn split_chars(cs: &Vec<char>, sep: char) -> (r: Vec<Vec<char>>)
    ensures
        pieces_view(r@) == split_on(cs@, sep),
{
    let mut pieces: Vec<Vec<char>> = Vec::new();
    let mut cur: Vec<char> = Vec::new();
    let mut i: usize = 0;
    while i < cs.len()
        invariant
            i <= cs@.len(),
            pieces_view(pieces@).push(cur@) == split_on(cs@.take(i as int), sep),
        decreases cs.len() - i,
    {
        let c = cs[i];
        proof {
            assert(cs@.take(i + 1).drop_last() =~= cs@.take(i as int));
            split_on_has_a_piece(cs@.take(i as int), sep);
        }
        if c == sep {
            let done = cur;
            pieces.push(done);
            cur = Vec::new();
            assert(pieces_view(pieces@).push(cur@) =~= split_on(cs@.take(i + 1), sep));
        } else {
            cur.push(c);
            assert(pieces_view(pieces@).push(cur@) =~= split_on(cs@.take(i + 1), sep));
        }
        i += 1;
    }
    assert(cs@.take(cs@.len() as int) =~= cs@);
    pieces.push(cur);
    assert(pieces_view(pieces@) =~= split_on(cs@, sep));
    pieces
}

/// A decimal digit.
pub open spec fn is_digit(c: char) -> bool {
    '0' as u32 <= c as u32 && c as u32 <= '9' as u32
}

/// The value of a string of decimal digits.
pub open spec fn decimal_value(s: Seq<char>) -> int
    decreases s.len(),
{
    if s.len() == 0 {
        0
    } else {
        decimal_value(s.drop_last()) * 10 + (s.last() as u32 - '0' as u32)
    }
}

/// One to three decimal digits, without a leading zero unless it is the
/// only digit, of value at most 255.
pub open spec fn is_octet_text(s: Seq<char>) -> bool {
    &&& 1 <= s.len() <= 3
    &&& forall|i: int| 0 <= i < s.len() ==> is_digit(#[trigger] s[i])
    &&& (s.len() > 1 ==> s[0] != '0')
    &&& decimal_value(s) <= 255
}

/// The IPv4 address that dotted-quad text denotes, if it is one.
pub open spec fn ipv4_of_text(s: Seq<char>) -> Option<Ipv4Address> {
    let p = split_on(s, '.');
    if p.len() == 4 && is_octet_text(p[0]) && is_octet_text(p[1]) && is_octet_text(p[2])
        && is_octet_text(p[3]) {
        Some(
            Ipv4Address(
                decimal_value(p[0]) as u8,
                decimal_value(p[1]) as u8,
                decimal_value(p[2]) as u8,
                decimal_value(p[3]) as u8,
            ),
        )
    } else {
        None
    }
}

proof fn decimal_value_bound(s: Seq<char>)
    requires
        forall|i: int| 0 <= i < s.len() ==> is_digit(#[trigger] s[i]),
    ensures
        0 <= decimal_value(s),
        s.len() <= 1 ==> decimal_value(s) <= 9,
        s.len() <= 2 ==> decimal_value(s) <= 99,
        s.len() <= 3 ==> decimal_value(s) <= 999,
    decreases s.len(),
{
    if s.len() > 0 {
        let r = s.drop_last();
        assert(is_digit(s.last()));
        decimal_value_bound(r);
        let d = s.last() as u32 - '0' as u32;
        let v = decimal_value(r);
        assert(0 <= d <= 9);
        assert(r.len() <= 2 ==> v * 10 + d <= 999) by (nonlinear_arith)
            requires r.len() <= 2 ==> v <= 99, 0 <= d <= 9;
        assert(r.len() <= 1 ==> v * 10 + d <= 99) by (nonlinear_arith)
            requires r.len() <= 1 ==> v <= 9, 0 <= d <= 9;
        assert(r.len() == 0 ==> v == 0);
    }
}

fn is_digit_char(c: char) -> (r: bool)
    ensures
        r == is_digit(c),
{
    '0' <= c && c <= '9'
}

fn octet_value(p: &Vec<char>) -> (r: Option<u8>)
    ensures
        r == (if is_octet_text(p@) {
            Some(decimal_value(p@) as u8)
        } else {
            None
        }),
{
    let n = p.len();
    if n < 1 || n > 3 {
        return None;
    }
    if n > 1 && p[0] == '0' {
        return None;
    }
    let mut value: u32 = 0;
    let mut i: usize = 0;
    while i < n
        invariant
            n == p@.len(),
            1 <= n <= 3,
            i <= n,
            forall|j: int| 0 <= j < i ==> is_digit(#[trigger] p@[j]),
            value == decimal_value(p@.take(i as int)),
        decreases n - i,
    {
        let c = p[i];
        if !is_digit_char(c) {
            return None;
        }
        proof {
            assert(p@.take(i + 1).drop_last() =~= p@.take(i as int));
            decimal_value_bound(p@.take(i as int));
        }
        value = value * 10 + (c as u32 - '0' as u32);
        i += 1;
    }
    assert(p@.take(n as int) =~= p@);
    if value > 255 {
        None
    } else {
        Some(value as u8)
    }
}

impl Ipv4Address {
    /// Reads dotted-quad text such as `192.168.1.1`.
    pub fn parse(text: &str) -> (r: Option<Ipv4Address>)
        ensures
            r == ipv4_of_text(text@),
    {
        let cs = chars_of(text);
        let parts = split_chars(&cs, '.');
        if parts.len() != 4 {
            return None;
        }
        proof {
            assert(pieces_view(parts@)[0] == parts@[0]@);
            assert(pieces_view(parts@)[1] == parts@[1]@);
            assert(pieces_view(parts@)[2] == parts@[2]@);
            assert(pieces_view(parts@)[3] == parts@[3]@);
        }
        let a = octet_value(&parts[0]);
        let b = octet_value(&parts[1]);
        let c = octet_value(&parts[2]);
        let d = octet_value(&parts[3]);
        match (a, b, c, d) {
            (Some(a), Some(b), Some(c), Some(d)) => Some(Ipv4Address(a, b, c, d)),
            _ => None,
        }
    }
}

} // verus!
