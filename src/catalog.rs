//! Tables keyed by address, as discovery fills them.

use vstd::prelude::*;
use crate::ip::IpAddress;

verus! {

/// The index of the last entry with key `ip`.
pub open spec fn find_key<V>(entries: Seq<(IpAddress, V)>, ip: IpAddress) -> Option<int>
    decreases entries.len(),
{
    if entries.len() == 0 {
        None
    } else if entries.last().0 == ip {
        Some(entries.len() - 1)
    } else {
        find_key(entries.drop_last(), ip)
    }
}

proof fn find_key_in_range<V>(entries: Seq<(IpAddress, V)>, ip: IpAddress)
    ensures
        match find_key(entries, ip) {
            Some(k) => 0 <= k < entries.len() && entries[k].0 == ip,
            None => true,
        },
    decreases entries.len(),
{
    if entries.len() > 0 && entries.last().0 != ip {
        find_key_in_range(entries.drop_last(), ip);
    }
}

proof fn find_key_same_keys<V>(a: Seq<(IpAddress, V)>, b: Seq<(IpAddress, V)>, ip: IpAddress)
    requires
        a.len() == b.len(),
        forall|j: int| 0 <= j < a.len() ==> (#[trigger] a[j]).0 == b[j].0,
    ensures
        find_key(a, ip) == find_key(b, ip),
    decreases a.len(),
{
    if a.len() > 0 {
        find_key_same_keys(a.drop_last(), b.drop_last(), ip);
    }
}

/// A map from addresses to values, kept in order of first insertion.
#[derive(Debug)]
pub struct AddressMap<V> {
    entries: Vec<(IpAddress, V)>,
}

impl<V> AddressMap<V> {
    /// The value kept for `ip`, if any.
    pub closed spec fn lookup(&self, ip: IpAddress) -> Option<V> {
        match find_key(self.entries@, ip) {
            Some(k) => Some(self.entries@[k].1),
            None => None,
        }
    }

    /// The number of addresses that have a value.
    pub closed spec fn spec_len(&self) -> nat {
        self.entries@.len()
    }

    /// An empty map.
    pub fn new() -> (r: Self)
        ensures
            forall|ip: IpAddress| r.lookup(ip) is None,
            r.spec_len() == 0,
    {
        AddressMap { entries: Vec::new() }
    }

    fn position(&self, ip: &IpAddress) -> (r: Option<usize>)
        ensures
            match r {
                Some(k) => find_key(self.entries@, *ip) == Some(k as int) && k < self.entries@.len(),
                None => find_key(self.entries@, *ip) is None,
            },
    {
        let mut j: usize = self.entries.len();
        assert(self.entries@.take(j as int) =~= self.entries@);
        while j > 0
            invariant
                j <= self.entries@.len(),
                find_key(self.entries@, *ip) == find_key(self.entries@.take(j as int), *ip),
            decreases j,
        {
            if self.entries[j - 1].0 == *ip {
                return Some(j - 1);
            }
            assert(self.entries@.take(j as int).drop_last() =~= self.entries@.take(j - 1));
            j -= 1;
        }
        None
    }

    /// The value kept for `ip`, if any.
    pub fn get(&self, ip: &IpAddress) -> (r: Option<&V>)
        ensures
            match r {
                Some(v) => self.lookup(*ip) == Some(*v),
                None => self.lookup(*ip) is None,
            },
    {
        match self.position(ip) {
            Some(k) => Some(&self.entries[k].1),
            None => None,
        }
    }

    /// The number of addresses that have a value.
    pub fn len(&self) -> (r: usize)
        ensures
            r == self.spec_len(),
    {
        self.entries.len()
    }

    /// Keeps `value` for `ip`, replacing what was kept for it.
    pub fn insert(&mut self, ip: IpAddress, value: V)
        ensures
            final(self).lookup(ip) == Some(value),
            forall|other: IpAddress| other != ip ==> final(self).lookup(other) == old(self).lookup(other),
    {
        match self.position(&ip) {
            Some(k) => {
                proof {
                    find_key_in_range(old(self).entries@, ip);
                }
                self.entries.set(k, (ip, value));
                proof {
                    self.keys_kept(old(self).entries@, ip);
                }
            },
            None => {
                self.entries.push((ip, value));
                proof {
                    self.pushed_keeps_others(old(self).entries@, ip);
                }
            },
        }
    }

    /// After an entry for `ip` was pushed, every other lookup is what it was.
    proof fn pushed_keeps_others(&self, before: Seq<(IpAddress, V)>, ip: IpAddress)
        requires
            self.entries@.len() > 0,
            self.entries@ == before.push((ip, self.entries@.last().1)),
        ensures
            forall|other: IpAddress| other != ip ==> #[trigger] self.lookup(other) == (match find_key(before, other) {
                Some(k) => Some(before[k].1),
                None => None,
            }),
            find_key(self.entries@, ip) == Some(before.len() as int),
    {
        assert(self.entries@.drop_last() =~= before);
        assert forall|other: IpAddress| other != ip implies #[trigger] self.lookup(other) == (match find_key(before, other) {
            Some(k) => Some(before[k].1),
            None => None,
        }) by {
            find_key_in_range(before, other);
        }
    }

    /// After the entry for `ip` was replaced in place, every other lookup is
    /// what it was.
    proof fn keys_kept(&self, before: Seq<(IpAddress, V)>, ip: IpAddress)
        requires
            find_key(before, ip) matches Some(k) && self.entries@ == before.update(k, (ip, self.entries@[k].1)),
        ensures
            forall|other: IpAddress| other != ip ==> #[trigger] self.lookup(other) == (match find_key(before, other) {
                Some(k) => Some(before[k].1),
                None => None,
            }),
            find_key(self.entries@, ip) == find_key(before, ip),
    {
        find_key_in_range(before, ip);
        assert forall|j: int| 0 <= j < self.entries@.len() implies (#[trigger] self.entries@[j]).0
            == before[j].0 by {}
        assert forall|other: IpAddress| other != ip implies #[trigger] self.lookup(other) == (match find_key(before, other) {
            Some(k) => Some(before[k].1),
            None => None,
        }) by {
            find_key_same_keys(self.entries@, before, other);
            find_key_in_range(before, other);
        }
        find_key_same_keys(self.entries@, before, ip);
    }
}

impl<T> AddressMap<Vec<T>> {
    /// Appends `item` to the list kept for `ip`, starting one if there is none.
    pub fn append(&mut self, ip: IpAddress, item: T)
        ensures
            final(self).lookup(ip) matches Some(l) && l@ == match old(self).lookup(ip) {
                Some(p) => p@.push(item),
                None => seq![item],
            },
            forall|other: IpAddress| other != ip ==> final(self).lookup(other) == old(self).lookup(other),
    {
        match self.position(&ip) {
            Some(k) => {
                proof {
                    find_key_in_range(old(self).entries@, ip);
                }
                let (key, mut list) = self.entries.remove(k);
                list.push(item);
                self.entries.insert(k, (key, list));
                proof {
                    assert(self.entries@ =~= old(self).entries@.update(k as int, (ip, self.entries@[k as int].1)));
                    self.keys_kept(old(self).entries@, ip);
                }
            },
            None => {
                let mut list: Vec<T> = Vec::new();
                list.push(item);
                self.entries.push((ip, list));
                proof {
                    self.pushed_keeps_others(old(self).entries@, ip);
                }
                assert(list@ =~= seq![item]);
            },
        }
    }
}

} // verus!
