//! The client's table of UDP mappings: for each remote peer that sent a
//! datagram through the tunnel, the local socket that relays its traffic.
//! Once the table is closed, a relay that ends no longer removes itself.
use vstd::prelude::*;

use crate::addr::SocketAddr;

verus! {

/// No key occurs twice in the entries.
pub open spec fn keys_unique<V>(s: Seq<(SocketAddr, V)>) -> bool {
    forall|i: int, j: int| 0 <= i < j < s.len() ==> #[trigger] s[i].0 != #[trigger] s[j].0
}

/// Some entry has key `k`.
pub open spec fn has_key<V>(s: Seq<(SocketAddr, V)>, k: SocketAddr) -> bool {
    exists|i: int| 0 <= i < s.len() && #[trigger] s[i].0 == k
}

/// The map that a list of entries stands for.
pub open spec fn entries_map<V>(s: Seq<(SocketAddr, V)>) -> Map<SocketAddr, V>
    decreases s.len(),
{
    if s.len() == 0 {
        Map::empty()
    } else {
        entries_map(s.drop_last()).insert(s.last().0, s.last().1)
    }
}

proof fn lemma_entries_map_dom<V>(s: Seq<(SocketAddr, V)>, k: SocketAddr)
    ensures
        entries_map(s).dom().contains(k) <==> has_key(s, k),
    decreases s.len(),
{
    if s.len() > 0 {
        let t = s.drop_last();
        lemma_entries_map_dom(t, k);
        if has_key(t, k) {
            let i = choose|i: int| 0 <= i < t.len() && #[trigger] t[i].0 == k;
            assert(s[i].0 == k);
        }
        if has_key(s, k) && s.last().0 != k {
            let i = choose|i: int| 0 <= i < s.len() && #[trigger] s[i].0 == k;
            assert(t[i].0 == k);
        }
        if s.last().0 == k {
            assert(s[s.len() - 1].0 == k);
        }
    }
}

proof fn lemma_entries_map_at<V>(s: Seq<(SocketAddr, V)>, i: int)
    requires
        keys_unique(s),
        0 <= i < s.len(),
    ensures
        entries_map(s).dom().contains(s[i].0),
        entries_map(s)[s[i].0] == s[i].1,
    decreases s.len(),
{
    let t = s.drop_last();
    if i < s.len() - 1 {
        assert(s[i].0 != s[s.len() - 1].0);
        assert(keys_unique(t)) by {
            assert forall|a: int, b: int| 0 <= a < b < t.len() implies #[trigger] t[a].0
                != #[trigger] t[b].0 by {
                assert(s[a].0 != s[b].0);
            }
        }
        lemma_entries_map_at(t, i);
    }
}

proof fn lemma_unique_drop_last<V>(s: Seq<(SocketAddr, V)>)
    requires
        keys_unique(s),
        s.len() > 0,
    ensures
        keys_unique(s.drop_last()),
        !has_key(s.drop_last(), s.last().0),
{
    let t = s.drop_last();
    assert forall|a: int, b: int| 0 <= a < b < t.len() implies #[trigger] t[a].0
        != #[trigger] t[b].0 by {
        assert(s[a].0 != s[b].0);
    }
    if has_key(t, s.last().0) {
        let i = choose|i: int| 0 <= i < t.len() && #[trigger] t[i].0 == s.last().0;
        assert(s[i].0 != s[s.len() - 1].0);
    }
}

proof fn lemma_entries_map_update<V>(s: Seq<(SocketAddr, V)>, i: int, v: V)
    requires
        keys_unique(s),
        0 <= i < s.len(),
    ensures
        entries_map(s.update(i, (s[i].0, v))) == entries_map(s).insert(s[i].0, v),
        keys_unique(s.update(i, (s[i].0, v))),
    decreases s.len(),
{
    let k = s[i].0;
    let u = s.update(i, (k, v));
    let t = s.drop_last();
    assert forall|a: int, b: int| 0 <= a < b < u.len() implies #[trigger] u[a].0
        != #[trigger] u[b].0 by {
        assert(s[a].0 != s[b].0);
    }
    lemma_unique_drop_last(s);
    if i == s.len() - 1 {
        assert(u.drop_last() =~= t);
        assert(entries_map(u) =~= entries_map(s).insert(k, v));
    } else {
        assert(u.drop_last() =~= t.update(i, (k, v)));
        assert(s[i].0 != s[s.len() - 1].0);
        lemma_entries_map_update(t, i, v);
        assert(entries_map(u) =~= entries_map(s).insert(k, v));
    }
}

proof fn lemma_entries_map_remove<V>(s: Seq<(SocketAddr, V)>, i: int)
    requires
        keys_unique(s),
        0 <= i < s.len(),
    ensures
        entries_map(s.remove(i)) == entries_map(s).remove(s[i].0),
        keys_unique(s.remove(i)),
    decreases s.len(),
{
    let k = s[i].0;
    let r = s.remove(i);
    let t = s.drop_last();
    assert forall|a: int, b: int| 0 <= a < b < r.len() implies #[trigger] r[a].0
        != #[trigger] r[b].0 by {
        let a2 = if a < i { a } else { a + 1 };
        let b2 = if b < i { b } else { b + 1 };
        assert(r[a] == s[a2]);
        assert(r[b] == s[b2]);
        assert(s[a2].0 != s[b2].0);
    }
    lemma_unique_drop_last(s);
    if i == s.len() - 1 {
        assert(r =~= t);
        lemma_entries_map_dom(t, k);
        assert(entries_map(r) =~= entries_map(s).remove(k));
    } else {
        assert(r.drop_last() =~= t.remove(i));
        assert(r.last() == s.last());
        assert(s[i].0 != s[s.len() - 1].0);
        lemma_entries_map_remove(t, i);
        assert(entries_map(r) =~= entries_map(s).remove(k));
    }
}

/// The relays of the UDP mappings, keyed by remote peer, and whether the
/// mapping that owns them has been shut down.
pub struct NatTable<V> {
    entries: Vec<(SocketAddr, V)>,
    closed: bool,
}

impl<V> View for NatTable<V> {
    type V = Map<SocketAddr, V>;

    closed spec fn view(&self) -> Map<SocketAddr, V> {
        entries_map(self.entries@)
    }
}

impl<V> NatTable<V> {
    #[verifier::type_invariant]
    closed spec fn inv(self) -> bool {
        keys_unique(self.entries@)
    }

    /// Whether the table has been shut down.
    pub closed spec fn spec_is_closed(&self) -> bool {
        self.closed
    }

    /// An empty, open table.
    pub fn new() -> (t: Self)
        ensures
            t@ == Map::<SocketAddr, V>::empty(),
            !t.spec_is_closed(),
    {
        let t = NatTable { entries: Vec::new(), closed: false };
        assert(t@ =~= Map::<SocketAddr, V>::empty());
        t
    }

    /// Whether the table has been shut down.
    pub fn is_closed(&self) -> (b: bool)
        ensures
            b == self.spec_is_closed(),
    {
        self.closed
    }

    /// The index of the entry for `addr`, if there is one.
    fn find(&self, addr: &SocketAddr) -> (r: Option<usize>)
        ensures
            match r {
                Some(i) => i < self.entries@.len() && self.entries@[i as int].0 == *addr,
                None => !has_key(self.entries@, *addr),
            },
    {
        let mut i: usize = 0;
        while i < self.entries.len()
            invariant
                0 <= i <= self.entries@.len(),
                forall|j: int| 0 <= j < i ==> #[trigger] self.entries@[j].0 != *addr,
            decreases self.entries@.len() - i,
        {
            if self.entries[i].0 == *addr {
                return Some(i);
            }
            i = i + 1;
        }
        None
    }

    /// The relay for `addr`, if the table has one.
    pub fn get(&self, addr: &SocketAddr) -> (r: Option<&V>)
        ensures
            match r {
                Some(v) => self@.dom().contains(*addr) && *v == self@[*addr],
                None => !self@.dom().contains(*addr),
            },
    {
        proof {
            use_type_invariant(self);
            lemma_entries_map_dom(self.entries@, *addr);
        }
        match self.find(addr) {
            Some(i) => {
                proof {
                    lemma_entries_map_at(self.entries@, i as int);
                }
                Some(&self.entries[i].1)
            },
            None => None,
        }
    }

    /// Records `relay` as the relay for `addr`, in place of any earlier one.
    pub fn insert(&mut self, addr: SocketAddr, relay: V)
        ensures
            final(self)@ == old(self)@.insert(addr, relay),
            final(self).spec_is_closed() == old(self).spec_is_closed(),
    {
        proof {
            use_type_invariant(&*self);
        }
        let mut entries: Vec<(SocketAddr, V)> = Vec::new();
        match self.find(&addr) {
            Some(i) => {
                std::mem::swap(&mut entries, &mut self.entries);
                proof {
                    lemma_entries_map_update(entries@, i as int, relay);
                }
                entries.set(i, (addr, relay));
                self.entries = entries;
            },
            None => {
                std::mem::swap(&mut entries, &mut self.entries);
                proof {
                    let s = entries@.push((addr, relay));
                    assert(s.drop_last() =~= entries@);
                    assert forall|a: int, b: int| 0 <= a < b < s.len() implies #[trigger] s[a].0
                        != #[trigger] s[b].0 by {
                        if b == s.len() - 1 {
                            assert(entries@[a].0 != addr);
                        }
                    }
                }
                entries.push((addr, relay));
                self.entries = entries;
            },
        }
    }

    /// Drops the relay for `addr` when it has ended, unless the table has
    /// been shut down, in which case nothing changes.
    pub fn remove_unless_closed(&mut self, addr: &SocketAddr)
        ensures
            old(self).spec_is_closed() ==> final(self)@ == old(self)@,
            !old(self).spec_is_closed() ==> final(self)@ == old(self)@.remove(*addr),
            final(self).spec_is_closed() == old(self).spec_is_closed(),
    {
        proof {
            use_type_invariant(&*self);
            lemma_entries_map_dom(self.entries@, *addr);
        }
        if self.closed {
            return;
        }
        match self.find(addr) {
            Some(i) => {
                let mut entries: Vec<(SocketAddr, V)> = Vec::new();
                std::mem::swap(&mut entries, &mut self.entries);
                proof {
                    lemma_entries_map_remove(entries@, i as int);
                }
                entries.remove(i);
                self.entries = entries;
            },
            None => {
                assert(old(self)@.remove(*addr) =~= old(self)@);
            },
        }
    }

    /// Shuts the table down: every relay is dropped and, from now on, an
    /// ending relay leaves the table as it is.
    pub fn close(&mut self)
        ensures
            final(self)@ == Map::<SocketAddr, V>::empty(),
            final(self).spec_is_closed(),
    {
        proof {
            use_type_invariant(&*self);
        }
        self.closed = true;
        self.entries = Vec::new();
        assert(self@ =~= Map::<SocketAddr, V>::empty());
    }
}

} // verus!
