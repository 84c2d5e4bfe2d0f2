use vstd::prelude::*;

use crate::address::Address;

verus! {

/// The map that a list of entries denotes: each entry binds its address to
/// its value, and a later entry for the same address overrides an earlier one.
pub open spec fn entries_map<V>(entries: Seq<(Address, V)>) -> Map<Seq<u8>, V>
    decreases entries.len(),
{
    if entries.len() == 0 {
        Map::empty()
    } else {
        entries_map(entries.drop_last()).insert(entries.last().0@, entries.last().1)
    }
}

/// Extending a prefix of the entries by one entry binds that entry's address.
proof fn lemma_entries_map_prefix_step<V>(entries: Seq<(Address, V)>, i: int)
    requires
        0 <= i < entries.len(),
    ensures
        entries_map(entries.take(i + 1)) == entries_map(entries.take(i)).insert(
            entries[i].0@,
            entries[i].1,
        ),
{
    assert(entries.take(i + 1).drop_last() =~= entries.take(i));
}

/// Overwriting the last entry for an address rebinds that address.
proof fn lemma_entries_map_update_last<V>(entries: Seq<(Address, V)>, i: int, key: Address, value: V)
    requires
        0 <= i < entries.len(),
        entries[i].0@ == key@,
        forall|j: int| i < j < entries.len() ==> entries[j].0@ != key@,
    ensures
        entries_map(entries.update(i, (key, value))) == entries_map(entries).insert(key@, value),
    decreases entries.len(),
{
    let updated = entries.update(i, (key, value));
    if i == entries.len() - 1 {
        assert(updated.drop_last() =~= entries.drop_last());
        assert(entries_map(updated) =~= entries_map(entries).insert(key@, value));
    } else {
        let rest = entries.drop_last();
        assert(updated.drop_last() =~= rest.update(i, (key, value)));
        lemma_entries_map_update_last(rest, i, key, value);
        assert(entries.last().0@ != key@);
        assert(entries_map(updated) =~= entries_map(entries).insert(key@, value));
    }
}

/// A table from addresses to values, as a contract keeps under keys that
/// name an address.
pub struct AddressMap<V> {
    entries: Vec<(Address, V)>,
}

impl<V> View for AddressMap<V> {
    type V = Map<Seq<u8>, V>;

    closed spec fn view(&self) -> Map<Seq<u8>, V> {
        entries_map(self.entries@)
    }
}

impl<V: Copy> AddressMap<V> {
    /// The empty table.
    pub fn new() -> (m: Self)
        ensures
            m@ == Map::<Seq<u8>, V>::empty(),
    {
        let m = AddressMap { entries: Vec::new() };
        assert(m@ =~= Map::<Seq<u8>, V>::empty());
        m
    }

    /// The position of the last entry for `key`, if there is one.
    fn find_last(&self, key: &Address) -> (r: Option<usize>)
        ensures
            r is None ==> !self@.contains_key(key@),
            r matches Some(i) ==> i < self.entries@.len() && self.entries@[i as int].0@ == key@
                && (forall|j: int|
                i < j < self.entries@.len() ==> self.entries@[j].0@ != key@) && self@.contains_key(
                key@,
            ) && self@[key@] == self.entries@[i as int].1,
    {
        let n = self.entries.len();
        let ghost s = self.entries@;
        assert(s.take(n as int) =~= s);
        let mut i: usize = n;
        while i > 0
            invariant
                n == s.len(),
                s == self.entries@,
                i <= n,
                forall|j: int| i <= j < n ==> s[j].0@ != key@,
                entries_map(s).contains_key(key@) == entries_map(s.take(i as int)).contains_key(
                    key@,
                ),
                entries_map(s).contains_key(key@) ==> entries_map(s)[key@] == entries_map(
                    s.take(i as int),
                )[key@],
            decreases i,
        {
            i = i - 1;
            proof {
                lemma_entries_map_prefix_step(s, i as int);
            }
            if self.entries[i].0.same_as(key) {
                return Some(i);
            }
        }
        assert(s.take(0) =~= Seq::<(Address, V)>::empty());
        None
    }

    /// The value bound to `key`, if any.
    pub fn get(&self, key: &Address) -> (r: Option<V>)
        ensures
            r == (if self@.contains_key(key@) {
                Some(self@[key@])
            } else {
                None::<V>
            }),
    {
        match self.find_last(key) {
            Some(i) => Some(self.entries[i].1),
            None => None,
        }
    }

    /// Whether `key` is bound.
    pub fn contains_key(&self, key: &Address) -> (r: bool)
        ensures
            r == self@.contains_key(key@),
    {
        self.get(key).is_some()
    }

    /// Binds `key` to `value`, replacing any earlier binding.
    pub fn set(&mut self, key: Address, value: V)
        ensures
            final(self)@ == old(self)@.insert(key@, value),
    {
        let ghost s = self.entries@;
        match self.find_last(&key) {
            Some(i) => {
                proof {
                    lemma_entries_map_update_last(s, i as int, key, value);
                }
                self.entries.set(i, (key, value));
            },
            None => {
                self.entries.push((key, value));
                assert(self.entries@.drop_last() =~= s);
            },
        }
    }
}

} // verus!
