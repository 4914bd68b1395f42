use vstd::prelude::*;

verus! {

/// A 32-byte account identifier.
#[derive(Clone, Copy, Debug, PartialEq, Eq, Hash)]
pub struct AccountId(pub [u8; 32]);

impl AccountId {
    /// The all-zero account, which the contracts use as the default account.
    pub fn zero() -> (r: AccountId)
        ensures
            r == AccountId::spec_zero(),
    {
        AccountId([0u8; 32])
    }

    pub open spec fn spec_zero() -> AccountId {
        AccountId(vstd::array::spec_array_fill_for_copy_type::<u8, 32>(0u8))
    }

    /// Byte-wise equality of two accounts.
    pub fn equals(&self, other: &AccountId) -> (r: bool)
        ensures
            r == (*self == *other),
    {
        broadcast use vstd::array::group_array_axioms;
        let mut i: usize = 0;
        while i < 32
            invariant
                i <= 32,
                forall|j: int| 0 <= j < i ==> self.0@[j] == other.0@[j],
            decreases 32 - i,
        {
            if self.0[i] != other.0[i] {
                return false;
            }
            i = i + 1;
        }
        assert(self.0 =~= other.0);
        true
    }
}

} // verus!

verus! {

/// A finite table from accounts to values, kept as a list of entries in which
/// no account occurs twice.
#[derive(Debug)]
pub struct AccountTable<V: Copy> {
    entries: Vec<(AccountId, V)>,
}

impl<V: Copy> AccountTable<V> {
    #[verifier::type_invariant]
    spec fn keys_distinct(self) -> bool {
        forall|i: int, j: int|
            0 <= i < j < self.entries@.len() ==> (#[trigger] self.entries@[i]).0 != (
            #[trigger] self.entries@[j]).0
    }

    spec fn has_key_at(self, k: AccountId, i: int) -> bool {
        0 <= i < self.entries@.len() && self.entries@[i].0 == k
    }

    /// The table as a map from accounts to values.
    pub closed spec fn view(&self) -> Map<AccountId, V> {
        Map::new(
            |k: AccountId| exists|i: int| self.has_key_at(k, i),
            |k: AccountId| self.entries@[choose|i: int| self.has_key_at(k, i)].1,
        )
    }

    /// An empty table.
    pub fn new() -> (r: Self)
        ensures
            r.view() == Map::<AccountId, V>::empty(),
    {
        let r = AccountTable { entries: Vec::new() };
        assert(r.view() =~= Map::<AccountId, V>::empty());
        r
    }

    fn find(&self, k: &AccountId) -> (r: Option<usize>)
        ensures
            match r {
                Some(i) => self.has_key_at(*k, i as int),
                None => !self.view().contains_key(*k),
            },
    {
        let mut i: usize = 0;
        while i < self.entries.len()
            invariant
                i <= self.entries@.len(),
                forall|j: int| 0 <= j < i ==> self.entries@[j].0 != *k,
            decreases self.entries@.len() - i,
        {
            if self.entries[i].0.equals(k) {
                return Some(i);
            }
            i = i + 1;
        }
        None
    }

    /// The value stored for `k`, if any.
    pub fn get(&self, k: &AccountId) -> (r: Option<V>)
        ensures
            r == (if self.view().contains_key(*k) {
                Some(self.view()[*k])
            } else {
                None::<V>
            }),
    {
        proof {
            use_type_invariant(self);
        }
        match self.find(k) {
            Some(i) => {
                proof {
                    let c = choose|j: int| self.has_key_at(*k, j);
                    assert(self.has_key_at(*k, c));
                    assert(c == i as int);
                }
                Some(self.entries[i].1)
            },
            None => None,
        }
    }

    /// Stores `v` for `k`, replacing any earlier value.
    pub fn insert(&mut self, k: AccountId, v: V)
        ensures
            final(self).view() == old(self).view().insert(k, v),
    {
        proof {
            use_type_invariant(&*self);
        }
        let ghost before = self.view();
        let ghost old_entries = self.entries@;
        let ghost mut pos: int = 0;
        match self.find(&k) {
            Some(i) => {
                let mut entries = Vec::new();
                std::mem::swap(&mut entries, &mut self.entries);
                entries.set(i, (k, v));
                proof {
                    pos = i as int;
                }
                assert forall|x: int, y: int|
                    0 <= x < y < entries@.len() implies (#[trigger] entries@[x]).0 != (
                    #[trigger] entries@[y]).0 by {
                    assert(old_entries[x].0 != old_entries[y].0);
                }
                self.entries = entries;
            },
            None => {
                let mut entries = Vec::new();
                std::mem::swap(&mut entries, &mut self.entries);
                entries.push((k, v));
                proof {
                    pos = old_entries.len() as int;
                }
                assert forall|x: int, y: int|
                    0 <= x < y < entries@.len() implies (#[trigger] entries@[x]).0 != (
                    #[trigger] entries@[y]).0 by {
                    if y == old_entries.len() {
                        if old_entries[x].0 == k {
                            assert(old(self).has_key_at(k, x));
                        }
                    } else {
                        assert(old_entries[x].0 != old_entries[y].0);
                    }
                }
                self.entries = entries;
            },
        }
        proof {
            let after = self.view();
            assert(self.has_key_at(k, pos));
            assert(self.entries@[pos] == (k, v));
            assert(forall|j: int|
                0 <= j < old_entries.len() && j != pos ==> self.entries@[j] == old_entries[j]);
            assert forall|a: AccountId| #[trigger] after.contains_key(a) == before.insert(
                k,
                v,
            ).contains_key(a) by {
                if a == k {
                } else {
                    if before.contains_key(a) {
                        let j = choose|j: int| old(self).has_key_at(a, j);
                        assert(self.has_key_at(a, j));
                    }
                    if after.contains_key(a) {
                        let j = choose|j: int| self.has_key_at(a, j);
                        assert(old(self).has_key_at(a, j));
                    }
                }
            }
            assert forall|a: AccountId| #[trigger] after.contains_key(a) implies after[a]
                == before.insert(k, v)[a] by {
                let c = choose|j: int| self.has_key_at(a, j);
                assert(self.has_key_at(a, c));
                if a == k {
                    assert(c == pos);
                } else {
                    assert(old(self).has_key_at(a, c));
                    let d = choose|j: int| old(self).has_key_at(a, j);
                    assert(old(self).has_key_at(a, d));
                    assert(c == d);
                }
            }
            assert(after =~= before.insert(k, v));
        }
    }
}

impl<V: Copy> Clone for AccountTable<V> {
    /// A copy of the table with the same entries.
    fn clone(&self) -> (r: Self)
        ensures
            r.view() == self.view(),
    {
        proof {
            use_type_invariant(self);
        }
        let mut entries: Vec<(AccountId, V)> = Vec::new();
        let mut i: usize = 0;
        while i < self.entries.len()
            invariant
                i <= self.entries@.len(),
                entries@ == self.entries@.subrange(0, i as int),
            decreases self.entries@.len() - i,
        {
            entries.push(self.entries[i]);
            i = i + 1;
        }
        assert(entries@ =~= self.entries@);
        let r = AccountTable { entries };
        assert forall|a: AccountId| #[trigger] r.view().contains_key(a) == self.view().contains_key(
            a,
        ) by {
            if r.view().contains_key(a) {
                let j = choose|j: int| r.has_key_at(a, j);
                assert(self.has_key_at(a, j));
            }
            if self.view().contains_key(a) {
                let j = choose|j: int| self.has_key_at(a, j);
                assert(r.has_key_at(a, j));
            }
        }
        assert forall|a: AccountId| #[trigger] r.view().contains_key(a) implies r.view()[a]
            == self.view()[a] by {
            let c = choose|j: int| r.has_key_at(a, j);
            let d = choose|j: int| self.has_key_at(a, j);
            assert(r.has_key_at(a, c));
            assert(self.has_key_at(a, d));
            assert(c == d);
        }
        assert(r.view() =~= self.view());
        r
    }
}

} // verus!
