//! The record store: a generic keyed persistence abstraction.  Records are
//! stored at deterministically derived addresses; the store enforces no
//! business rules.  Its abstract value is the map from addresses to records.

use vstd::prelude::*;

use crate::records::{Address, AddressV, CustomError, Record, RecordV};

verus! {

/// One stored record together with the address it lives at.
struct Entry {
    addr: Address,
    rec: Record,
}

/// The map described by a sequence of entries: later entries shadow earlier
/// ones, though the store never keeps two entries at one address.
spec fn store_map(s: Seq<Entry>) -> Map<AddressV, RecordV>
    decreases s.len(),
{
    if s.len() == 0 {
        Map::empty()
    } else {
        store_map(s.drop_last()).insert(s.last().addr@, s.last().rec@)
    }
}

/// No two entries share an address.
spec fn entries_distinct(s: Seq<Entry>) -> bool {
    forall|i: int, j: int| 0 <= i < j < s.len() ==> s[i].addr@ != s[j].addr@
}

proof fn lemma_store_map_contains(s: Seq<Entry>, a: AddressV)
    ensures
        store_map(s).contains_key(a) <==> exists|i: int|
            0 <= i < s.len() && s[i].addr@ == a,
    decreases s.len(),
{
    if s.len() > 0 {
        lemma_store_map_contains(s.drop_last(), a);
        if s.last().addr@ == a {
            assert(s[s.len() - 1].addr@ == a);
        } else if exists|i: int| 0 <= i < s.drop_last().len() && s.drop_last()[i].addr@ == a {
            let i = choose|i: int| 0 <= i < s.drop_last().len() && s.drop_last()[i].addr@ == a;
            assert(s[i].addr@ == a);
        } else if exists|i: int| 0 <= i < s.len() && s[i].addr@ == a {
            let i = choose|i: int| 0 <= i < s.len() && s[i].addr@ == a;
            assert(0 <= i < s.len() - 1 ==> s.drop_last()[i].addr@ == a);
        }
    }
}

proof fn lemma_store_map_get(s: Seq<Entry>, i: int)
    requires
        entries_distinct(s),
        0 <= i < s.len(),
    ensures
        store_map(s).contains_key(s[i].addr@),
        store_map(s)[s[i].addr@] == s[i].rec@,
    decreases s.len(),
{
    if i < s.len() - 1 {
        assert(s.drop_last()[i] == s[i]);
        lemma_store_map_get(s.drop_last(), i);
        assert(s.last().addr@ != s[i].addr@);
    }
}

proof fn lemma_store_map_push(s: Seq<Entry>, e: Entry)
    ensures
        store_map(s.push(e)) == store_map(s).insert(e.addr@, e.rec@),
{
    assert(s.push(e).drop_last() =~= s);
    assert(s.push(e).last() == e);
}

proof fn lemma_store_map_update(s: Seq<Entry>, i: int, e: Entry)
    requires
        entries_distinct(s),
        0 <= i < s.len(),
        e.addr@ == s[i].addr@,
    ensures
        entries_distinct(s.update(i, e)),
        store_map(s.update(i, e)) == store_map(s).insert(e.addr@, e.rec@),
    decreases s.len(),
{
    let t = s.update(i, e);
    if i == s.len() - 1 {
        assert(t.drop_last() =~= s.drop_last());
        assert(t.last() == e);
        assert(store_map(t) == store_map(s.drop_last()).insert(e.addr@, e.rec@));
        assert(store_map(s.drop_last()).insert(e.addr@, e.rec@) =~= store_map(s).insert(
            e.addr@,
            e.rec@,
        ));
    } else {
        assert(t.drop_last() =~= s.drop_last().update(i, e));
        assert(t.last() == s.last());
        assert(s.drop_last()[i] == s[i]);
        lemma_store_map_update(s.drop_last(), i, e);
        assert(s.last().addr@ != e.addr@);
        assert(store_map(t) == store_map(s.drop_last()).insert(e.addr@, e.rec@).insert(
            s.last().addr@,
            s.last().rec@,
        ));
        assert(store_map(s.drop_last()).insert(e.addr@, e.rec@).insert(
            s.last().addr@,
            s.last().rec@,
        ) =~= store_map(s).insert(e.addr@, e.rec@));
    }
}

/// A keyed persistence abstraction.  `create` refuses an occupied address,
/// `get` reports a missing one, and `put` replaces the record at an existing
/// address; no business invariant is validated here.
pub struct RecordStore {
    entries: Vec<Entry>,
}

impl View for RecordStore {
    type V = Map<AddressV, RecordV>;

    closed spec fn view(&self) -> Map<AddressV, RecordV> {
        store_map(self.entries@)
    }
}

impl RecordStore {
    /// The store keeps at most one record per address.
    pub closed spec fn wf(&self) -> bool {
        entries_distinct(self.entries@)
    }

    /// An empty store.
    pub fn new() -> (s: RecordStore)
        ensures
            s.wf(),
            s@ == Map::<AddressV, RecordV>::empty(),
    {
        RecordStore { entries: Vec::new() }
    }

    /// The index of the entry stored at `addr`, if any.
    fn find(&self, addr: &Address) -> (r: Option<usize>)
        ensures
            match r {
                Some(i) => 0 <= i < self.entries@.len() && self.entries@[i as int].addr@
                    == addr@,
                None => forall|i: int|
                    0 <= i < self.entries@.len() ==> self.entries@[i].addr@ != addr@,
            },
    {
        let mut i: usize = 0;
        while i < self.entries.len()
            invariant
                0 <= i <= self.entries@.len(),
                forall|j: int| 0 <= j < i ==> self.entries@[j].addr@ != addr@,
            decreases self.entries@.len() - i,
        {
            if self.entries[i].addr == *addr {
                return Some(i);
            }
            i = i + 1;
        }
        None
    }

    /// Stores `rec` at `addr`; fails `AlreadyExists` if a record already
    /// occupies that address, leaving the store unchanged.
    pub fn create(&mut self, addr: Address, rec: Record) -> (r: Result<(), CustomError>)
        requires
            old(self).wf(),
        ensures
            final(self).wf(),
            match r {
                Ok(()) => !old(self)@.contains_key(addr@) && final(self)@ == old(self)@.insert(
                    addr@,
                    rec@,
                ),
                Err(e) => e == CustomError::AlreadyExists && old(self)@.contains_key(addr@)
                    && final(self)@ == old(self)@,
            },
    {
        match self.find(&addr) {
            Some(i) => {
                proof {
                    lemma_store_map_get(self.entries@, i as int);
                }
                Err(CustomError::AlreadyExists)
            },
            None => {
                proof {
                    lemma_store_map_contains(self.entries@, addr@);
                }
                let ghost s0 = self.entries@;
                let ghost e0 = Entry { addr, rec };
                self.entries.push(Entry { addr, rec });
                proof {
                    lemma_store_map_push(s0, e0);
                    assert forall|i: int, j: int|
                        0 <= i < j < self.entries@.len() implies self.entries@[i].addr@
                        != self.entries@[j].addr@ by {
                        if j < s0.len() {
                            assert(s0[i].addr@ != s0[j].addr@);
                        }
                    }
                }
                Ok(())
            },
        }
    }

    /// The record stored at `addr`; fails `NotFound` if the address is
    /// unoccupied.
    pub fn get(&self, addr: &Address) -> (r: Result<&Record, CustomError>)
        requires
            self.wf(),
        ensures
            match r {
                Ok(rec) => self@.contains_key(addr@) && rec@ == self@[addr@],
                Err(e) => e == CustomError::NotFound && !self@.contains_key(addr@),
            },
    {
        match self.find(addr) {
            Some(i) => {
                proof {
                    lemma_store_map_get(self.entries@, i as int);
                }
                Ok(&self.entries[i].rec)
            },
            None => {
                proof {
                    lemma_store_map_contains(self.entries@, addr@);
                }
                Err(CustomError::NotFound)
            },
        }
    }

    /// Replaces the record at the occupied address `addr` with `rec`.
    pub fn put(&mut self, addr: &Address, rec: Record)
        requires
            old(self).wf(),
            old(self)@.contains_key(addr@),
        ensures
            final(self).wf(),
            final(self)@ == old(self)@.insert(addr@, rec@),
    {
        proof {
            lemma_store_map_contains(self.entries@, addr@);
        }
        match self.find(addr) {
            Some(i) => {
                let e = Entry { addr: addr.clone(), rec };
                let ghost s0 = self.entries@;
                let ghost eg = e;
                self.entries[i] = e;
                proof {
                    lemma_store_map_update(s0, i as int, eg);
                }
            },
            None => {
                proof {
                    let i = choose|i: int|
                        0 <= i < self.entries@.len() && self.entries@[i].addr@ == addr@;
                    assert(self.entries@[i].addr@ != addr@);
                }
            },
        }
    }
}

} // verus!
