//! The records and actions that are locally available, and the addresses
//! that are still awaited.
//!
//! Validation reads its dependencies from a [`Store`] and never fetches
//! anything itself. Of an address the store says one of three things: here
//! is what it holds, it is awaited, or nothing. Where validation misses an
//! awaited one it names it in its answer; the caller fetches it, adds it,
//! and validates again. An address of which the store says nothing leads
//! nowhere, and what refers to it is rejected.

use vstd::prelude::*;
use crate::action::Action;
use crate::hash::ActionHash;
use crate::record::{Record, Resolution};
use crate::verdict::{Dependency, Wanted};
use crate::UnitEntryTypes;

verus! {

/// What a [`Store`] holds, by the bytes of the address.
pub struct Holdings {
    /// The accepted records.
    pub records: Map<Seq<u8>, Record>,
    /// The actions that are known, accepted or not.
    pub actions: Map<Seq<u8>, Action>,
    /// What is awaited: it may yet come.
    pub awaited: Set<Wanted>,
}

/// The locally available part of the record store.
pub struct Store {
    records: Vec<(ActionHash, Record)>,
    actions: Vec<(ActionHash, Action)>,
    awaited: Vec<Dependency>,
}

/// The views of `dependencies`, in order.
pub open spec fn wanted(dependencies: Seq<Dependency>) -> Seq<Wanted> {
    dependencies.map_values(|dependency: Dependency| dependency@)
}

/// The map that a list of additions amounts to: a later addition under the
/// same address replaces an earlier one.
pub open spec fn table<V>(entries: Seq<(ActionHash, V)>) -> Map<Seq<u8>, V>
    decreases entries.len(),
{
    if entries.len() == 0 {
        Map::empty()
    } else {
        table(entries.drop_last()).insert(entries.last().0@, entries.last().1)
    }
}

proof fn lemma_table_last_wins<V>(entries: Seq<(ActionHash, V)>, key: Seq<u8>, i: int)
    requires
        0 <= i < entries.len(),
        entries[i].0@ == key,
        forall|j: int| i < j < entries.len() ==> entries[j].0@ != key,
    ensures
        table(entries).contains_key(key),
        table(entries)[key] == entries[i].1,
    decreases entries.len(),
{
    if i < entries.len() - 1 {
        lemma_table_last_wins(entries.drop_last(), key, i);
    }
}

proof fn lemma_table_absent<V>(entries: Seq<(ActionHash, V)>, key: Seq<u8>)
    requires
        forall|j: int| 0 <= j < entries.len() ==> entries[j].0@ != key,
    ensures
        !table(entries).contains_key(key),
    decreases entries.len(),
{
    if entries.len() > 0 {
        lemma_table_absent(entries.drop_last(), key);
    }
}

/// The place of the last addition under `hash`.
fn find<V>(entries: &Vec<(ActionHash, V)>, hash: &ActionHash) -> (r: Option<usize>)
    ensures
        match r {
            Some(i) => i < entries.len() && table(entries@).contains_key(hash@) && table(
                entries@,
            )[hash@] == entries@[i as int].1,
            None => !table(entries@).contains_key(hash@),
        },
{
    let mut i: usize = entries.len();
    while i > 0
        invariant
            i <= entries.len(),
            forall|j: int| i <= j < entries.len() ==> entries@[j].0@ != hash@,
        decreases i,
    {
        i = i - 1;
        if entries[i].0.same(hash) {
            proof {
                lemma_table_last_wins(entries@, hash@, i as int);
            }
            return Some(i);
        }
    }
    proof {
        lemma_table_absent(entries@, hash@);
    }
    None
}

impl Holdings {
    /// Whether the accepted record at `hash` is awaited.
    pub open spec fn awaits_record(self, hash: Seq<u8>) -> bool {
        self.awaited.contains(Wanted::ValidRecord(hash))
    }

    /// Whether the action at `hash` is awaited.
    pub open spec fn awaits_action(self, hash: Seq<u8>) -> bool {
        self.awaited.contains(Wanted::Action(hash))
    }

    /// How `hash` resolves when an entry of `kind` is expected behind it:
    /// as the record that is there says; not yet, where there is none and
    /// one is awaited; and not at all, where nothing is said of `hash`.
    pub open spec fn resolve(self, hash: Seq<u8>, kind: UnitEntryTypes) -> Resolution {
        if self.records.contains_key(hash) {
            self.records[hash].entry.resolution(kind)
        } else if self.awaits_record(hash) {
            Resolution::NotYetAvailable
        } else {
            Resolution::Absent
        }
    }
}

impl View for Store {
    type V = Holdings;

    closed spec fn view(&self) -> Holdings {
        Holdings {
            records: table(self.records@),
            actions: table(self.actions@),
            awaited: wanted(self.awaited@).to_set(),
        }
    }
}

impl Store {
    /// A store that holds nothing and awaits nothing.
    pub fn new() -> (store: Store)
        ensures
            store@.records == Map::<Seq<u8>, Record>::empty(),
            store@.actions == Map::<Seq<u8>, Action>::empty(),
            store@.awaited == Set::<Wanted>::empty(),
    {
        let store = Store { records: Vec::new(), actions: Vec::new(), awaited: Vec::new() };
        assert(store@.awaited =~= Set::<Wanted>::empty());
        store
    }

    /// Adds the accepted record at `hash`, in place of what was there.
    pub fn insert_record(&mut self, hash: ActionHash, record: Record)
        ensures
            final(self)@.records == old(self)@.records.insert(hash@, record),
            final(self)@.actions == old(self)@.actions,
            final(self)@.awaited == old(self)@.awaited,
    {
        let ghost before = self.records@;
        self.records.push((hash, record));
        assert(self.records@.drop_last() =~= before);
    }

    /// Adds the action at `hash`, in place of what was there.
    pub fn insert_action(&mut self, hash: ActionHash, action: Action)
        ensures
            final(self)@.actions == old(self)@.actions.insert(hash@, action),
            final(self)@.records == old(self)@.records,
            final(self)@.awaited == old(self)@.awaited,
    {
        let ghost before = self.actions@;
        self.actions.push((hash, action));
        assert(self.actions@.drop_last() =~= before);
    }

    /// Says that `dependency` is awaited.
    pub fn await_dependency(&mut self, dependency: Dependency)
        ensures
            final(self)@.awaited == old(self)@.awaited.insert(dependency@),
            final(self)@.records == old(self)@.records,
            final(self)@.actions == old(self)@.actions,
    {
        let ghost before = wanted(self.awaited@);
        self.awaited.push(dependency);
        assert(wanted(self.awaited@) =~= before.push(dependency@));
        proof {
            lemma_push_to_set(before, dependency@);
        }
    }

    /// Says that each of `dependencies` is awaited.
    pub fn await_all(&mut self, dependencies: Vec<Dependency>)
        ensures
            final(self)@.awaited == old(self)@.awaited.union(wanted(dependencies@).to_set()),
            final(self)@.records == old(self)@.records,
            final(self)@.actions == old(self)@.actions,
    {
        let ghost before = wanted(self.awaited@);
        let ghost added = wanted(dependencies@);
        let mut dependencies = dependencies;
        self.awaited.append(&mut dependencies);
        assert(wanted(self.awaited@) =~= before + added);
        proof {
            lemma_add_to_set(before, added);
        }
    }

    /// The accepted record at `hash`, if it is available.
    pub fn get_record(&self, hash: &ActionHash) -> (r: Option<&Record>)
        ensures
            match r {
                Some(record) => self@.records.contains_key(hash@) && self@.records[hash@]
                    == *record,
                None => !self@.records.contains_key(hash@),
            },
    {
        match find(&self.records, hash) {
            Some(i) => Some(&self.records[i].1),
            None => None,
        }
    }

    /// The action at `hash`, if it is available.
    pub fn get_action(&self, hash: &ActionHash) -> (r: Option<&Action>)
        ensures
            match r {
                Some(action) => self@.actions.contains_key(hash@) && self@.actions[hash@]
                    == *action,
                None => !self@.actions.contains_key(hash@),
            },
    {
        match find(&self.actions, hash) {
            Some(i) => Some(&self.actions[i].1),
            None => None,
        }
    }

    /// Whether the accepted record at `hash` is awaited.
    pub fn awaits_record(&self, hash: &ActionHash) -> (r: bool)
        ensures
            r == self@.awaits_record(hash@),
    {
        let mut i: usize = 0;
        while i < self.awaited.len()
            invariant
                i <= self.awaited.len(),
                forall|j: int|
                    0 <= j < i ==> wanted(self.awaited@)[j] != Wanted::ValidRecord(hash@),
            decreases self.awaited.len() - i,
        {
            match &self.awaited[i] {
                Dependency::ValidRecord(awaited) => {
                    if awaited.same(hash) {
                        assert(wanted(self.awaited@)[i as int] == Wanted::ValidRecord(hash@));
                        return true;
                    }
                },
                Dependency::Action(_) => {},
            }
            i = i + 1;
        }
        false
    }

    /// Whether the action at `hash` is awaited.
    pub fn awaits_action(&self, hash: &ActionHash) -> (r: bool)
        ensures
            r == self@.awaits_action(hash@),
    {
        let mut i: usize = 0;
        while i < self.awaited.len()
            invariant
                i <= self.awaited.len(),
                forall|j: int| 0 <= j < i ==> wanted(self.awaited@)[j] != Wanted::Action(hash@),
            decreases self.awaited.len() - i,
        {
            match &self.awaited[i] {
                Dependency::Action(awaited) => {
                    if awaited.same(hash) {
                        assert(wanted(self.awaited@)[i as int] == Wanted::Action(hash@));
                        return true;
                    }
                },
                Dependency::ValidRecord(_) => {},
            }
            i = i + 1;
        }
        false
    }

    /// How `hash` resolves when an entry of `kind` is expected behind it.
    pub fn resolve(&self, hash: &ActionHash, kind: UnitEntryTypes) -> (r: Resolution)
        ensures
            r == self@.resolve(hash@, kind),
    {
        match self.get_record(hash) {
            Some(record) => record.entry.resolution(kind),
            None => if self.awaits_record(hash) {
                Resolution::NotYetAvailable
            } else {
                Resolution::Absent
            },
        }
    }
}

proof fn lemma_push_to_set(items: Seq<Wanted>, item: Wanted)
    ensures
        items.push(item).to_set() == items.to_set().insert(item),
{
    let pushed = items.push(item);
    assert forall|w: Wanted| pushed.to_set().contains(w) <==> items.to_set().insert(
        item,
    ).contains(w) by {
        if pushed.contains(w) {
            let i = choose|i: int| 0 <= i < pushed.len() && pushed[i] == w;
            if i < items.len() {
                assert(items[i] == w);
            }
        }
        if items.contains(w) {
            let i = choose|i: int| 0 <= i < items.len() && items[i] == w;
            assert(pushed[i] == w);
        }
        if w == item {
            assert(pushed[items.len() as int] == w);
        }
    }
    assert(pushed.to_set() =~= items.to_set().insert(item));
}

proof fn lemma_add_to_set(first: Seq<Wanted>, second: Seq<Wanted>)
    ensures
        (first + second).to_set() == first.to_set().union(second.to_set()),
{
    let both = first + second;
    assert forall|w: Wanted| both.to_set().contains(w) <==> first.to_set().union(
        second.to_set(),
    ).contains(w) by {
        if both.contains(w) {
            let i = choose|i: int| 0 <= i < both.len() && both[i] == w;
            if i < first.len() {
                assert(first[i] == w);
            } else {
                assert(second[i - first.len()] == w);
            }
        }
        if first.contains(w) {
            let i = choose|i: int| 0 <= i < first.len() && first[i] == w;
            assert(both[i] == w);
        }
        if second.contains(w) {
            let i = choose|i: int| 0 <= i < second.len() && second[i] == w;
            assert(both[first.len() + i] == w);
        }
    }
    assert(both.to_set() =~= first.to_set().union(second.to_set()));
}

} // verus!
