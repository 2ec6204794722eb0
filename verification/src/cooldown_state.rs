//! The cooldowns of a set of actions, one for each action at most.

use std::marker::PhantomData;
use vstd::prelude::*;
use crate::cooldown::{Cooldown, CooldownNotReady, CooldownView};
use crate::quantity::Quantity;

verus! {

/// An action of a finite set, each with a number of its own.
///
/// The number of an action never changes, and no two actions of one set share
/// a number: the cooldowns of a set are kept by these numbers.
pub trait Abilitylike: Sized {
    /// The number that stands for this action.
    spec fn ordinal(&self) -> u64;

    /// The number that stands for this action.
    fn index(&self) -> (i: u64)
        ensures
            i == self.ordinal(),
    ;
}

impl Abilitylike for u64 {
    open spec fn ordinal(&self) -> u64 {
        *self
    }

    fn index(&self) -> (i: u64) {
        *self
    }
}

/// The numbers of a sequence of actions, in the same order.
pub open spec fn ordinals<A: Abilitylike>(actions: Seq<A>) -> Seq<u64> {
    Seq::new(actions.len(), |i: int| actions[i].ordinal())
}

/// One action with its cooldown.
#[derive(Clone, Copy, Debug)]
struct Entry {
    key: u64,
    cooldown: Cooldown,
}

/// No action occurs twice, and every cooldown is in a state it can be in.
spec fn entries_inv(entries: Seq<Entry>) -> bool {
    &&& forall|i: int, j: int|
        0 <= i < entries.len() && 0 <= j < entries.len() && entries[i].key == entries[j].key
            ==> i == j
    &&& forall|i: int| 0 <= i < entries.len() ==> (#[trigger] entries[i]).cooldown@.wf()
}

/// Some entry is for `key`.
spec fn holds_key(entries: Seq<Entry>, key: u64) -> bool {
    exists|i: int| 0 <= i < entries.len() && (#[trigger] entries[i]).key == key
}

/// Where the entry for `key` stands, if there is one.
spec fn position(entries: Seq<Entry>, key: u64) -> int {
    choose|i: int| 0 <= i < entries.len() && (#[trigger] entries[i]).key == key
}

/// The mapping that a sequence of entries stands for.
spec fn mapping(entries: Seq<Entry>) -> Map<u64, CooldownView> {
    Map::new(|k: u64| holds_key(entries, k), |k: u64| entries[position(entries, k)].cooldown@)
}

/// The entry at a place is the one that its action is mapped to.
proof fn lemma_position(entries: Seq<Entry>, i: int)
    requires
        entries_inv(entries),
        0 <= i < entries.len(),
    ensures
        holds_key(entries, entries[i].key),
        position(entries, entries[i].key) == i,
        mapping(entries).contains_key(entries[i].key),
        mapping(entries)[entries[i].key] == entries[i].cooldown@,
{
    let key = entries[i].key;
    assert(holds_key(entries, key));
    let j = position(entries, key);
    assert(0 <= j < entries.len() && entries[j].key == key);
}

/// An action with no entry is not mapped.
proof fn lemma_absent(entries: Seq<Entry>, key: u64)
    requires
        forall|i: int| 0 <= i < entries.len() ==> (#[trigger] entries[i]).key != key,
    ensures
        !mapping(entries).contains_key(key),
{
}

/// Replacing the cooldown at a place changes the mapping at its action only.
proof fn lemma_replace(before: Seq<Entry>, after: Seq<Entry>, i: int)
    requires
        entries_inv(before),
        0 <= i < before.len(),
        after.len() == before.len(),
        after[i].key == before[i].key,
        after[i].cooldown@.wf(),
        forall|j: int| 0 <= j < before.len() && j != i ==> after[j] == before[j],
    ensures
        entries_inv(after),
        mapping(after) == mapping(before).insert(before[i].key, after[i].cooldown@),
{
    assert(forall|j: int| 0 <= j < before.len() ==> (#[trigger] after[j]).key == before[j].key);
    assert(entries_inv(after));
    assert forall|k: u64| holds_key(after, k) <==> holds_key(before, k) by {
        if holds_key(after, k) {
            let j = position(after, k);
            assert(before[j].key == k);
        }
        if holds_key(before, k) {
            let j = position(before, k);
            assert(after[j].key == k);
        }
    }
    assert forall|k: u64| holds_key(after, k) implies mapping(after)[k] == mapping(before).insert(
        before[i].key,
        after[i].cooldown@,
    )[k] by {
        let j = position(after, k);
        lemma_position(after, j);
        lemma_position(before, j);
    }
    lemma_position(before, i);
    assert(mapping(after) =~= mapping(before).insert(before[i].key, after[i].cooldown@));
}

/// Adding an entry for an action that had none adds it to the mapping.
proof fn lemma_push(before: Seq<Entry>, entry: Entry)
    requires
        entries_inv(before),
        !holds_key(before, entry.key),
        entry.cooldown@.wf(),
    ensures
        entries_inv(before.push(entry)),
        mapping(before.push(entry)) == mapping(before).insert(entry.key, entry.cooldown@),
{
    let after = before.push(entry);
    assert forall|i: int, j: int|
        0 <= i < after.len() && 0 <= j < after.len() && after[i].key == after[j].key implies i
        == j by {
        if i < before.len() {
            assert(before[i].key == after[i].key);
        }
        if j < before.len() {
            assert(before[j].key == after[j].key);
        }
    }
    assert(entries_inv(after));
    assert(after[before.len() as int].key == entry.key);
    assert forall|k: u64| holds_key(after, k) <==> (k == entry.key || holds_key(before, k)) by {
        if holds_key(after, k) {
            let j = position(after, k);
            if j < before.len() {
                assert(before[j].key == k);
            }
        }
        if holds_key(before, k) {
            let j = position(before, k);
            assert(after[j].key == k);
        }
    }
    assert forall|k: u64| holds_key(after, k) implies mapping(after)[k] == mapping(before).insert(
        entry.key,
        entry.cooldown@,
    )[k] by {
        let j = position(after, k);
        lemma_position(after, j);
        if j < before.len() {
            assert(before[j].key == k);
            lemma_position(before, j);
        }
    }
    assert(mapping(after) =~= mapping(before).insert(entry.key, entry.cooldown@));
}

/// Every cooldown of the mapping is in a state that a cooldown can be in.
pub open spec fn all_wf(cooldowns: Map<u64, CooldownView>) -> bool {
    forall|k: u64| cooldowns.contains_key(k) ==> (#[trigger] cooldowns[k]).wf()
}

/// The cooldowns of the actions of the set `A`, as a mapping from the number
/// of an action to its cooldown. An action without a cooldown is always ready.
#[derive(Debug)]
pub struct CooldownState<A> {
    entries: Vec<Entry>,
    actions: PhantomData<A>,
}

impl<A> View for CooldownState<A> {
    type V = Map<u64, CooldownView>;

    closed spec fn view(&self) -> Map<u64, CooldownView> {
        mapping(self.entries@)
    }
}

impl<A> Clone for CooldownState<A> {
    /// A state with the same cooldowns for the same actions.
    fn clone(&self) -> (copy: CooldownState<A>)
        ensures
            copy@ == self@,
    {
        proof {
            use_type_invariant(self);
        }
        let mut entries: Vec<Entry> = Vec::new();
        let mut i: usize = 0;
        while i < self.entries.len()
            invariant
                i <= self.entries@.len(),
                entries@ == self.entries@.subrange(0, i as int),
            decreases self.entries@.len() - i,
        {
            entries.push(self.entries[i]);
            assert(entries@ =~= self.entries@.subrange(0, i + 1));
            i = i + 1;
        }
        assert(entries@ =~= self.entries@);
        CooldownState { entries, actions: PhantomData }
    }
}

impl<A: Abilitylike> Default for CooldownState<A> {
    /// No action has a cooldown.
    fn default() -> (s: CooldownState<A>)
        ensures
            s@ == Map::<u64, CooldownView>::empty(),
    {
        CooldownState::new()
    }
}

impl<A> CooldownState<A> {
    #[verifier::type_invariant]
    spec fn inv(self) -> bool {
        entries_inv(self.entries@)
    }
}

impl<A: Abilitylike> CooldownState<A> {
    /// Where the entry for `key` stands.
    fn find(&self, key: u64) -> (r: Option<usize>)
        ensures
            match r {
                Some(i) => i < self.entries@.len() && self.entries@[i as int].key == key
                    && self@.contains_key(key) && self@[key] == self.entries@[i as int].cooldown@,
                None => !self@.contains_key(key) && !holds_key(self.entries@, key),
            },
    {
        proof {
            use_type_invariant(self);
        }
        let mut i: usize = 0;
        while i < self.entries.len()
            invariant
                i <= self.entries@.len(),
                entries_inv(self.entries@),
                forall|j: int| 0 <= j < i ==> (#[trigger] self.entries@[j]).key != key,
            decreases self.entries@.len() - i,
        {
            if self.entries[i].key == key {
                proof {
                    lemma_position(self.entries@, i as int);
                }
                return Some(i);
            }
            i = i + 1;
        }
        proof {
            lemma_absent(self.entries@, key);
        }
        None
    }

    /// Puts `cooldown` at the place `i`, whose action stays.
    fn replace(&mut self, i: usize, cooldown: Cooldown)
        requires
            i < old(self).entries@.len(),
        ensures
            final(self)@ == old(self)@.insert(old(self).entries@[i as int].key, cooldown@),
            all_wf(final(self)@),
    {
        proof {
            use_type_invariant(&*self);
            use_type_invariant(&cooldown);
        }
        let key = self.entries[i].key;
        let ghost before = self.entries@;
        let mut entries = Vec::new();
        std::mem::swap(&mut entries, &mut self.entries);
        entries.set(i, Entry { key, cooldown });
        proof {
            lemma_replace(before, entries@, i as int);
            lemma_all_wf(entries@);
        }
        *self = CooldownState { entries, actions: PhantomData };
    }

    /// No action has a cooldown.
    pub fn new() -> (s: CooldownState<A>)
        ensures
            s@ == Map::<u64, CooldownView>::empty(),
    {
        let s = CooldownState { entries: Vec::new(), actions: PhantomData };
        assert(s@ =~= Map::<u64, CooldownView>::empty());
        s
    }

    /// Gives `action` the cooldown `cooldown`, in place of the one it had, if
    /// any.
    pub fn set(&mut self, action: &A, cooldown: Cooldown)
        ensures
            final(self)@ == old(self)@.insert(action.ordinal(), cooldown@),
            all_wf(final(self)@),
    {
        proof {
            use_type_invariant(&*self);
            use_type_invariant(&cooldown);
        }
        let key = action.index();
        match self.find(key) {
            Some(i) => {
                self.replace(i, cooldown);
            },
            None => {
                let ghost before = self.entries@;
                let entry = Entry { key, cooldown };
                let mut entries = Vec::new();
                std::mem::swap(&mut entries, &mut self.entries);
                entries.push(entry);
                proof {
                    lemma_push(before, entry);
                    lemma_all_wf(entries@);
                }
                *self = CooldownState { entries, actions: PhantomData };
            },
        }
    }

    /// Gives each of `actions` the cooldown `cooldown`, in place of the one it
    /// had, if any.
    pub fn set_all(&mut self, actions: &Vec<A>, cooldown: Cooldown)
        ensures
            final(self)@ == with_all(old(self)@, ordinals(actions@), cooldown@),
            all_wf(final(self)@),
    {
        let ghost keys = ordinals(actions@);
        proof {
            use_type_invariant(&*self);
            lemma_all_wf(self.entries@);
            assert(keys.subrange(0, 0) =~= Seq::<u64>::empty());
            assert(self@ =~= with_all(self@, keys.subrange(0, 0), cooldown@));
        }
        let mut i: usize = 0;
        while i < actions.len()
            invariant
                i <= actions@.len(),
                keys == ordinals(actions@),
                self@ == with_all(old(self)@, keys.subrange(0, i as int), cooldown@),
                all_wf(self@),
            decreases actions@.len() - i,
        {
            let ghost done = keys.subrange(0, i as int);
            self.set(&actions[i], cooldown);
            proof {
                let next = keys.subrange(0, i + 1);
                assert(next =~= done.push(keys[i as int]));
                assert forall|k: u64| next.contains(k) <==> (done.contains(k) || k == keys[i as int]) by {
                    if next.contains(k) {
                        let j = choose|j: int| 0 <= j < next.len() && next[j] == k;
                        if j < done.len() {
                            assert(done[j] == k);
                        }
                    }
                    if done.contains(k) {
                        let j = choose|j: int| 0 <= j < done.len() && done[j] == k;
                        assert(next[j] == k);
                    }
                    if k == keys[i as int] {
                        assert(next[i as int] == k);
                    }
                }
                assert(self@ =~= with_all(old(self)@, next, cooldown@));
            }
            i = i + 1;
        }
        proof {
            assert(keys.subrange(0, i as int) =~= keys);
        }
    }

    /// The cooldown of `action`, if it has one.
    pub fn get(&self, action: &A) -> (r: Option<&Cooldown>)
        ensures
            match r {
                Some(cooldown) => self@.contains_key(action.ordinal()) && cooldown@
                    == self@[action.ordinal()],
                None => !self@.contains_key(action.ordinal()),
            },
            all_wf(self@),
    {
        proof {
            use_type_invariant(self);
            lemma_all_wf(self.entries@);
        }
        match self.find(action.index()) {
            Some(i) => Some(&self.entries[i].cooldown),
            None => None,
        }
    }

    /// Whether `action` can be triggered: its cooldown holds a charge, or it
    /// has no cooldown.
    pub fn ready(&self, action: &A) -> (b: bool)
        ensures
            b == ready_in(self@, action.ordinal()),
    {
        match self.find(action.index()) {
            Some(i) => self.entries[i].cooldown.ready(),
            None => true,
        }
    }

    /// Spends one charge of the cooldown of `action`. Without a charge nothing
    /// changes and the call fails. An action without a cooldown is triggered
    /// with no effect.
    pub fn trigger(&mut self, action: &A) -> (r: Result<(), CooldownNotReady>)
        ensures
            r is Ok <==> ready_in(old(self)@, action.ordinal()),
            final(self)@ == triggered(old(self)@, action.ordinal()),
            all_wf(final(self)@),
    {
        proof {
            use_type_invariant(&*self);
            lemma_all_wf(self.entries@);
        }
        match self.find(action.index()) {
            Some(i) => {
                let mut cooldown = self.entries[i].cooldown;
                match cooldown.trigger() {
                    Ok(()) => {
                        self.replace(i, cooldown);
                        Ok(())
                    },
                    Err(e) => Err(e),
                }
            },
            None => Ok(()),
        }
    }

    /// Lets `delta_time` pass for every cooldown. Elapsed time is never
    /// negative.
    pub fn tick_all(&mut self, delta_time: Quantity)
        requires
            delta_time@ >= 0,
        ensures
            final(self)@ == ticked(old(self)@, delta_time@),
            all_wf(final(self)@),
    {
        proof {
            use_type_invariant(&*self);
        }
        let ghost before = self.entries@;
        let ghost start = self@;
        let mut entries = Vec::new();
        std::mem::swap(&mut entries, &mut self.entries);
        let mut i: usize = 0;
        while i < entries.len()
            invariant
                i <= entries@.len(),
                entries@.len() == before.len(),
                entries_inv(before),
                entries_inv(entries@),
                delta_time@ >= 0,
                forall|j: int|
                    0 <= j < before.len() ==> (#[trigger] entries@[j]).key == before[j].key,
                forall|j: int|
                    0 <= j < i ==> (#[trigger] entries@[j]).cooldown@ == before[j].cooldown@.tick(
                        delta_time@,
                    ),
                forall|j: int| i <= j < before.len() ==> (#[trigger] entries@[j]) == before[j],
            decreases entries@.len() - i,
        {
            let ghost previous = entries@;
            let mut entry = entries[i];
            entry.cooldown.tick(delta_time);
            entries.set(i, entry);
            proof {
                lemma_replace(previous, entries@, i as int);
            }
            i = i + 1;
        }
        proof {
            lemma_all_wf(entries@);
            assert forall|k: u64| holds_key(entries@, k) <==> holds_key(before, k) by {
                if holds_key(entries@, k) {
                    let j = position(entries@, k);
                    assert(before[j].key == k);
                }
                if holds_key(before, k) {
                    let j = position(before, k);
                    assert(entries@[j].key == k);
                }
            }
            assert forall|k: u64| holds_key(before, k) implies mapping(entries@)[k] == mapping(
                before,
            )[k].tick(delta_time@) by {
                let j = position(before, k);
                assert(entries@[j].key == k);
                lemma_position(entries@, j);
                lemma_position(before, j);
            }
            assert(mapping(entries@) =~= ticked(start, delta_time@));
        }
        *self = CooldownState { entries, actions: PhantomData };
    }
}

/// The mapping of entries that satisfy the invariant holds sound cooldowns only.
proof fn lemma_all_wf(entries: Seq<Entry>)
    requires
        entries_inv(entries),
    ensures
        all_wf(mapping(entries)),
{
    assert forall|k: u64| mapping(entries).contains_key(k) implies (#[trigger] mapping(
        entries,
    )[k]).wf() by {
        let j = position(entries, k);
        assert(entries[j].key == k);
    }
}

/// Whether the action numbered `key` can be triggered in `cooldowns`: it has
/// a charge, or no cooldown at all.
pub open spec fn ready_in(cooldowns: Map<u64, CooldownView>, key: u64) -> bool {
    cooldowns.contains_key(key) ==> cooldowns[key].ready()
}

/// The cooldowns after an attempt to trigger the action numbered `key`: one
/// charge of its cooldown is spent if it has a cooldown with a charge, and nothing
/// changes otherwise.
pub open spec fn triggered(cooldowns: Map<u64, CooldownView>, key: u64) -> Map<
    u64,
    CooldownView,
> {
    if cooldowns.contains_key(key) && cooldowns[key].ready() {
        cooldowns.insert(key, cooldowns[key].trigger())
    } else {
        cooldowns
    }
}

/// The cooldowns after each of the actions numbered `keys` was given
/// `cooldown`.
pub open spec fn with_all(
    cooldowns: Map<u64, CooldownView>,
    keys: Seq<u64>,
    cooldown: CooldownView,
) -> Map<u64, CooldownView> {
    Map::new(
        |k: u64| cooldowns.contains_key(k) || keys.contains(k),
        |k: u64|
            if keys.contains(k) {
                cooldown
            } else {
                cooldowns[k]
            },
    )
}

/// The cooldowns after `delta_time` has passed for each of them.
pub open spec fn ticked(cooldowns: Map<u64, CooldownView>, delta_time: int) -> Map<
    u64,
    CooldownView,
> {
    Map::new(
        |k: u64| cooldowns.contains_key(k),
        |k: u64| cooldowns[k].tick(delta_time),
    )
}

} // verus!
