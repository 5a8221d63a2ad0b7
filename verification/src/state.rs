//! The watch registry.
use std::collections::{HashMap, HashSet};

use vstd::prelude::*;
use vstd::std_specs::iter::IteratorSpec;

use crate::bus::OwnerName;
use crate::model::{id_distance, lists, next_id, StateModel, INTERNAL_IDLE_THRESHOLD_MS};

verus! {

broadcast use vstd::std_specs::hash::group_hash_axioms;

/// A request to be told when the user has been idle for an interval.
#[derive(Clone, Copy, Debug, PartialEq, Eq)]
pub struct IdleWatch {
    /// Idle time, in milliseconds, at which the watch fires.
    pub interval_ms: u64,
    /// Whether the watch has fired since the latest input.
    pub fired_this_cycle: bool,
}

/// The registered watches and what is known of the user's latest activity.
pub struct State {
    /// The id that the next allocation tries first.
    pub next_watch_id: u32,
    /// The idle time at the latest tick.
    pub last_idle_ms: u64,
    /// Whether the user counted as idle at the latest tick.
    pub was_idle: bool,
    /// The registered idle watches by id.
    pub idle_watches: HashMap<u32, IdleWatch>,
    /// The ids of the registered user-active watches.
    pub active_watches: HashSet<u32>,
    /// The connection that registered each watch.
    pub watch_owners: HashMap<u32, OwnerName>,
}

impl View for State {
    type V = StateModel;

    open spec fn view(&self) -> StateModel {
        StateModel {
            next_watch_id: self.next_watch_id,
            last_idle_ms: self.last_idle_ms,
            was_idle: self.was_idle,
            idle_watches: self.idle_watches@,
            active_watches: self.active_watches@,
            watch_owners: self.watch_owners@.map_values(|owner: OwnerName| owner@),
        }
    }
}

impl State {
    /// A registry without watches.
    pub fn new() -> (state: State)
        ensures
            state@ == StateModel::empty(),
            state@.well_formed(),
    {
        let state = State {
            next_watch_id: 1,
            last_idle_ms: 0,
            was_idle: false,
            idle_watches: HashMap::new(),
            active_watches: HashSet::new(),
            watch_owners: HashMap::new(),
        };
        assert(state@.watch_owners =~= Map::<u32, Seq<char>>::empty());
        state
    }

    /// Takes the next free watch id, counting up from the previous one and
    /// wrapping around. Zero is never handed out. An id has to be left, else the
    /// search would not end.
    pub fn allocate_watch_id(&mut self) -> (id: u32)
        requires
            old(self)@.has_free_watch_id(),
        ensures
            old(self)@.allocates(id),
            final(self)@ == old(self)@.after_allocation(id),
            old(self)@.well_formed() ==> final(self)@.well_formed(),
    {
        let ghost free = choose|id: u32| id != 0 && !#[trigger] self@.in_use(id);
        let ghost start = self.next_watch_id;
        loop
            invariant
                self@ == (StateModel { next_watch_id: self.next_watch_id, ..old(self)@ }),
                start == old(self)@.next_watch_id,
                free != 0,
                !old(self)@.in_use(free),
                id_distance(start, free) == id_distance(start, self.next_watch_id) + id_distance(
                    self.next_watch_id,
                    free,
                ),
                forall|earlier: u32|
                    id_distance(start, earlier) < id_distance(start, self.next_watch_id) ==> earlier
                        == 0 || #[trigger] old(self)@.in_use(earlier),
            decreases id_distance(self.next_watch_id, free),
        {
            let candidate = self.next_watch_id;
            self.next_watch_id = self.next_watch_id.wrapping_add(1);
            assert(self.next_watch_id == next_id(candidate));
            if candidate == 0 {
                continue;
            }
            if !self.idle_watches.contains_key(&candidate) && !self.active_watches.contains(
                &candidate,
            ) && !self.watch_owners.contains_key(&candidate) {
                return candidate;
            }
        }
    }

    /// Takes one sample of the idle counter and reports the watches that fire.
    ///
    /// A drop of the counter means input and re-arms every idle watch, also one
    /// whose interval lies below the internal threshold. User-active watches
    /// fire when the user stops being idle by that threshold, whatever idle
    /// watches there are, and are then gone. An idle watch fires once per idle
    /// cycle and stays.
    pub fn evaluate_tick(&mut self, current_idle_ms: u64) -> (fired: Vec<u32>)
        ensures
            old(self)@.fires(current_idle_ms, fired@),
            final(self)@ == old(self)@.after_tick(current_idle_ms),
            old(self)@.well_formed() ==> final(self)@.well_formed(),
    {
        let mut fired: Vec<u32> = Vec::new();
        let is_idle_now = current_idle_ms >= INTERNAL_IDLE_THRESHOLD_MS;
        let counter_reset = current_idle_ms < self.last_idle_ms;
        if counter_reset {
            self.rearm_idle_watches();
        }
        if self.was_idle && !is_idle_now {
            fired = self.take_active_watches();
        }
        let ghost woken = fired@;
        proof {
            woken.unique_seq_to_set();
            assert(woken.to_set() =~= old(self)@.woken(current_idle_ms));
        }
        self.fire_idle_watches(current_idle_ms, &mut fired);
        assert(lists(fired@.skip(woken.len() as int), old(self)@.due(current_idle_ms)));
        self.was_idle = is_idle_now;
        self.last_idle_ms = current_idle_ms;
        fired
    }

    /// Removes every watch of a connection and returns their ids.
    pub fn remove_owner(&mut self, owner: &OwnerName) -> (removed: Vec<u32>)
        ensures
            lists(removed@, old(self)@.owned_by(owner@)),
            final(self)@ == old(self)@.without_owner(owner@),
            old(self)@.well_formed() ==> final(self)@.well_formed(),
    {
        let removed = self.watches_of(owner);
        let ghost gone = old(self)@.owned_by(owner@);
        assert(removed@.to_set() =~= gone);
        remove_keys(&mut self.watch_owners, &removed);
        remove_keys(&mut self.idle_watches, &removed);
        remove_members(&mut self.active_watches, &removed);
        assert(self@.watch_owners =~= old(self)@.watch_owners.remove_keys(gone));
        removed
    }

    /// The ids of the watches that a connection owns.
    fn watches_of(&self, owner: &OwnerName) -> (owned: Vec<u32>)
        ensures
            lists(owned@, self@.owned_by(owner@)),
    {
        let mut owned: Vec<u32> = Vec::new();
        let ids = map_ids(&self.watch_owners);
        let mut i: usize = 0;
        while i < ids.len()
            invariant
                i <= ids.len(),
                lists(ids@, self@.watch_owners.dom()),
                owned@.no_duplicates(),
                forall|id: u32| #[trigger]
                    owned@.contains(id) <==> ids@.take(i as int).contains(id)
                        && self@.watch_owners[id] == owner@,
            decreases ids.len() - i,
        {
            let id = ids[i];
            broadcast use vstd::seq_lib::lemma_seq_contains_after_push;

            assert(ids@.contains(id));
            assert(ids@.take(i + 1) == ids@.take(i as int).push(id));
            assert(!ids@.take(i as int).contains(id));
            assert(!owned@.contains(id));
            if let Some(watch_owner) = self.watch_owners.get(&id) {
                if watch_owner.same_as(owner) {
                    owned.push(id);
                }
            }
            i = i + 1;
        }
        assert(ids@.take(ids.len() as int) == ids@);
        owned
    }

    /// Registers an idle watch and returns its id.
    pub fn add_idle_watch(&mut self, owner: OwnerName, interval_ms: u64) -> (id: u32)
        requires
            old(self)@.has_free_watch_id(),
        ensures
            old(self)@.allocates(id),
            final(self)@ == old(self)@.with_idle_watch(id, interval_ms, owner@),
            old(self)@.well_formed() ==> final(self)@.well_formed(),
    {
        let id = self.allocate_watch_id();
        self.idle_watches.insert(id, IdleWatch { interval_ms, fired_this_cycle: false });
        let ghost owners = self@.watch_owners;
        self.watch_owners.insert(id, owner);
        assert(self@.watch_owners =~= owners.insert(id, owner@));
        id
    }

    /// Registers a user-active watch and returns its id.
    pub fn add_user_active_watch(&mut self, owner: OwnerName) -> (id: u32)
        requires
            old(self)@.has_free_watch_id(),
        ensures
            old(self)@.allocates(id),
            final(self)@ == old(self)@.with_active_watch(id, owner@),
            old(self)@.well_formed() ==> final(self)@.well_formed(),
    {
        let id = self.allocate_watch_id();
        self.active_watches.insert(id);
        let ghost owners = self@.watch_owners;
        self.watch_owners.insert(id, owner);
        assert(self@.watch_owners =~= owners.insert(id, owner@));
        id
    }

    /// Removes a watch of either kind. An id that is not registered is ignored.
    pub fn remove_watch(&mut self, watch_id: u32)
        ensures
            final(self)@ == old(self)@.without_watch(watch_id),
            old(self)@.well_formed() ==> final(self)@.well_formed(),
    {
        self.idle_watches.remove(&watch_id);
        self.active_watches.remove(&watch_id);
        self.watch_owners.remove(&watch_id);
        assert(self@.watch_owners =~= old(self)@.watch_owners.remove(watch_id));
    }

    /// Whether an id is left for another watch.
    ///
    /// The tables' sizes answer at once unless they could hold all ids there are.
    pub fn has_free_watch_id(&self) -> (free: bool)
        ensures
            free == self@.has_free_watch_id(),
    {
        let idle: usize = self.idle_watches.len();
        let active: usize = self.active_watches.len();
        let owners: usize = self.watch_owners.len();
        let limit: usize = (u32::MAX / 3) as usize;
        if idle < limit && active < limit && owners < limit {
            proof {
                self.lemma_small_tables_leave_an_id();
            }
            return true;
        }
        let mut id: u32 = u32::MAX;
        while id > 0
            invariant
                forall|other: u32| id < other ==> #[trigger] self@.in_use(other),
            decreases id,
        {
            if !self.idle_watches.contains_key(&id) && !self.active_watches.contains(&id)
                && !self.watch_owners.contains_key(&id) {
                assert(!self@.in_use(id));
                return true;
            }
            id = id - 1;
        }
        false
    }

    /// There are more ids than three tables of less than a third of their
    /// number can hold.
    proof fn lemma_small_tables_leave_an_id(&self)
        requires
            self.idle_watches@.len() < u32::MAX / 3,
            self.active_watches@.len() < u32::MAX / 3,
            self.watch_owners@.len() < u32::MAX / 3,
        ensures
            self@.has_free_watch_id(),
    {
        let idle = self.idle_watches@.dom();
        let active = self.active_watches@;
        let owners = self.watch_owners@.dom();
        let used = idle.union(active).union(owners);
        let all = Set::<u32>::range(1u32, u32::MAX);
        <u32 as vstd::set_lib::FiniteRange>::range_properties(1u32, u32::MAX);
        assert(active.finite()) by {
            assert(self.active_watches.iter().remaining().unref().to_set() == active);
        }
        vstd::set_lib::lemma_len_union(idle, active);
        vstd::set_lib::lemma_len_union(idle.union(active), owners);
        if all.subset_of(used) {
            vstd::set_lib::lemma_len_subset(all, used);
        }
        let id = choose|id: u32| all.contains(id) && !used.contains(id);
        assert(id != 0 && !self@.in_use(id));
    }

    /// Forgets of every idle watch that it has fired.
    fn rearm_idle_watches(&mut self)
        ensures
            final(self)@ == (StateModel {
                idle_watches: old(self)@.idle_watches.map_values(|watch: IdleWatch| rearmed(watch)),
                ..old(self)@
            }),
    {
        let ids = map_ids(&self.idle_watches);
        let mut i: usize = 0;
        while i < ids.len()
            invariant
                i <= ids.len(),
                lists(ids@, old(self)@.idle_watches.dom()),
                self@ == (StateModel { idle_watches: self@.idle_watches, ..old(self)@ }),
                self@.idle_watches.dom() == old(self)@.idle_watches.dom(),
                forall|j: int|
                    0 <= j < i ==> self@.idle_watches[#[trigger] ids[j]] == rearmed(
                        old(self)@.idle_watches[ids[j]],
                    ),
                forall|j: int|
                    i <= j < ids.len() ==> self@.idle_watches[#[trigger] ids[j]] == old(
                        self,
                    )@.idle_watches[ids[j]],
            decreases ids.len() - i,
        {
            let id = ids[i];
            assert(ids@.contains(id));
            if let Some(watch) = self.idle_watches.get(&id) {
                let watch = IdleWatch { interval_ms: watch.interval_ms, fired_this_cycle: false };
                self.idle_watches.insert(id, watch);
            }
            i = i + 1;
        }
        assert forall|id: u32| old(self)@.idle_watches.contains_key(id) implies
            self@.idle_watches[id] == rearmed(old(self)@.idle_watches[id]) by {
            assert(ids@.contains(id));
        }
        assert(self@.idle_watches =~= old(self)@.idle_watches.map_values(
            |watch: IdleWatch| rearmed(watch),
        ));
    }

    /// Marks the armed idle watches whose interval has passed as fired, and
    /// appends their ids to `fired`.
    fn fire_idle_watches(&mut self, current_idle_ms: u64, fired: &mut Vec<u32>)
        ensures
            old(fired)@.len() <= final(fired)@.len(),
            final(fired)@.take(old(fired)@.len() as int) == old(fired)@,
            lists(
                final(fired)@.skip(old(fired)@.len() as int),
                Set::new(
                    |id: u32|
                        old(self)@.idle_watches.contains_key(id) && ripe(
                            old(self)@.idle_watches[id],
                            current_idle_ms,
                        ),
                ),
            ),
            final(self)@ == (StateModel {
                idle_watches: old(self)@.idle_watches.map_values(
                    |watch: IdleWatch| fired_if_ripe(watch, current_idle_ms),
                ),
                ..old(self)@
            }),
    {
        let ghost before = self@;
        let ghost start = fired@.len() as int;
        let ids = map_ids(&self.idle_watches);
        let mut i: usize = 0;
        while i < ids.len()
            invariant
                i <= ids.len(),
                before == old(self)@,
                start == old(fired)@.len(),
                start <= fired.len(),
                fired@.take(start) == old(fired)@,
                lists(ids@, before.idle_watches.dom()),
                self@ == (StateModel { idle_watches: self@.idle_watches, ..before }),
                self@.idle_watches.dom() == before.idle_watches.dom(),
                forall|j: int|
                    0 <= j < i ==> self@.idle_watches[#[trigger] ids[j]] == fired_if_ripe(
                        before.idle_watches[ids[j]],
                        current_idle_ms,
                    ),
                forall|j: int|
                    i <= j < ids.len() ==> self@.idle_watches[#[trigger] ids[j]]
                        == before.idle_watches[ids[j]],
                fired@.skip(start).no_duplicates(),
                forall|id: u32| #[trigger]
                    fired@.skip(start).contains(id) <==> ids@.take(i as int).contains(id) && ripe(
                        before.idle_watches[id],
                        current_idle_ms,
                    ),
            decreases ids.len() - i,
        {
            let id = ids[i];
            let ghost reported = fired@.skip(start);
            broadcast use vstd::seq_lib::lemma_seq_contains_after_push;

            assert(ids@.contains(id));
            assert(ids@.take(i + 1) == ids@.take(i as int).push(id));
            assert(!ids@.take(i as int).contains(id));
            assert(!reported.contains(id));
            if let Some(watch) = self.idle_watches.get(&id) {
                let interval_ms: u64 = watch.interval_ms;
                if !watch.fired_this_cycle && interval_ms <= current_idle_ms {
                    self.idle_watches.insert(id, IdleWatch { interval_ms, fired_this_cycle: true });
                    fired.push(id);
                    assert(fired@.skip(start) == reported.push(id));
                    assert(fired@.take(start) == old(fired)@);
                }
            }
            i = i + 1;
        }
        assert(ids@.take(ids.len() as int) == ids@);
        assert forall|id: u32| before.idle_watches.contains_key(id) implies self@.idle_watches[id]
            == fired_if_ripe(before.idle_watches[id], current_idle_ms) by {
            assert(ids@.contains(id));
        }
        assert(self@.idle_watches =~= before.idle_watches.map_values(
            |watch: IdleWatch| fired_if_ripe(watch, current_idle_ms),
        ));
    }

    /// Removes all user-active watches and their owners, and returns their ids.
    fn take_active_watches(&mut self) -> (taken: Vec<u32>)
        ensures
            lists(taken@, old(self)@.active_watches),
            final(self)@ == (StateModel {
                active_watches: Set::empty(),
                watch_owners: old(self)@.watch_owners.remove_keys(old(self)@.active_watches),
                ..old(self)@
            }),
    {
        let taken = set_ids(&self.active_watches);
        self.active_watches.clear();
        remove_keys(&mut self.watch_owners, &taken);
        assert(taken@.to_set() =~= old(self)@.active_watches);
        assert(self@.watch_owners =~= old(self)@.watch_owners.remove_keys(
            old(self)@.active_watches,
        ));
        taken
    }
}

/// An idle watch that has not fired since the latest input.
spec fn rearmed(watch: IdleWatch) -> IdleWatch {
    IdleWatch { interval_ms: watch.interval_ms, fired_this_cycle: false }
}

/// Whether an armed idle watch fires at the given idle time.
spec fn ripe(watch: IdleWatch, idle_ms: u64) -> bool {
    !watch.fired_this_cycle && watch.interval_ms <= idle_ms
}

/// An idle watch after it had the chance to fire.
spec fn fired_if_ripe(watch: IdleWatch, idle_ms: u64) -> IdleWatch {
    IdleWatch {
        interval_ms: watch.interval_ms,
        fired_this_cycle: watch.fired_this_cycle || watch.interval_ms <= idle_ms,
    }
}

/// The keys of a table, in the order in which it is walked.
fn map_ids<V>(table: &HashMap<u32, V>) -> (ids: Vec<u32>)
    ensures
        lists(ids@, table@.dom()),
{
    let mut ids: Vec<u32> = Vec::new();
    for id in keys: table.keys()
        invariant
            ids@ == keys.seq().take(keys.index()).unref(),
    {
        ids.push(*id);
    }
    assert(ids@ == table.keys().remaining().unref());
    ids
}

/// The members of a set, in the order in which it is walked.
fn set_ids(table: &HashSet<u32>) -> (ids: Vec<u32>)
    ensures
        lists(ids@, table@),
{
    let mut ids: Vec<u32> = Vec::new();
    for id in keys: table.iter()
        invariant
            ids@ == keys.seq().take(keys.index()).unref(),
    {
        ids.push(*id);
    }
    assert(ids@ == table.iter().remaining().unref());
    ids
}

/// Removes the given keys from a table.
fn remove_keys<V>(table: &mut HashMap<u32, V>, ids: &Vec<u32>)
    ensures
        final(table)@ == old(table)@.remove_keys(ids@.to_set()),
{
    let mut i: usize = 0;
    assert(table@ =~= old(table)@.remove_keys(ids@.take(0).to_set()));
    while i < ids.len()
        invariant
            i <= ids.len(),
            table@ == old(table)@.remove_keys(ids@.take(i as int).to_set()),
        decreases ids.len() - i,
    {
        let id = ids[i];
        table.remove(&id);
        assert(ids@.take(i + 1) == ids@.take(i as int).push(id));
        assert(ids@.take(i + 1).to_set() == ids@.take(i as int).to_set().insert(id)) by {
            ids@.take(i as int).lemma_push_to_set_commute(id);
        }
        assert(table@ =~= old(table)@.remove_keys(ids@.take(i + 1).to_set()));
        i = i + 1;
    }
    assert(ids@.take(ids.len() as int) == ids@);
}

/// Removes the given members from a set.
fn remove_members(table: &mut HashSet<u32>, ids: &Vec<u32>)
    ensures
        final(table)@ == old(table)@.difference(ids@.to_set()),
{
    let mut i: usize = 0;
    assert(table@ =~= old(table)@.difference(ids@.take(0).to_set()));
    while i < ids.len()
        invariant
            i <= ids.len(),
            table@ == old(table)@.difference(ids@.take(i as int).to_set()),
        decreases ids.len() - i,
    {
        let id = ids[i];
        table.remove(&id);
        assert(ids@.take(i + 1) == ids@.take(i as int).push(id));
        assert(ids@.take(i + 1).to_set() == ids@.take(i as int).to_set().insert(id)) by {
            ids@.take(i as int).lemma_push_to_set_commute(id);
        }
        assert(table@ =~= old(table)@.difference(ids@.take(i + 1).to_set()));
        i = i + 1;
    }
    assert(ids@.take(ids.len() as int) == ids@);
}

} // verus!
