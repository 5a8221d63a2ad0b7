//! The mathematical model of the watch registry.
//!
//! A [`StateModel`] is what a [`State`](crate::state::State) holds, with the
//! hash tables read as maps and sets. Every operation on the registry has its
//! counterpart here as a function from one model to the next.
use vstd::prelude::*;

use crate::state::IdleWatch;

verus! {

/// Milliseconds between two samples of the idle counter.
pub const POLL_INTERVAL_MS: u64 = 1000;

/// Idle time from which on the user counts as idle.
///
/// It equals the poll interval because transitions cannot be resolved any finer
/// than the counter is sampled. A smaller value would fire active watches
/// spuriously whenever the counter is sampled between two inputs.
pub const INTERNAL_IDLE_THRESHOLD_MS: u64 = POLL_INTERVAL_MS;

/// The watch id that follows `id`, wrapping around after the largest one.
pub open spec fn next_id(id: u32) -> u32 {
    if id == u32::MAX {
        0
    } else {
        (id + 1) as u32
    }
}

/// How many steps of [`next_id`] lead from `from` to `to`.
pub open spec fn id_distance(from: u32, to: u32) -> int {
    if to >= from {
        to - from
    } else {
        to - from + 0x1_0000_0000
    }
}

/// `ids` names every member of `members` exactly once, and nothing else.
pub open spec fn lists(ids: Seq<u32>, members: Set<u32>) -> bool {
    &&& ids.no_duplicates()
    &&& forall|id: u32| #[trigger] ids.contains(id) <==> members.contains(id)
}

/// Whether the user counts as idle at the given idle time.
pub open spec fn is_idle(idle_ms: u64) -> bool {
    idle_ms >= INTERNAL_IDLE_THRESHOLD_MS
}

/// The contents of the watch registry.
#[verifier::ext_equal]
pub struct StateModel {
    /// The id that the next allocation tries first.
    pub next_watch_id: u32,
    /// The idle time at the latest tick.
    pub last_idle_ms: u64,
    /// Whether the user counted as idle at the latest tick.
    pub was_idle: bool,
    /// The registered idle watches by id.
    pub idle_watches: Map<u32, IdleWatch>,
    /// The ids of the registered user-active watches.
    pub active_watches: Set<u32>,
    /// The bus name of the connection that registered each watch.
    pub watch_owners: Map<u32, Seq<char>>,
}

impl StateModel {
    /// A registry without watches, before the first tick.
    pub open spec fn empty() -> StateModel {
        StateModel {
            next_watch_id: 1,
            last_idle_ms: 0,
            was_idle: false,
            idle_watches: Map::empty(),
            active_watches: Set::empty(),
            watch_owners: Map::empty(),
        }
    }

    /// Whether any of the tables knows the id.
    pub open spec fn in_use(self, id: u32) -> bool {
        ||| self.idle_watches.contains_key(id)
        ||| self.active_watches.contains(id)
        ||| self.watch_owners.contains_key(id)
    }

    /// The invariant that the requests and the loops keep: zero is never an id,
    /// no id is both an idle and an active watch, and exactly the registered
    /// watches have an owner.
    pub open spec fn well_formed(self) -> bool {
        &&& !self.in_use(0)
        &&& forall|id: u32| #[trigger]
            self.active_watches.contains(id) ==> !self.idle_watches.contains_key(id)
        &&& forall|id: u32| #[trigger]
            self.watch_owners.contains_key(id) <==> (self.idle_watches.contains_key(id)
                || self.active_watches.contains(id))
    }

    /// Whether an id other than zero is left that no table knows.
    pub open spec fn has_free_watch_id(self) -> bool {
        exists|id: u32| id != 0 && !#[trigger] self.in_use(id)
    }

    /// Whether `id` is the id that an allocation takes: the first one, counting
    /// up from `next_watch_id` and wrapping around, that is neither zero nor in use.
    pub open spec fn allocates(self, id: u32) -> bool {
        &&& id != 0
        &&& !self.in_use(id)
        &&& forall|earlier: u32|
            id_distance(self.next_watch_id, earlier) < id_distance(self.next_watch_id, id)
                ==> earlier == 0 || #[trigger] self.in_use(earlier)
    }

    /// The registry after `id` has been allocated.
    pub open spec fn after_allocation(self, id: u32) -> StateModel {
        StateModel { next_watch_id: next_id(id), ..self }
    }

    /// The registry after the idle watch `id` has been registered for `owner`.
    pub open spec fn with_idle_watch(
        self,
        id: u32,
        interval_ms: u64,
        owner: Seq<char>,
    ) -> StateModel {
        StateModel {
            next_watch_id: next_id(id),
            idle_watches: self.idle_watches.insert(
                id,
                IdleWatch { interval_ms, fired_this_cycle: false },
            ),
            watch_owners: self.watch_owners.insert(id, owner),
            ..self
        }
    }

    /// The registry after the user-active watch `id` has been registered for `owner`.
    pub open spec fn with_active_watch(self, id: u32, owner: Seq<char>) -> StateModel {
        StateModel {
            next_watch_id: next_id(id),
            active_watches: self.active_watches.insert(id),
            watch_owners: self.watch_owners.insert(id, owner),
            ..self
        }
    }

    /// The registry after every trace of `id` has been removed.
    pub open spec fn without_watch(self, id: u32) -> StateModel {
        StateModel {
            idle_watches: self.idle_watches.remove(id),
            active_watches: self.active_watches.remove(id),
            watch_owners: self.watch_owners.remove(id),
            ..self
        }
    }

    /// The ids whose owner is the connection `owner`.
    pub open spec fn owned_by(self, owner: Seq<char>) -> Set<u32> {
        Set::new(|id: u32| self.watch_owners.contains_key(id) && self.watch_owners[id] == owner)
    }

    /// The registry after every watch of `owner` has been removed.
    pub open spec fn without_owner(self, owner: Seq<char>) -> StateModel {
        let gone = self.owned_by(owner);
        StateModel {
            idle_watches: self.idle_watches.remove_keys(gone),
            active_watches: self.active_watches.difference(gone),
            watch_owners: self.watch_owners.remove_keys(gone),
            ..self
        }
    }

    /// Whether a tick at `idle_ms` shows that there was input since the latest
    /// tick: the idle counter only ever drops on input.
    pub open spec fn counter_reset(self, idle_ms: u64) -> bool {
        idle_ms < self.last_idle_ms
    }

    /// Whether the idle watch `id` fires at a tick: it has not fired since the
    /// latest input, and the user has been idle for its interval.
    pub open spec fn is_due(self, id: u32, idle_ms: u64) -> bool {
        &&& self.idle_watches.contains_key(id)
        &&& self.counter_reset(idle_ms) || !self.idle_watches[id].fired_this_cycle
        &&& self.idle_watches[id].interval_ms <= idle_ms
    }

    /// The idle watches that fire at a tick.
    pub open spec fn due(self, idle_ms: u64) -> Set<u32> {
        Set::new(|id: u32| self.is_due(id, idle_ms))
    }

    /// Whether a tick shows that the user has become active again.
    pub open spec fn wakes(self, idle_ms: u64) -> bool {
        self.was_idle && !is_idle(idle_ms)
    }

    /// The user-active watches that fire at a tick.
    pub open spec fn woken(self, idle_ms: u64) -> Set<u32> {
        if self.wakes(idle_ms) {
            self.active_watches
        } else {
            Set::empty()
        }
    }

    /// An idle watch after a tick: it counts as fired if it fired now, or
    /// earlier with no input since.
    pub open spec fn watch_after_tick(self, watch: IdleWatch, idle_ms: u64) -> IdleWatch {
        IdleWatch {
            interval_ms: watch.interval_ms,
            fired_this_cycle: watch.interval_ms <= idle_ms || (watch.fired_this_cycle
                && !self.counter_reset(idle_ms)),
        }
    }

    /// The registry after a tick. The user-active watches that fired are gone
    /// along with their owners; the idle watches stay.
    pub open spec fn after_tick(self, idle_ms: u64) -> StateModel {
        StateModel {
            next_watch_id: self.next_watch_id,
            last_idle_ms: idle_ms,
            was_idle: is_idle(idle_ms),
            idle_watches: self.idle_watches.map_values(
                |watch: IdleWatch| self.watch_after_tick(watch, idle_ms),
            ),
            active_watches: self.active_watches.difference(self.woken(idle_ms)),
            watch_owners: self.watch_owners.remove_keys(self.woken(idle_ms)),
        }
    }

    /// Whether `fired` is an order in which a tick may report its watches: the
    /// user-active watches first, then the idle watches, each kind in any order.
    pub open spec fn fires(self, idle_ms: u64, fired: Seq<u32>) -> bool {
        let split = self.woken(idle_ms).len() as int;
        &&& split <= fired.len()
        &&& lists(fired.take(split), self.woken(idle_ms))
        &&& lists(fired.skip(split), self.due(idle_ms))
    }

    /// The registry after a sequence of ticks.
    pub open spec fn after_ticks(self, idle_times: Seq<u64>) -> StateModel
        decreases idle_times.len(),
    {
        if idle_times.len() == 0 {
            self
        } else {
            self.after_ticks(idle_times.drop_last()).after_tick(idle_times.last())
        }
    }
}

} // verus!
