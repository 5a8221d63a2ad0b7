//! What holds of the monitor as a whole.
//!
//! The laws speak of the model: each operation of [`State`](crate::state::State)
//! states its effect by the same functions.
use vstd::prelude::*;

use crate::bus::unique_name;
use crate::cleanup::{after_leaving, vanished};
use crate::effects::{idle_watch_fires, law_report_names_every_firing_watch, same_entry};
use crate::model::{is_idle, StateModel};
use crate::poll::{announcing, poll_next, PhaseModel, PollAction, PollEvent};
use crate::state::IdleWatch;

verus! {

/// Whether one operation on the registry leads from `before` to `after`.
pub open spec fn operation_leads(before: StateModel, after: StateModel) -> bool {
    ||| exists|id: u32, interval_ms: u64, owner: Seq<char>|
        before.allocates(id) && after == #[trigger] before.with_idle_watch(id, interval_ms, owner)
    ||| exists|id: u32, owner: Seq<char>|
        before.allocates(id) && after == #[trigger] before.with_active_watch(id, owner)
    ||| exists|id: u32| after == #[trigger] before.without_watch(id)
    ||| exists|owner: Seq<char>| after == #[trigger] before.without_owner(owner)
    ||| exists|idle_ms: u64| after == #[trigger] before.after_tick(idle_ms)
}

/// Whatever requests, ticks and disconnections come in whatever order, the
/// registry stays well formed.
pub proof fn law_every_reachable_registry_is_well_formed(history: Seq<StateModel>)
    requires
        history.len() > 0,
        history[0] == StateModel::empty(),
        forall|i: int|
            0 <= i < history.len() - 1 ==> operation_leads(#[trigger] history[i], history[i + 1]),
    ensures
        forall|i: int| 0 <= i < history.len() ==> (#[trigger] history[i]).well_formed(),
    decreases history.len(),
{
    if history.len() > 1 {
        let shorter = history.drop_last();
        assert forall|i: int| 0 <= i < shorter.len() - 1 implies operation_leads(
            #[trigger] shorter[i],
            shorter[i + 1],
        ) by {
            assert(operation_leads(history[i], history[i + 1]));
        }
        law_every_reachable_registry_is_well_formed(shorter);
        let before = history[history.len() - 2];
        let after = history[history.len() - 1];
        assert(shorter[history.len() - 2].well_formed());
        assert(operation_leads(history[history.len() - 2], history[history.len() - 2 + 1]));
        assert(after.well_formed());
        assert forall|i: int| 0 <= i < history.len() implies (#[trigger] history[i]).well_formed() by {
            if i < shorter.len() {
                assert(shorter[i].well_formed());
            }
        }
    }
}

/// The registry fixes which id the next watch gets.
pub proof fn law_allocation_is_determined(state: StateModel, id: u32, other: u32)
    requires
        state.allocates(id),
        state.allocates(other),
    ensures
        id == other,
{
}

/// A watch's id is given to no other watch while it is registered.
pub proof fn law_ids_are_not_shared(
    state: StateModel,
    first: u32,
    interval_ms: u64,
    owner: Seq<char>,
    second: u32,
)
    requires
        state.allocates(first),
        state.with_idle_watch(first, interval_ms, owner).allocates(second)
            || state.with_active_watch(first, owner).allocates(second),
    ensures
        first != second,
{
}

/// Ticks neither remove an idle watch nor change its interval or its owner.
pub proof fn law_idle_watches_persist(state: StateModel, idle_times: Seq<u64>, id: u32)
    requires
        state.well_formed(),
        state.idle_watches.contains_key(id),
    ensures
        state.after_ticks(idle_times).well_formed(),
        state.after_ticks(idle_times).idle_watches.contains_key(id),
        state.after_ticks(idle_times).idle_watches[id].interval_ms
            == state.idle_watches[id].interval_ms,
        state.after_ticks(idle_times).watch_owners.contains_key(id),
        state.after_ticks(idle_times).watch_owners[id] == state.watch_owners[id],
    decreases idle_times.len(),
{
    if idle_times.len() > 0 {
        law_idle_watches_persist(state, idle_times.drop_last(), id);
    }
}

/// Once an idle watch has fired, it does not fire again while the idle time
/// keeps growing.
pub proof fn law_idle_watch_fires_once_per_cycle(
    state: StateModel,
    id: u32,
    idle_times: Seq<u64>,
    next: u64,
)
    requires
        idle_times.len() > 0,
        state.due(idle_times[0]).contains(id),
        forall|i: int, j: int|
            0 <= i <= j < idle_times.len() ==> idle_times[i] <= idle_times[j],
        idle_times.last() <= next,
    ensures
        !state.after_ticks(idle_times).due(next).contains(id),
{
    lemma_stays_fired(state, id, idle_times);
}

proof fn lemma_stays_fired(state: StateModel, id: u32, idle_times: Seq<u64>)
    requires
        idle_times.len() > 0,
        state.due(idle_times[0]).contains(id),
        forall|i: int, j: int|
            0 <= i <= j < idle_times.len() ==> idle_times[i] <= idle_times[j],
    ensures
        state.after_ticks(idle_times).last_idle_ms == idle_times.last(),
        state.after_ticks(idle_times).idle_watches.contains_key(id),
        state.after_ticks(idle_times).idle_watches[id].fired_this_cycle,
    decreases idle_times.len(),
{
    let earlier = idle_times.drop_last();
    if earlier.len() > 0 {
        lemma_stays_fired(state, id, earlier);
    } else {
        assert(state.after_ticks(earlier) == state);
    }
}

/// An idle watch that has not fired since the latest input waits through any
/// idle times below its interval and fires at the first that reaches it.
pub proof fn law_armed_watch_waits_for_its_interval(
    state: StateModel,
    id: u32,
    idle_times: Seq<u64>,
    next: u64,
)
    requires
        state.idle_watches.contains_key(id),
        !state.idle_watches[id].fired_this_cycle,
        forall|i: int|
            0 <= i < idle_times.len() ==> #[trigger] idle_times[i]
                < state.idle_watches[id].interval_ms,
    ensures
        state.after_ticks(idle_times).due(next).contains(id) <==> state.idle_watches[id].interval_ms
            <= next,
{
    lemma_stays_armed(state, id, idle_times);
}

proof fn lemma_stays_armed(state: StateModel, id: u32, idle_times: Seq<u64>)
    requires
        state.idle_watches.contains_key(id),
        !state.idle_watches[id].fired_this_cycle,
        forall|i: int|
            0 <= i < idle_times.len() ==> #[trigger] idle_times[i]
                < state.idle_watches[id].interval_ms,
    ensures
        state.after_ticks(idle_times).idle_watches.contains_key(id),
        state.after_ticks(idle_times).idle_watches[id] == state.idle_watches[id],
    decreases idle_times.len(),
{
    if idle_times.len() > 0 {
        let earlier = idle_times.drop_last();
        assert forall|i: int| 0 <= i < earlier.len() implies #[trigger] earlier[i]
            < state.idle_watches[id].interval_ms by {
            assert(earlier[i] == idle_times[i]);
        }
        lemma_stays_armed(state, id, earlier);
        assert(idle_times.last() == idle_times[idle_times.len() - 1]);
    }
}

/// A drop of the idle time re-arms every idle watch, whatever its interval: the
/// watch does not fire at the drop if that lies below its interval, and fires
/// at the next idle time that reaches it, also if it has fired before.
pub proof fn law_input_rearms_idle_watches(state: StateModel, id: u32, dropped: u64, next: u64)
    requires
        state.idle_watches.contains_key(id),
        dropped < state.last_idle_ms,
        dropped < state.idle_watches[id].interval_ms <= next,
    ensures
        !state.due(dropped).contains(id),
        state.after_tick(dropped).due(next).contains(id),
{
}

/// An idle watch that is registered while the user is idle already fires at the
/// next tick, if the idle time has reached its interval by then.
pub proof fn law_new_idle_watch_fires_at_the_next_tick(
    state: StateModel,
    id: u32,
    interval_ms: u64,
    owner: Seq<char>,
    idle_ms: u64,
)
    ensures
        state.with_idle_watch(id, interval_ms, owner).due(idle_ms).contains(id) <==> interval_ms
            <= idle_ms,
{
}

/// Which user-active watches fire does not depend on the idle watches.
pub proof fn law_active_watches_ignore_idle_watches(
    state: StateModel,
    idle_watches: Map<u32, IdleWatch>,
    idle_ms: u64,
)
    ensures
        (StateModel { idle_watches, ..state }).woken(idle_ms) == state.woken(idle_ms),
{
}

/// A user-active watch fires at the tick at which the user stops being idle,
/// and at no other.
pub proof fn law_active_watch_fires_on_resume(
    state: StateModel,
    id: u32,
    latest: u64,
    idle_ms: u64,
)
    requires
        state.after_tick(latest).active_watches.contains(id),
    ensures
        state.after_tick(latest).woken(idle_ms).contains(id) <==> is_idle(latest) && !is_idle(
            idle_ms,
        ),
{
}

/// A user-active watch that has fired is gone, and stays gone: neither it nor
/// its owner is known any more, and no later tick fires it.
pub proof fn law_active_watch_fires_once(
    state: StateModel,
    id: u32,
    idle_ms: u64,
    later: Seq<u64>,
    next: u64,
)
    requires
        state.well_formed(),
        state.woken(idle_ms).contains(id),
    ensures
        !state.after_tick(idle_ms).in_use(id),
        !state.after_tick(idle_ms).after_ticks(later).woken(next).contains(id),
        !state.after_tick(idle_ms).after_ticks(later).due(next).contains(id),
{
    law_ticks_bring_no_watches(state.after_tick(idle_ms), id, later);
}

/// Ticks do not bring a watch into being.
pub proof fn law_ticks_bring_no_watches(state: StateModel, id: u32, idle_times: Seq<u64>)
    requires
        !state.in_use(id),
    ensures
        !state.after_ticks(idle_times).in_use(id),
    decreases idle_times.len(),
{
    if idle_times.len() > 0 {
        law_ticks_bring_no_watches(state, id, idle_times.drop_last());
    }
}

/// While the idle time never reaches the internal threshold, ups and downs of
/// it fire no user-active watch and remove none.
pub proof fn law_jitter_below_the_threshold_fires_no_active_watch(
    state: StateModel,
    idle_times: Seq<u64>,
    next: u64,
)
    requires
        !state.was_idle,
        forall|i: int| 0 <= i < idle_times.len() ==> !is_idle(#[trigger] idle_times[i]),
    ensures
        !state.after_ticks(idle_times).was_idle,
        state.after_ticks(idle_times).active_watches == state.active_watches,
        state.after_ticks(idle_times).watch_owners == state.watch_owners,
        state.after_ticks(idle_times).woken(next) == Set::<u32>::empty(),
    decreases idle_times.len(),
{
    if idle_times.len() > 0 {
        let earlier = idle_times.drop_last();
        assert forall|i: int| 0 <= i < earlier.len() implies !is_idle(#[trigger] earlier[i]) by {
            assert(earlier[i] == idle_times[i]);
        }
        law_jitter_below_the_threshold_fires_no_active_watch(state, earlier, idle_times.last());
        assert(!is_idle(idle_times[idle_times.len() - 1]));
        assert(state.after_ticks(idle_times).active_watches =~= state.active_watches);
        assert(state.after_ticks(idle_times).watch_owners =~= state.watch_owners);
    }
}

/// A tick reports only registered watches, and each at most once.
pub proof fn law_reported_watches_are_registered(
    state: StateModel,
    idle_ms: u64,
    fired: Seq<u32>,
)
    requires
        state.well_formed(),
        state.fires(idle_ms, fired),
    ensures
        fired.no_duplicates(),
        forall|id: u32| #[trigger]
            fired.contains(id) <==> state.woken(idle_ms).contains(id) || state.due(
                idle_ms,
            ).contains(id),
        forall|id: u32| #[trigger]
            fired.contains(id) ==> state.in_use(id) && state.watch_owners.contains_key(id),
{
    let split = state.woken(idle_ms).len() as int;
    let first = fired.take(split);
    let second = fired.skip(split);
    assert forall|i: int, j: int|
        0 <= i < fired.len() && 0 <= j < fired.len() && i != j implies fired[i] != fired[j] by {
        if i < split && j < split {
            assert(first[i] != first[j]);
        } else if i >= split && j >= split {
            assert(second[i - split] != second[j - split]);
        } else if i < split {
            assert(first.contains(first[i]));
            assert(second.contains(second[j - split]));
        } else {
            assert(first.contains(first[j]));
            assert(second.contains(second[i - split]));
        }
    }
    assert forall|id: u32| #[trigger] fired.contains(id) <==> state.woken(idle_ms).contains(id)
        || state.due(idle_ms).contains(id) by {
        if fired.contains(id) {
            let i = choose|i: int| 0 <= i < fired.len() && fired[i] == id;
            if i < split {
                assert(first[i] == id);
                assert(first.contains(id));
            } else {
                assert(second[i - split] == id);
                assert(second.contains(id));
            }
        }
        if state.woken(idle_ms).contains(id) {
            assert(first.contains(id));
            let i = choose|i: int| 0 <= i < first.len() && first[i] == id;
            assert(fired[i] == id);
        }
        if state.due(idle_ms).contains(id) {
            assert(second.contains(id));
            let i = choose|i: int| 0 <= i < second.len() && second[i] == id;
            assert(fired[i + split] == id);
        }
    }
}

/// Removing a connection's watches leaves no trace of them, so that they fire no
/// more, and does not touch the watches of any other connection. Doing it again
/// does nothing.
pub proof fn law_removing_an_owner_removes_exactly_its_watches(
    state: StateModel,
    owner: Seq<char>,
    id: u32,
    later: Seq<u64>,
    next: u64,
)
    requires
        state.well_formed(),
    ensures
        state.owned_by(owner).contains(id) ==> {
            let after = state.without_owner(owner);
            &&& !after.in_use(id)
            &&& !after.after_ticks(later).woken(next).contains(id)
            &&& !after.after_ticks(later).due(next).contains(id)
        },
        !state.owned_by(owner).contains(id) ==> {
            let after = state.without_owner(owner);
            &&& after.in_use(id) == state.in_use(id)
            &&& after.idle_watches.contains_key(id) == state.idle_watches.contains_key(id)
            &&& after.active_watches.contains(id) == state.active_watches.contains(id)
            &&& state.idle_watches.contains_key(id) ==> after.idle_watches[id]
                == state.idle_watches[id]
            &&& state.watch_owners.contains_key(id) ==> after.watch_owners[id]
                == state.watch_owners[id]
        },
        state.without_owner(owner).owned_by(owner) == Set::<u32>::empty(),
        state.without_owner(owner).without_owner(owner) == state.without_owner(owner),
{
    let after = state.without_owner(owner);
    if state.owned_by(owner).contains(id) {
        law_ticks_bring_no_watches(after, id, later);
    }
    assert(after.owned_by(owner) =~= Set::<u32>::empty());
    assert(after.without_owner(owner).idle_watches =~= after.idle_watches);
    assert(after.without_owner(owner).active_watches =~= after.active_watches);
    assert(after.without_owner(owner).watch_owners =~= after.watch_owners);
}

/// A removed watch is unknown and fires no more. The other watches are not
/// touched, and removing it again, or removing an unknown watch, does nothing.
pub proof fn law_removing_a_watch_removes_only_it(
    state: StateModel,
    id: u32,
    other: u32,
    later: Seq<u64>,
    next: u64,
)
    requires
        other != id,
    ensures
        !state.without_watch(id).in_use(id),
        !state.without_watch(id).after_ticks(later).woken(next).contains(id),
        !state.without_watch(id).after_ticks(later).due(next).contains(id),
        state.without_watch(id).in_use(other) == state.in_use(other),
        same_entry(state.without_watch(id), state, other),
        forall|idle_ms: u64| #[trigger]
            state.without_watch(id).due(idle_ms).contains(other) == state.due(idle_ms).contains(
                other,
            ),
        forall|idle_ms: u64| #[trigger]
            state.without_watch(id).woken(idle_ms).contains(other) == state.woken(
                idle_ms,
            ).contains(other),
        state.without_watch(id).without_watch(id) == state.without_watch(id),
        !state.in_use(id) ==> state.without_watch(id) == state,
{
    let after = state.without_watch(id);
    law_ticks_bring_no_watches(after, id, later);
    assert(after.without_watch(id).idle_watches =~= after.idle_watches);
    assert(after.without_watch(id).active_watches =~= after.active_watches);
    assert(after.without_watch(id).watch_owners =~= after.watch_owners);
    if !state.in_use(id) {
        assert(after.idle_watches =~= state.idle_watches);
        assert(after.active_watches =~= state.active_watches);
        assert(after.watch_owners =~= state.watch_owners);
    }
}

/// Removing a watch undoes its registration, except that its id is not the
/// next to be tried.
pub proof fn law_removal_undoes_registration(
    state: StateModel,
    id: u32,
    interval_ms: u64,
    owner: Seq<char>,
)
    requires
        state.allocates(id),
    ensures
        state.with_idle_watch(id, interval_ms, owner).without_watch(id) == state.after_allocation(
            id,
        ),
        state.with_active_watch(id, owner).without_watch(id) == state.after_allocation(id),
{
    let idle = state.with_idle_watch(id, interval_ms, owner).without_watch(id);
    let active = state.with_active_watch(id, owner).without_watch(id);
    assert(idle =~= state.after_allocation(id)) by {
        assert(idle.idle_watches =~= state.idle_watches);
        assert(idle.active_watches =~= state.active_watches);
        assert(idle.watch_owners =~= state.watch_owners);
    }
    assert(active =~= state.after_allocation(id)) by {
        assert(active.idle_watches =~= state.idle_watches);
        assert(active.active_watches =~= state.active_watches);
        assert(active.watch_owners =~= state.watch_owners);
    }
}

/// Where the poll loop stands after announcements have been done with, one for
/// each of `outcomes`.
pub open spec fn after_announcements(
    step: (PhaseModel, PollAction),
    outcomes: Seq<bool>,
) -> (PhaseModel, PollAction)
    decreases outcomes.len(),
{
    if outcomes.len() == 0 {
        step
    } else {
        poll_next(
            after_announcements(step, outcomes.drop_last()).0,
            PollEvent::Announced { delivered: outcomes.last() },
            Seq::empty(),
        )
    }
}

/// The watches that fire are announced one by one, each once and in the order
/// reported, whichever announcements fail; then the loop waits for the next
/// tick.
pub proof fn law_every_fired_watch_is_announced(fired: Seq<u32>, outcomes: Seq<bool>)
    requires
        outcomes.len() <= fired.len(),
    ensures
        after_announcements(announcing(fired), outcomes) == announcing(
            fired.skip(outcomes.len() as int),
        ),
        outcomes.len() < fired.len() ==> after_announcements(announcing(fired), outcomes).1
            == PollAction::Announce(fired[outcomes.len() as int]),
        outcomes.len() == fired.len() ==> after_announcements(announcing(fired), outcomes) == (
            PhaseModel::Waiting,
            PollAction::AwaitTick,
        ),
    decreases outcomes.len(),
{
    if outcomes.len() == 0 {
        assert(fired.skip(0) == fired);
    } else {
        let done = outcomes.drop_last();
        law_every_fired_watch_is_announced(fired, done);
        assert(fired.skip(done.len() as int).drop_first() == fired.skip(outcomes.len() as int));
    }
}

/// The poll loop ends only when a query for the idle time fails, and once it
/// has ended it stays so.
pub proof fn law_only_a_failed_query_ends_the_poll_loop(
    phase: PhaseModel,
    event: PollEvent,
    fired: Seq<u32>,
)
    ensures
        poll_next(phase, event, fired).1 == PollAction::Stop <==> phase is Stopped || (
        phase is Querying && event is QueryFailed),
        poll_next(phase, event, fired).0 is Stopped <==> poll_next(phase, event, fired).1
            == PollAction::Stop,
{
}

/// When a unique name is left without owner, exactly the watches of its old
/// owner are removed. A change that names a new owner or no old one, or that
/// concerns a well-known name, such as one that a connected client gives up,
/// leaves the registry alone.
pub proof fn law_only_disappearances_remove_watches(
    state: StateModel,
    name: Seq<char>,
    old_owner: Option<Seq<char>>,
    new_owner: Option<Seq<char>>,
)
    ensures
        new_owner is Some || !unique_name(name) || old_owner is None ==> after_leaving(
            state,
            vanished(name, old_owner, new_owner),
        ) == state,
        new_owner is None && unique_name(name) && old_owner is Some ==> after_leaving(
            state,
            vanished(name, old_owner, new_owner),
        ) == state.without_owner(old_owner->Some_0),
{
}

/// From the moment a sample comes in, every watch that fires at it is announced,
/// each in its turn and none left out, whichever announcements fail, before the
/// loop waits for the next tick.
pub proof fn law_every_watch_that_fires_at_a_sample_is_announced(
    state: StateModel,
    idle_ms: u64,
    fired: Seq<u32>,
    outcomes: Seq<bool>,
)
    requires
        state.fires(idle_ms, fired),
        outcomes.len() <= fired.len(),
    ensures
        ({
            let start = poll_next(PhaseModel::Querying, PollEvent::IdleTime(idle_ms), fired);
            let now = after_announcements(start, outcomes);
            &&& outcomes.len() < fired.len() ==> now.1 == PollAction::Announce(
                fired[outcomes.len() as int],
            )
            &&& outcomes.len() == fired.len() ==> now == (PhaseModel::Waiting, PollAction::AwaitTick)
        }),
        forall|id: u32| #[trigger]
            idle_watch_fires(state, id, idle_ms) ==> exists|k: int|
                0 <= k < fired.len() && fired[k] == id,
        forall|id: u32| #[trigger]
            state.active_watches.contains(id) && state.was_idle && idle_ms < 1000 ==> exists|k: int|
                0 <= k < fired.len() && fired[k] == id,
{
    law_every_fired_watch_is_announced(fired, outcomes);
    law_report_names_every_firing_watch(state, idle_ms, fired);
    assert forall|id: u32| #[trigger] idle_watch_fires(state, id, idle_ms) implies exists|k: int|
        0 <= k < fired.len() && fired[k] == id by {
        assert(fired.contains(id));
    }
    assert forall|id: u32| #[trigger]
        state.active_watches.contains(id) && state.was_idle && idle_ms < 1000 implies exists|k: int|
        0 <= k < fired.len() && fired[k] == id by {
        assert(fired.contains(id));
    }
}

/// A user-active watch that is asked for while the user is idle stays silent as
/// long as the user is, fires at the first tick below a second, and never fires
/// as an idle watch.
pub proof fn law_active_watch_asked_for_while_idle_waits_for_the_user(
    state: StateModel,
    id: u32,
    owner: Seq<char>,
    idle_times: Seq<u64>,
    next: u64,
)
    requires
        state.allocates(id),
        state.was_idle,
        forall|i: int| 0 <= i < idle_times.len() ==> #[trigger] idle_times[i] >= 1000,
    ensures
        ({
            let now = state.with_active_watch(id, owner).after_ticks(idle_times);
            &&& now.was_idle
            &&& now.active_watches.contains(id)
            &&& !now.idle_watches.contains_key(id)
            &&& now.watch_owners.contains_key(id) && now.watch_owners[id] == owner
            &&& now.woken(next).contains(id) <==> next < 1000
            &&& !now.due(next).contains(id)
        }),
    decreases idle_times.len(),
{
    if idle_times.len() > 0 {
        let earlier = idle_times.drop_last();
        assert forall|i: int| 0 <= i < earlier.len() implies #[trigger] earlier[i] >= 1000 by {
            assert(earlier[i] == idle_times[i]);
        }
        assert(idle_times[idle_times.len() - 1] >= 1000);
        law_active_watch_asked_for_while_idle_waits_for_the_user(
            state,
            id,
            owner,
            earlier,
            idle_times.last(),
        );
    }
}

/// The idle time that a registry saw latest before the tick number `k` of a
/// sequence.
pub open spec fn latest_before(state: StateModel, idle_times: Seq<u64>, k: int) -> u64 {
    if k == 0 {
        state.last_idle_ms
    } else {
        idle_times[k - 1]
    }
}

/// Whether there was no input from the tick number `from` of a sequence to its
/// end: no idle time lies below the one before it.
pub open spec fn no_input_from(state: StateModel, idle_times: Seq<u64>, from: int) -> bool {
    forall|k: int|
        from <= k < idle_times.len() ==> idle_times[k] >= #[trigger] latest_before(
            state,
            idle_times,
            k,
        )
}

/// Whether one of the ticks of a sequence reaches an interval with no input after
/// that tick.
pub open spec fn reached_since_input(
    state: StateModel,
    idle_times: Seq<u64>,
    interval_ms: u64,
) -> bool {
    exists|k: int|
        0 <= k < idle_times.len() && interval_ms <= #[trigger] idle_times[k] && no_input_from(
            state,
            idle_times,
            k + 1,
        )
}

proof fn lemma_no_input_from_splits(state: StateModel, idle_times: Seq<u64>, from: int)
    requires
        0 <= from < idle_times.len(),
    ensures
        no_input_from(state, idle_times, from) <==> no_input_from(
            state,
            idle_times.drop_last(),
            from,
        ) && idle_times.last() >= latest_before(state, idle_times, idle_times.len() - 1),
{
    let earlier = idle_times.drop_last();
    assert forall|k: int| 0 <= k <= earlier.len() implies #[trigger] latest_before(
        state,
        earlier,
        k,
    ) == latest_before(state, idle_times, k) by {}
    if no_input_from(state, idle_times, from) {
        assert forall|k: int| from <= k < earlier.len() implies earlier[k]
            >= #[trigger] latest_before(state, earlier, k) by {
            assert(idle_times[k] >= latest_before(state, idle_times, k));
        }
    }
    if no_input_from(state, earlier, from) && idle_times.last() >= latest_before(
        state,
        idle_times,
        idle_times.len() - 1,
    ) {
        assert forall|k: int| from <= k < idle_times.len() implies idle_times[k]
            >= #[trigger] latest_before(state, idle_times, k) by {
            if k < earlier.len() {
                assert(earlier[k] >= latest_before(state, earlier, k));
            }
        }
    }
}

proof fn lemma_reached_since_input_splits(
    state: StateModel,
    idle_times: Seq<u64>,
    interval_ms: u64,
)
    requires
        idle_times.len() > 0,
    ensures
        reached_since_input(state, idle_times, interval_ms) <==> interval_ms <= idle_times.last()
            || (reached_since_input(state, idle_times.drop_last(), interval_ms)
            && idle_times.last() >= latest_before(state, idle_times, idle_times.len() - 1)),
{
    let earlier = idle_times.drop_last();
    let n = earlier.len() as int;
    if reached_since_input(state, idle_times, interval_ms) {
        let k = choose|k: int|
            0 <= k < idle_times.len() && interval_ms <= #[trigger] idle_times[k] && no_input_from(
                state,
                idle_times,
                k + 1,
            );
        if k < n {
            lemma_no_input_from_splits(state, idle_times, k + 1);
            assert(earlier[k] == idle_times[k]);
        }
    }
    if interval_ms <= idle_times.last() {
        assert(no_input_from(state, idle_times, n + 1));
        assert(interval_ms <= idle_times[n]);
    }
    if reached_since_input(state, earlier, interval_ms) && idle_times.last() >= latest_before(
        state,
        idle_times,
        n,
    ) {
        let k = choose|k: int|
            0 <= k < n && interval_ms <= #[trigger] earlier[k] && no_input_from(
                state,
                earlier,
                k + 1,
            );
        lemma_no_input_from_splits(state, idle_times, k + 1);
        assert(idle_times[k] == earlier[k]);
    }
}

/// After any sequence of ticks, an idle watch counts as fired exactly if one of
/// the ticks reached its interval and there was no input after that tick, or if
/// it counted as fired before and there was no input at all. It fires at the
/// next tick exactly if that reaches its interval and the watch does not count
/// as fired, or there is input.
pub proof fn law_watch_remembers_firing_until_input(
    state: StateModel,
    id: u32,
    idle_times: Seq<u64>,
    next: u64,
)
    requires
        state.idle_watches.contains_key(id),
    ensures
        ({
            let now = state.after_ticks(idle_times);
            let latest = latest_before(state, idle_times, idle_times.len() as int);
            let interval_ms = state.idle_watches[id].interval_ms;
            let fired = reached_since_input(state, idle_times, interval_ms) || (
            state.idle_watches[id].fired_this_cycle && no_input_from(state, idle_times, 0));
            &&& now.idle_watches.contains_key(id)
            &&& now.idle_watches[id].interval_ms == interval_ms
            &&& now.idle_watches[id].fired_this_cycle <==> fired
            &&& now.last_idle_ms == latest
            &&& now.due(next).contains(id) <==> interval_ms <= next && (!fired || next < latest)
        }),
    decreases idle_times.len(),
{
    if idle_times.len() > 0 {
        let earlier = idle_times.drop_last();
        law_watch_remembers_firing_until_input(state, id, earlier, next);
        lemma_no_input_from_splits(state, idle_times, 0);
        lemma_reached_since_input_splits(
            state,
            idle_times,
            state.idle_watches[id].interval_ms,
        );
        assert(latest_before(state, earlier, earlier.len() as int) == latest_before(
            state,
            idle_times,
            earlier.len() as int,
        ));
    } else {
        assert(!reached_since_input(state, idle_times, state.idle_watches[id].interval_ms));
        assert(no_input_from(state, idle_times, 0));
    }
}

/// A watch may be removed before or after a tick: what is left is the same, so
/// removing one watch disturbs no other.
pub proof fn law_removal_and_ticks_commute(state: StateModel, id: u32, idle_ms: u64)
    ensures
        state.without_watch(id).after_tick(idle_ms) == state.after_tick(idle_ms).without_watch(id),
        state.without_watch(id).due(idle_ms) == state.due(idle_ms).remove(id),
        state.without_watch(id).woken(idle_ms) == state.woken(idle_ms).remove(id),
{
    let one = state.without_watch(id).after_tick(idle_ms);
    let two = state.after_tick(idle_ms).without_watch(id);
    assert(state.without_watch(id).due(idle_ms) =~= state.due(idle_ms).remove(id));
    assert(state.without_watch(id).woken(idle_ms) =~= state.woken(idle_ms).remove(id));
    assert(one.idle_watches =~= two.idle_watches);
    assert(one.active_watches =~= two.active_watches);
    assert(one.watch_owners =~= two.watch_owners);
}

/// The watches of one connection fire, or not, whatever the other connections
/// do: those that a connection leaves behind fire as they would have with it.
pub proof fn law_removing_an_owner_disturbs_no_other(
    state: StateModel,
    owner: Seq<char>,
    other: u32,
    idle_ms: u64,
)
    requires
        !(state.watch_owners.contains_key(other) && state.watch_owners[other] == owner),
    ensures
        state.without_owner(owner).due(idle_ms).contains(other) == state.due(idle_ms).contains(
            other,
        ),
        state.without_owner(owner).woken(idle_ms).contains(other) == state.woken(idle_ms).contains(
            other,
        ),
        same_entry(
            state.without_owner(owner).after_tick(idle_ms),
            state.after_tick(idle_ms),
            other,
        ),
{
}

/// Registering a watch, or removing it again, changes nothing of when any other
/// watch fires.
pub proof fn law_registration_disturbs_no_other(
    state: StateModel,
    id: u32,
    interval_ms: u64,
    owner: Seq<char>,
    other: u32,
    idle_ms: u64,
)
    requires
        other != id,
    ensures
        ({
            let idle = state.with_idle_watch(id, interval_ms, owner);
            let active = state.with_active_watch(id, owner);
            &&& idle.due(idle_ms).contains(other) == state.due(idle_ms).contains(other)
            &&& idle.woken(idle_ms).contains(other) == state.woken(idle_ms).contains(other)
            &&& active.due(idle_ms).contains(other) == state.due(idle_ms).contains(other)
            &&& active.woken(idle_ms).contains(other) == state.woken(idle_ms).contains(other)
            &&& same_entry(idle.after_tick(idle_ms), state.after_tick(idle_ms), other)
            &&& same_entry(active.after_tick(idle_ms), state.after_tick(idle_ms), other)
        }),
{
}

} // verus!
