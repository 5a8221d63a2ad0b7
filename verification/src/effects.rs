//! What each operation does, told entry by entry.
//!
//! The laws here speak of the tables themselves: of ids, intervals, flags, owners
//! and milliseconds, and of the texts and watches that come out.
use vstd::prelude::*;

use crate::bus::{owner_view, text_view, unique_name, OwnerChange, OwnerName};
use crate::cleanup::{after_leaving, tells_of_leaving, vanished, CleanupOutcome};
use crate::error::MonitorError;
use crate::lifecycle::{exit_blame, ExitCause, LoopEnd, LoopKind};
use crate::model::{lists, StateModel};
use crate::monitor::{checked_sender, registration_answered};
use crate::poll::{
    announcing, poll_next, sampled, state_after_step, PhaseModel, PollAction, PollEvent, PollPhase,
};
use crate::state::State;

verus! {

/// Whether everything that two registries hold under an id is the same.
pub open spec fn same_entry(one: StateModel, two: StateModel, id: u32) -> bool {
    &&& one.idle_watches.contains_key(id) == two.idle_watches.contains_key(id)
    &&& one.idle_watches.contains_key(id) ==> one.idle_watches[id].interval_ms
        == two.idle_watches[id].interval_ms && one.idle_watches[id].fired_this_cycle
        == two.idle_watches[id].fired_this_cycle
    &&& one.active_watches.contains(id) == two.active_watches.contains(id)
    &&& one.watch_owners.contains_key(id) == two.watch_owners.contains_key(id)
    &&& one.watch_owners.contains_key(id) ==> one.watch_owners[id] == two.watch_owners[id]
}

/// Whether a registry holds anything under an id.
pub open spec fn holds_something(state: StateModel, id: u32) -> bool {
    ||| state.idle_watches.contains_key(id)
    ||| state.active_watches.contains(id)
    ||| state.watch_owners.contains_key(id)
}

/// The model of a registry is made of what its fields hold, nothing less.
pub proof fn law_model_shows_every_field(state: State, id: u32)
    ensures
        state@.next_watch_id == state.next_watch_id,
        state@.last_idle_ms == state.last_idle_ms,
        state@.was_idle == state.was_idle,
        state@.idle_watches.contains_key(id) == state.idle_watches@.contains_key(id),
        state.idle_watches@.contains_key(id) ==> state@.idle_watches[id] == state.idle_watches@[id],
        state@.active_watches.contains(id) == state.active_watches@.contains(id),
        state@.watch_owners.contains_key(id) == state.watch_owners@.contains_key(id),
        state.watch_owners@.contains_key(id) ==> state@.watch_owners[id]
            == state.watch_owners@[id].name@,
{
}

/// A new registry holds nothing, starts counting ids at one and has seen no
/// idle user.
pub proof fn law_new_registry_holds_nothing(id: u32)
    ensures
        !holds_something(StateModel::empty(), id),
        StateModel::empty().next_watch_id == 1,
        StateModel::empty().last_idle_ms == 0,
        !StateModel::empty().was_idle,
{
}

/// An id is in use when one of the tables holds something under it.
pub proof fn law_ids_in_use_are_held(state: StateModel, id: u32)
    ensures
        state.in_use(id) <==> holds_something(state, id),
{
}

/// In a well-formed registry zero holds nothing, and every other id is either an
/// idle watch with an owner, or a user-active watch with an owner, or nothing.
pub proof fn law_well_formed_entries(state: StateModel)
    ensures
        state.well_formed() <==> (!holds_something(state, 0) && forall|id: u32| #[trigger]
            holds_something(state, id) ==> state.watch_owners.contains_key(id)
                && state.idle_watches.contains_key(id) != state.active_watches.contains(id)),
{
    if state.well_formed() {
        assert forall|id: u32| #[trigger] holds_something(state, id) implies
            state.watch_owners.contains_key(id) && state.idle_watches.contains_key(id)
            != state.active_watches.contains(id) by {
            assert(state.active_watches.contains(id) ==> !state.idle_watches.contains_key(id));
            assert(state.watch_owners.contains_key(id) <==> (state.idle_watches.contains_key(id)
                || state.active_watches.contains(id)));
        }
    }
    if !holds_something(state, 0) && forall|id: u32| #[trigger]
        holds_something(state, id) ==> state.watch_owners.contains_key(id)
            && state.idle_watches.contains_key(id) != state.active_watches.contains(id) {
        assert forall|id: u32| #[trigger] state.active_watches.contains(id) implies
            !state.idle_watches.contains_key(id) by {
            assert(holds_something(state, id));
        }
        assert forall|id: u32| #[trigger]
            state.watch_owners.contains_key(id) <==> (state.idle_watches.contains_key(id)
                || state.active_watches.contains(id)) by {
            assert(holds_something(state, id) ==> state.watch_owners.contains_key(id));
        }
    }
}

/// A free id is one from one to the largest under which nothing is held.
pub proof fn law_free_id_holds_nothing(state: StateModel)
    ensures
        state.has_free_watch_id() <==> exists|id: u32| id >= 1 && !#[trigger] holds_something(
            state,
            id,
        ),
{
    if state.has_free_watch_id() {
        let id = choose|id: u32| id != 0 && !#[trigger] state.in_use(id);
        assert(id >= 1 && !holds_something(state, id));
    }
    if exists|id: u32| id >= 1 && !#[trigger] holds_something(state, id) {
        let id = choose|id: u32| id >= 1 && !#[trigger] holds_something(state, id);
        assert(id != 0 && !state.in_use(id));
    }
}

/// The id that is allocated is the smallest free one that is not below
/// `next_watch_id`, or, when there is none, the smallest free one of all.
pub proof fn law_allocation_takes_the_first_free_id(state: StateModel, id: u32)
    ensures
        state.allocates(id) <==> {
            &&& id >= 1
            &&& !holds_something(state, id)
            &&& id >= state.next_watch_id ==> forall|earlier: u32|
                1 <= earlier && state.next_watch_id <= earlier < id ==> #[trigger] holds_something(
                    state,
                    earlier,
                )
            &&& id < state.next_watch_id ==> forall|earlier: u32|
                1 <= earlier && (earlier < id || earlier >= state.next_watch_id)
                    ==> #[trigger] holds_something(state, earlier)
        },
{
    if state.allocates(id) {
        assert forall|earlier: u32|
            1 <= earlier && if id >= state.next_watch_id {
                state.next_watch_id <= earlier < id
            } else {
                earlier < id || earlier >= state.next_watch_id
            } implies #[trigger] holds_something(state, earlier) by {
            assert(state.in_use(earlier));
        }
    } else if id >= 1 && !holds_something(state, id) {
        let earlier = choose|earlier: u32|
            crate::model::id_distance(state.next_watch_id, earlier) < crate::model::id_distance(
                state.next_watch_id,
                id,
            ) && earlier != 0 && !#[trigger] state.in_use(earlier);
        assert(!holds_something(state, earlier));
    }
}

/// An allocation moves on to the id after the one it gave out and touches no
/// table.
pub proof fn law_allocation_only_moves_on(state: StateModel, id: u32, any: u32)
    ensures
        state.after_allocation(id).next_watch_id == if id == 0xffff_ffff {
            0
        } else {
            id + 1
        },
        state.after_allocation(id).last_idle_ms == state.last_idle_ms,
        state.after_allocation(id).was_idle == state.was_idle,
        same_entry(state.after_allocation(id), state, any),
{
}

/// Adding an idle watch puts it, with its interval, not fired and with its
/// owner, under its id and leaves every other entry as it was.
pub proof fn law_adding_an_idle_watch_adds_only_it(
    state: StateModel,
    id: u32,
    interval_ms: u64,
    owner: Seq<char>,
    other: u32,
)
    requires
        other != id,
    ensures
        ({
            let after = state.with_idle_watch(id, interval_ms, owner);
            &&& after.idle_watches.contains_key(id)
            &&& after.idle_watches[id].interval_ms == interval_ms
            &&& !after.idle_watches[id].fired_this_cycle
            &&& after.active_watches.contains(id) == state.active_watches.contains(id)
            &&& after.watch_owners.contains_key(id)
            &&& after.watch_owners[id] == owner
            &&& same_entry(after, state, other)
            &&& after.next_watch_id == if id == 0xffff_ffff {
                0
            } else {
                id + 1
            }
            &&& after.last_idle_ms == state.last_idle_ms
            &&& after.was_idle == state.was_idle
        }),
{
}

/// Adding a user-active watch puts it with its owner under its id, whether or
/// not the user is idle, and leaves every other entry as it was.
pub proof fn law_adding_an_active_watch_adds_only_it(
    state: StateModel,
    id: u32,
    owner: Seq<char>,
    other: u32,
)
    requires
        other != id,
    ensures
        ({
            let after = state.with_active_watch(id, owner);
            &&& after.active_watches.contains(id)
            &&& after.idle_watches.contains_key(id) == state.idle_watches.contains_key(id)
            &&& state.idle_watches.contains_key(id) ==> after.idle_watches[id]
                == state.idle_watches[id]
            &&& after.watch_owners.contains_key(id)
            &&& after.watch_owners[id] == owner
            &&& same_entry(after, state, other)
            &&& after.next_watch_id == if id == 0xffff_ffff {
                0
            } else {
                id + 1
            }
            &&& after.last_idle_ms == state.last_idle_ms
            &&& after.was_idle == state.was_idle
        }),
{
}

/// Removing a watch leaves nothing under its id. Every other watch keeps its
/// kind, its interval, its owner and whether it has fired.
pub proof fn law_removing_a_watch_keeps_every_other_entry(state: StateModel, id: u32, other: u32)
    requires
        other != id,
    ensures
        !holds_something(state.without_watch(id), id),
        same_entry(state.without_watch(id), state, other),
        state.without_watch(id).next_watch_id == state.next_watch_id,
        state.without_watch(id).last_idle_ms == state.last_idle_ms,
        state.without_watch(id).was_idle == state.was_idle,
{
}

/// A connection owns the ids that the table of owners maps to its name. Once it
/// is removed nothing is held under these, and all other entries are as before.
pub proof fn law_removing_an_owner_goes_by_the_table_of_owners(
    state: StateModel,
    owner: Seq<char>,
    id: u32,
)
    ensures
        state.owned_by(owner).contains(id) <==> state.watch_owners.contains_key(id)
            && state.watch_owners[id] == owner,
        state.watch_owners.contains_key(id) && state.watch_owners[id] == owner
            ==> !holds_something(state.without_owner(owner), id),
        !(state.watch_owners.contains_key(id) && state.watch_owners[id] == owner) ==> same_entry(
            state.without_owner(owner),
            state,
            id,
        ),
        !(state.without_owner(owner).watch_owners.contains_key(id) && state.without_owner(
            owner,
        ).watch_owners[id] == owner),
        state.without_owner(owner).next_watch_id == state.next_watch_id,
        state.without_owner(owner).last_idle_ms == state.last_idle_ms,
        state.without_owner(owner).was_idle == state.was_idle,
{
}

/// The ids that come back when a connection is removed are those that the table
/// of owners maps to its name, each once.
pub proof fn law_removed_ids_are_those_of_the_owner(
    state: StateModel,
    owner: Seq<char>,
    removed: Seq<u32>,
)
    requires
        lists(removed, state.owned_by(owner)),
    ensures
        forall|i: int, j: int| 0 <= i < j < removed.len() ==> removed[i] != removed[j],
        forall|i: int|
            0 <= i < removed.len() ==> state.watch_owners.contains_key(#[trigger] removed[i])
                && state.watch_owners[removed[i]] == owner,
        forall|id: u32| #[trigger]
            state.watch_owners.contains_key(id) && state.watch_owners[id] == owner ==> exists|
                i: int,
            |
                0 <= i < removed.len() && removed[i] == id,
{
    assert forall|i: int| 0 <= i < removed.len() implies state.watch_owners.contains_key(
        #[trigger] removed[i],
    ) && state.watch_owners[removed[i]] == owner by {
        assert(removed.contains(removed[i]));
        assert(state.owned_by(owner).contains(removed[i]));
    }
    assert forall|id: u32| #[trigger]
        state.watch_owners.contains_key(id) && state.watch_owners[id] == owner implies exists|
            i: int,
        |
            0 <= i < removed.len() && removed[i] == id by {
        assert(state.owned_by(owner).contains(id));
        assert(removed.contains(id));
    }
}

/// An idle watch fires at a tick exactly when the idle time has reached its
/// interval and it either has not fired since the latest input, or there was
/// input since the latest tick.
pub proof fn law_due_watches_have_reached_their_interval(
    state: StateModel,
    id: u32,
    idle_ms: u64,
)
    ensures
        state.due(idle_ms).contains(id) <==> {
            &&& state.idle_watches.contains_key(id)
            &&& state.idle_watches[id].interval_ms <= idle_ms
            &&& !state.idle_watches[id].fired_this_cycle || idle_ms < state.last_idle_ms
        },
{
}

/// A user-active watch fires at a tick exactly when the user was idle at the
/// latest tick and the idle time is now below a second.
pub proof fn law_woken_watches_see_the_user_return(state: StateModel, id: u32, idle_ms: u64)
    ensures
        state.woken(idle_ms).contains(id) <==> {
            &&& state.active_watches.contains(id)
            &&& state.was_idle
            &&& idle_ms < 1000
        },
{
}

/// What a tick reports, for any registry: first each user-active watch once if
/// the user has returned, then each idle watch once that fires, and nothing else.
pub proof fn law_report_names_every_firing_watch(
    state: StateModel,
    idle_ms: u64,
    fired: Seq<u32>,
)
    requires
        state.fires(idle_ms, fired),
    ensures
        exists|split: int| #[trigger]
            report_splits(state, idle_ms, fired, split),
        forall|id: u32|
            state.active_watches.contains(id) && state.was_idle && idle_ms < 1000
                ==> #[trigger] fired.contains(id),
        forall|id: u32|
            state.idle_watches.contains_key(id) && state.idle_watches[id].interval_ms <= idle_ms
                && (!state.idle_watches[id].fired_this_cycle || idle_ms < state.last_idle_ms)
                ==> #[trigger] fired.contains(id),
{
    let split = state.woken(idle_ms).len() as int;
    let first = fired.take(split);
    let second = fired.skip(split);
    assert forall|i: int, j: int| 0 <= i < j < split implies fired[i] != fired[j] by {
        assert(first[i] != first[j]);
    }
    assert forall|i: int, j: int| split <= i < j < fired.len() implies fired[i] != fired[j] by {
        assert(second[i - split] != second[j - split]);
    }
    assert forall|i: int| 0 <= i < split implies state.active_watches.contains(#[trigger] fired[i])
        && state.was_idle && idle_ms < 1000 by {
        assert(first[i] == fired[i]);
        assert(first.contains(fired[i]));
        assert(state.woken(idle_ms).contains(fired[i]));
    }
    assert forall|i: int| split <= i < fired.len() implies idle_watch_fires(
        state,
        #[trigger] fired[i],
        idle_ms,
    ) by {
        assert(second[i - split] == fired[i]);
        assert(second.contains(fired[i]));
        assert(state.due(idle_ms).contains(fired[i]));
    }
    assert forall|id: u32|
        state.active_watches.contains(id) && state.was_idle && idle_ms < 1000 implies exists|
            i: int,
        |
            0 <= i < split && fired[i] == id by {
        assert(state.woken(idle_ms).contains(id));
        assert(first.contains(id));
        let i = choose|i: int| 0 <= i < first.len() && first[i] == id;
        assert(fired[i] == id);
    }
    assert forall|id: u32| idle_watch_fires(state, id, idle_ms) implies exists|i: int|
        split <= i < fired.len() && fired[i] == id by {
        assert(state.due(idle_ms).contains(id));
        assert(second.contains(id));
        let i = choose|i: int| 0 <= i < second.len() && second[i] == id;
        assert(fired[i + split] == id);
    }
    assert(report_splits(state, idle_ms, fired, split));
    assert forall|id: u32|
        state.active_watches.contains(id) && state.was_idle && idle_ms
            < 1000 implies #[trigger] fired.contains(id) by {}
    assert forall|id: u32|
        state.idle_watches.contains_key(id) && state.idle_watches[id].interval_ms <= idle_ms && (
        !state.idle_watches[id].fired_this_cycle || idle_ms
            < state.last_idle_ms) implies #[trigger] fired.contains(id) by {
        assert(idle_watch_fires(state, id, idle_ms));
    }
}

/// Whether the tables say that an idle watch fires at a tick.
pub open spec fn idle_watch_fires(state: StateModel, id: u32, idle_ms: u64) -> bool {
    &&& state.idle_watches.contains_key(id)
    &&& state.idle_watches[id].interval_ms <= idle_ms
    &&& !state.idle_watches[id].fired_this_cycle || idle_ms < state.last_idle_ms
}

/// Whether the ids before `split` are the user-active watches that a tick fires,
/// each once, and those from there on the idle watches, each once.
pub open spec fn report_splits(
    state: StateModel,
    idle_ms: u64,
    fired: Seq<u32>,
    split: int,
) -> bool {
    &&& 0 <= split <= fired.len()
    &&& forall|i: int, j: int| 0 <= i < j < split ==> fired[i] != fired[j]
    &&& forall|i: int, j: int| split <= i < j < fired.len() ==> fired[i] != fired[j]
    &&& forall|i: int|
        0 <= i < split ==> state.active_watches.contains(#[trigger] fired[i]) && state.was_idle
            && idle_ms < 1000
    &&& forall|i: int|
        split <= i < fired.len() ==> idle_watch_fires(state, #[trigger] fired[i], idle_ms)
    &&& forall|id: u32| #[trigger]
        state.active_watches.contains(id) && state.was_idle && idle_ms < 1000 ==> exists|i: int|
            0 <= i < split && fired[i] == id
    &&& forall|id: u32| #[trigger]
        idle_watch_fires(state, id, idle_ms) ==> exists|i: int|
            split <= i < fired.len() && fired[i] == id
}

/// What a tick leaves of each entry. Idle watches stay, and count as fired if
/// the idle time has reached their interval, or if they had fired and there was
/// no input since. User-active watches and their owners go when the user has
/// returned, and stay otherwise. Nothing else changes but what was sampled.
pub proof fn law_tick_updates_each_entry(state: StateModel, idle_ms: u64, id: u32)
    ensures
        ({
            let after = state.after_tick(idle_ms);
            let back = state.was_idle && idle_ms < 1000;
            &&& after.idle_watches.contains_key(id) == state.idle_watches.contains_key(id)
            &&& state.idle_watches.contains_key(id) ==> after.idle_watches[id].interval_ms
                == state.idle_watches[id].interval_ms
            &&& state.idle_watches.contains_key(id) ==> (after.idle_watches[id].fired_this_cycle
                <==> state.idle_watches[id].interval_ms <= idle_ms || (
            state.idle_watches[id].fired_this_cycle && idle_ms >= state.last_idle_ms))
            &&& after.active_watches.contains(id) <==> state.active_watches.contains(id) && !back
            &&& after.watch_owners.contains_key(id) <==> state.watch_owners.contains_key(id) && !(
            back && state.active_watches.contains(id))
            &&& after.watch_owners.contains_key(id) ==> after.watch_owners[id]
                == state.watch_owners[id]
            &&& after.last_idle_ms == idle_ms
            &&& after.was_idle == (idle_ms >= 1000)
            &&& after.next_watch_id == state.next_watch_id
        }),
{
}

/// A watch is marked as fired by a tick only if the tick reports it, or if it
/// was marked before.
pub proof fn law_marked_watches_have_been_reported(
    state: StateModel,
    idle_ms: u64,
    fired: Seq<u32>,
    id: u32,
)
    requires
        state.fires(idle_ms, fired),
        state.idle_watches.contains_key(id),
        state.after_tick(idle_ms).idle_watches[id].fired_this_cycle,
    ensures
        fired.contains(id) || (state.idle_watches[id].fired_this_cycle && idle_ms
            >= state.last_idle_ms),
{
    law_report_names_every_firing_watch(state, idle_ms, fired);
}

/// A sequence of ticks is one tick after the other.
pub proof fn law_ticks_follow_one_another(state: StateModel, idle_times: Seq<u64>, next: u64)
    ensures
        state.after_ticks(Seq::empty()) == state,
        state.after_ticks(idle_times.push(next)) == state.after_ticks(idle_times).after_tick(next),
{
    assert(idle_times.push(next).drop_last() =~= idle_times);
}

/// How a request for an idle watch is answered, in terms of the tables.
pub proof fn law_idle_watch_request_is_answered(
    before: StateModel,
    sender: Option<Seq<char>>,
    interval_ms: u64,
    reply: Result<u32, MonitorError>,
    after: StateModel,
    other: u32,
)
    requires
        registration_answered(
            before,
            sender,
            |id: u32, owner: Seq<char>| before.with_idle_watch(id, interval_ms, owner),
            reply,
            after,
        ),
    ensures
        sender is None ==> reply is Err && reply->Err_0 is NoSender && after == before,
        sender is Some && (forall|id: u32| id >= 1 ==> #[trigger] holds_something(before, id))
            ==> reply is Err && reply->Err_0 is NoFreeWatchId && after == before,
        sender is Some && !(forall|id: u32| id >= 1 ==> #[trigger] holds_something(before, id))
            ==> {
            &&& reply is Ok
            &&& reply->Ok_0 >= 1
            &&& !holds_something(before, reply->Ok_0)
            &&& reply->Ok_0 >= before.next_watch_id ==> forall|earlier: u32|
                1 <= earlier && before.next_watch_id <= earlier < reply->Ok_0
                    ==> #[trigger] holds_something(before, earlier)
            &&& reply->Ok_0 < before.next_watch_id ==> forall|earlier: u32|
                1 <= earlier && (earlier < reply->Ok_0 || earlier >= before.next_watch_id)
                    ==> #[trigger] holds_something(before, earlier)
            &&& after.next_watch_id == if reply->Ok_0 == 0xffff_ffff {
                0
            } else {
                reply->Ok_0 + 1
            }
            &&& after.idle_watches.contains_key(reply->Ok_0)
            &&& after.idle_watches[reply->Ok_0].interval_ms == interval_ms
            &&& !after.idle_watches[reply->Ok_0].fired_this_cycle
            &&& !after.active_watches.contains(reply->Ok_0)
            &&& after.watch_owners.contains_key(reply->Ok_0)
            &&& after.watch_owners[reply->Ok_0] == sender->Some_0
            &&& other != reply->Ok_0 ==> same_entry(after, before, other)
            &&& after.last_idle_ms == before.last_idle_ms
            &&& after.was_idle == before.was_idle
        },
{
    law_free_id_holds_nothing(before);
    if reply is Ok {
        law_allocation_takes_the_first_free_id(before, reply->Ok_0);
    }
}

/// How a request for a user-active watch is answered, in terms of the tables.
pub proof fn law_active_watch_request_is_answered(
    before: StateModel,
    sender: Option<Seq<char>>,
    reply: Result<u32, MonitorError>,
    after: StateModel,
    other: u32,
)
    requires
        registration_answered(
            before,
            sender,
            |id: u32, owner: Seq<char>| before.with_active_watch(id, owner),
            reply,
            after,
        ),
    ensures
        sender is None ==> reply is Err && reply->Err_0 is NoSender && after == before,
        sender is Some && (forall|id: u32| id >= 1 ==> #[trigger] holds_something(before, id))
            ==> reply is Err && reply->Err_0 is NoFreeWatchId && after == before,
        sender is Some && !(forall|id: u32| id >= 1 ==> #[trigger] holds_something(before, id))
            ==> {
            &&& reply is Ok
            &&& reply->Ok_0 >= 1
            &&& !holds_something(before, reply->Ok_0)
            &&& reply->Ok_0 >= before.next_watch_id ==> forall|earlier: u32|
                1 <= earlier && before.next_watch_id <= earlier < reply->Ok_0
                    ==> #[trigger] holds_something(before, earlier)
            &&& reply->Ok_0 < before.next_watch_id ==> forall|earlier: u32|
                1 <= earlier && (earlier < reply->Ok_0 || earlier >= before.next_watch_id)
                    ==> #[trigger] holds_something(before, earlier)
            &&& after.next_watch_id == if reply->Ok_0 == 0xffff_ffff {
                0
            } else {
                reply->Ok_0 + 1
            }
            &&& after.active_watches.contains(reply->Ok_0)
            &&& !after.idle_watches.contains_key(reply->Ok_0)
            &&& after.watch_owners.contains_key(reply->Ok_0)
            &&& after.watch_owners[reply->Ok_0] == sender->Some_0
            &&& other != reply->Ok_0 ==> same_entry(after, before, other)
            &&& after.last_idle_ms == before.last_idle_ms
            &&& after.was_idle == before.was_idle
        },
{
    law_free_id_holds_nothing(before);
    if reply is Ok {
        law_allocation_takes_the_first_free_id(before, reply->Ok_0);
    }
}

/// The sender of a request that has one is known by its name's text.
pub proof fn law_checked_sender_is_the_owner(owner: OwnerName, error: MonitorError)
    ensures
        checked_sender(Ok(owner)) == Some(owner.name@),
        checked_sender(Err(error)) is None,
{
}

/// The text of a failed query's reply ends with what went wrong, and what stands
/// before it does not depend on that.
pub proof fn law_query_failure_is_quoted(cause: String, other: String)
    ensures
        ({
            let text = MonitorError::IdleTimeQuery(cause).text();
            let other_text = MonitorError::IdleTimeQuery(other).text();
            let lead = text.len() - cause@.len();
            &&& lead > 0
            &&& text.skip(lead) == cause@
            &&& other_text.len() == lead + other@.len()
            &&& other_text.take(lead) == text.take(lead)
            &&& other_text.skip(lead) == other@
        }),
{
    reveal_strlit("X11 idle-time query failed: ");
    let text = MonitorError::IdleTimeQuery(cause).text();
    let other_text = MonitorError::IdleTimeQuery(other).text();
    let lead = text.len() - cause@.len();
    assert(text.skip(lead) =~= cause@);
    assert(other_text.skip(lead) =~= other@);
    assert(other_text.take(lead) =~= text.take(lead));
}

/// The daemon fails exactly when one of its loops fails or panics, and a panic is
/// quoted in full after a text that depends on the loop alone.
pub proof fn law_exit_is_blamed_on_failed_loops(
    cause: ExitCause,
    kind: LoopKind,
    panic: String,
    other: String,
)
    ensures
        exit_blame(cause) is Some <==> (cause matches ExitCause::LoopEnded(_, end) && (end is Failed
            || end is Panicked)),
        ({
            let blame = exit_blame(ExitCause::LoopEnded(kind, LoopEnd::Panicked(panic)))->Some_0;
            let other_blame = exit_blame(
                ExitCause::LoopEnded(kind, LoopEnd::Panicked(other)),
            )->Some_0;
            let lead = blame.len() - panic@.len();
            &&& lead > 0
            &&& blame.skip(lead) == panic@
            &&& other_blame.len() == lead + other@.len()
            &&& other_blame.take(lead) == blame.take(lead)
            &&& other_blame.skip(lead) == other@
        }),
{
    reveal_strlit("poll loop");
    reveal_strlit("cleanup loop");
    reveal_strlit(" task panicked: ");
    let blame = exit_blame(ExitCause::LoopEnded(kind, LoopEnd::Panicked(panic)))->Some_0;
    let other_blame = exit_blame(ExitCause::LoopEnded(kind, LoopEnd::Panicked(other)))->Some_0;
    let lead = blame.len() - panic@.len();
    assert(blame.skip(lead) =~= panic@);
    assert(other_blame.skip(lead) =~= other@);
    assert(other_blame.take(lead) =~= blame.take(lead));
}

/// A change of owners shows the name and both owners as they are written.
pub proof fn law_owner_change_shows_its_texts(change: OwnerChange, text: Option<String>)
    ensures
        change@.0 == change.name@,
        change.old_owner is Some ==> change@.1 == Some(change.old_owner->Some_0.name@),
        change.old_owner is None ==> change@.1 is None,
        change.new_owner is Some ==> change@.2 == Some(change.new_owner->Some_0.name@),
        change.new_owner is None ==> change@.2 is None,
        owner_view(change.old_owner) == change@.1,
        text is Some ==> text_view(text) == Some(text->Some_0@),
        text is None ==> text_view(text) is None,
{
}

/// The names that begin with a colon are unique, and no other name is but that
/// of the bus itself.
pub proof fn law_unique_names_begin_with_a_colon(name: Seq<char>)
    ensures
        name.len() > 0 && name[0] == ':' ==> unique_name(name),
        unique_name(name) && name != "org.freedesktop.DBus"@ ==> name.len() > 0 && name[0] == ':',
        unique_name("org.freedesktop.DBus"@),
{
}

/// What a change of owners does to each entry: a name that begins with a colon,
/// or the bus's own, takes the watches of its old owner with it when it is left
/// without owner. A
/// change that has a new owner, or no old one, or is one of a well-known name,
/// touches nothing.
pub proof fn law_owner_change_touches_only_the_vanished(
    state: StateModel,
    name: Seq<char>,
    old_owner: Option<Seq<char>>,
    new_owner: Option<Seq<char>>,
    id: u32,
)
    ensures
        ({
            let after = after_leaving(state, vanished(name, old_owner, new_owner));
            let owned = old_owner is Some && state.watch_owners.contains_key(id)
                && state.watch_owners[id] == old_owner->Some_0;
            let unique = (name.len() > 0 && name[0] == ':') || name == "org.freedesktop.DBus"@;
            &&& unique && new_owner is None && owned ==> !holds_something(after, id)
            &&& new_owner is Some || old_owner is None || !owned ==> same_entry(after, state, id)
            &&& !unique ==> same_entry(after, state, id)
            &&& after.next_watch_id == state.next_watch_id
            &&& after.last_idle_ms == state.last_idle_ms
            &&& after.was_idle == state.was_idle
        }),
{
}

/// The outcome of a signal names the connection that has left and lists each of
/// its watches once, and nobody else's.
pub proof fn law_cleanup_outcome_lists_the_removed_watches(
    state: StateModel,
    name: Seq<char>,
    old_owner: Option<Seq<char>>,
    new_owner: Option<Seq<char>>,
    outcome: CleanupOutcome,
)
    requires
        tells_of_leaving(state, vanished(name, old_owner, new_owner), outcome),
    ensures
        new_owner is Some || old_owner is None ==> outcome is Ignored,
        !(name.len() > 0 && name[0] == ':') && name != "org.freedesktop.DBus"@ ==> outcome is Ignored,
        ((name.len() > 0 && name[0] == ':') || name == "org.freedesktop.DBus"@) && new_owner is None
            && old_owner is Some ==> {
            &&& outcome matches CleanupOutcome::Removed { owner, watches }
            &&& owner.name@ == old_owner->Some_0
            &&& forall|i: int, j: int| 0 <= i < j < watches@.len() ==> watches@[i] != watches@[j]
            &&& forall|id: u32| #[trigger]
                watches@.contains(id) <==> state.watch_owners.contains_key(id)
                    && state.watch_owners[id] == old_owner->Some_0
        },
{
}

/// The model of the poll loop's phase holds the watches still to be announced.
pub proof fn law_phase_shows_what_is_left(phase: PollPhase)
    ensures
        phase is Priming <==> phase@ is Priming,
        phase is Waiting <==> phase@ is Waiting,
        phase is Querying <==> phase@ is Querying,
        phase is Announcing <==> phase@ is Announcing,
        phase is Stopped <==> phase@ is Stopped,
        phase is Announcing && phase->next <= phase->fired@.len() ==> phase@->Announcing_0
            == phase->fired@.skip(phase->next as int),
        phase is Announcing && phase->next > phase->fired@.len() ==> phase@->Announcing_0.len()
            == 0,
{
}

/// A sample is taken exactly when the idle time comes in while it is awaited; it
/// is then one tick of the registry. No other event touches the registry.
pub proof fn law_only_samples_touch_the_registry(
    state: StateModel,
    phase: PhaseModel,
    event: PollEvent,
)
    ensures
        (phase is Querying && event is IdleTime) ==> sampled(phase, event) == Some(
            event->IdleTime_0,
        ) && state_after_step(state, phase, event) == state.after_tick(event->IdleTime_0),
        !(phase is Querying && event is IdleTime) ==> sampled(phase, event) is None
            && state_after_step(state, phase, event) == state,
{
}

/// How the loop goes on: two ticks from the start to the first query and one
/// tick from each wait to the next; a sample is followed by the announcement of
/// the first watch that fires, or by a wait if none does; a failed query ends the
/// loop.
pub proof fn law_loop_goes_from_tick_to_query_to_announcement(
    idle_ms: u64,
    fired: Seq<u32>,
    any: Seq<u32>,
)
    ensures
        poll_next(PhaseModel::Priming, PollEvent::Ticked, any) == (
            PhaseModel::Waiting,
            PollAction::AwaitTick,
        ),
        poll_next(PhaseModel::Waiting, PollEvent::Ticked, any) == (
            PhaseModel::Querying,
            PollAction::QueryIdleTime,
        ),
        fired.len() == 0 ==> poll_next(
            PhaseModel::Querying,
            PollEvent::IdleTime(idle_ms),
            fired,
        ) == (PhaseModel::Waiting, PollAction::AwaitTick),
        fired.len() > 0 ==> poll_next(PhaseModel::Querying, PollEvent::IdleTime(idle_ms), fired)
            == (PhaseModel::Announcing(fired), PollAction::Announce(fired[0])),
        poll_next(PhaseModel::Querying, PollEvent::QueryFailed, any) == (
            PhaseModel::Stopped,
            PollAction::Stop,
        ),
{
}

/// An announcement that is done with, delivered or not, is followed by that of
/// the next watch, and the last one by a wait.
pub proof fn law_announcements_follow_one_another(
    rest: Seq<u32>,
    event: PollEvent,
    any: Seq<u32>,
)
    requires
        rest.len() > 0,
        event is Announced,
    ensures
        rest.len() == 1 ==> poll_next(
            PhaseModel::Announcing(rest),
            event,
            any,
        ) == (PhaseModel::Waiting, PollAction::AwaitTick),
        rest.len() > 1 ==> poll_next(
            PhaseModel::Announcing(rest),
            event,
            any,
        ) == (
            PhaseModel::Announcing(rest.subrange(1, rest.len() as int)),
            PollAction::Announce(rest[1]),
        ),
        announcing(rest) == (PhaseModel::Announcing(rest), PollAction::Announce(rest[0])),
        announcing(Seq::empty()) == (PhaseModel::Waiting, PollAction::AwaitTick),
{
}

/// An event out of turn leaves the loop where it is, waiting for the same thing.
/// With nothing left to announce the loop waits for a tick.
pub proof fn law_events_out_of_turn_change_nothing(
    phase: PhaseModel,
    event: PollEvent,
    any: Seq<u32>,
)
    requires
        phase is Priming || phase is Waiting ==> !(event is Ticked),
        phase is Querying ==> !(event is IdleTime) && !(event is QueryFailed),
        phase is Announcing ==> !(event is Announced) && phase->Announcing_0.len() > 0,
    ensures
        poll_next(PhaseModel::Announcing(Seq::empty()), event, any) == (
            PhaseModel::Waiting,
            PollAction::AwaitTick,
        ),
        poll_next(phase, event, any).0 == phase,
        phase is Priming || phase is Waiting ==> poll_next(phase, event, any).1
            == PollAction::AwaitTick,
        phase is Querying ==> poll_next(phase, event, any).1 == PollAction::QueryIdleTime,
        phase is Announcing ==> poll_next(phase, event, any).1 == PollAction::Announce(
            phase->Announcing_0[0],
        ),
        phase is Stopped ==> poll_next(phase, event, any).1 == PollAction::Stop,
{
}

} // verus!
