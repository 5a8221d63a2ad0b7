//! Removing the watches of connections that have left the bus, one signal at a
//! time.
use vstd::prelude::*;

use crate::bus::{
    is_unique_name, owner_change, signal_owner_texts, unique_name, OwnerChange, OwnerName,
};
use crate::model::{lists, StateModel};
use crate::state::State;

verus! {

/// Why the cleanup loop ends. Without the signals the watches of disconnected
/// clients can no longer be found, so the end of the stream is fatal.
pub const STREAM_ENDED: &'static str =
    "NameOwnerChanged stream ended; owner cleanup is no longer possible";

/// What came of waiting for a `NameOwnerChanged` signal.
pub enum CleanupOutcome {
    /// No connection has left the bus.
    Ignored,
    /// A connection has left the bus, and its watches are removed.
    Removed { owner: OwnerName, watches: Vec<u32> },
    /// The signal could not be decoded.
    Undecodable(zbus::Error),
    /// There are no more signals.
    StreamEnded,
}

/// The connection that has left the bus, if that is what a change of the owner
/// of `name` from `old_owner` to `new_owner` tells.
///
/// A unique name that is left without owner means that its old owner has left.
/// Changes of well-known names are of no interest, because watches are kept by
/// unique name: a client that gives up a well-known name, or hands it to
/// another, stays connected and keeps its watches.
pub open spec fn vanished(
    name: Seq<char>,
    old_owner: Option<Seq<char>>,
    new_owner: Option<Seq<char>>,
) -> Option<Seq<char>> {
    if new_owner is None && unique_name(name) {
        old_owner
    } else {
        None
    }
}

/// The registry after a connection may have left the bus.
pub open spec fn after_leaving(before: StateModel, gone: Option<Seq<char>>) -> StateModel {
    match gone {
        Some(owner) => before.without_owner(owner),
        None => before,
    }
}

/// Whether the outcome names the connection that has left the bus and lists the
/// watches that it had, or says that none has left.
pub open spec fn tells_of_leaving(
    before: StateModel,
    gone: Option<Seq<char>>,
    outcome: CleanupOutcome,
) -> bool {
    match gone {
        Some(name) => {
            &&& outcome matches CleanupOutcome::Removed { owner, watches }
            &&& owner@ == name
            &&& lists(watches@, before.owned_by(name))
        },
        None => outcome is Ignored,
    }
}

/// Removes the watches of the connection that has left the bus, if one has.
pub fn apply_owner_change(state: &mut State, change: OwnerChange) -> (outcome: CleanupOutcome)
    ensures
        final(state)@ == after_leaving(old(state)@, vanished(change@.0, change@.1, change@.2)),
        tells_of_leaving(old(state)@, vanished(change@.0, change@.1, change@.2), outcome),
        old(state)@.well_formed() ==> final(state)@.well_formed(),
{
    if change.new_owner.is_some() || !is_unique_name(&change.name) {
        return CleanupOutcome::Ignored;
    }
    match change.old_owner {
        Some(owner) => {
            let watches = state.remove_owner(&owner);
            CleanupOutcome::Removed { owner, watches }
        },
        None => CleanupOutcome::Ignored,
    }
}

/// Takes in the next signal of the stream, or its end.
pub fn cleanup_step(state: &mut State, signal: Option<&zbus::fdo::NameOwnerChanged>) -> (outcome:
    CleanupOutcome)
    ensures
        match signal {
            None => outcome is StreamEnded && final(state)@ == old(state)@,
            Some(signal) => match signal_owner_texts(*signal) {
                None => outcome is Undecodable && final(state)@ == old(state)@,
                Some((name, old_owner, new_owner)) => {
                    &&& final(state)@ == after_leaving(old(state)@, vanished(name, old_owner, new_owner))
                    &&& tells_of_leaving(old(state)@, vanished(name, old_owner, new_owner), outcome)
                },
            },
        },
        old(state)@.well_formed() ==> final(state)@.well_formed(),
{
    match signal {
        None => CleanupOutcome::StreamEnded,
        Some(signal) => match owner_change(signal) {
            Ok(change) => apply_owner_change(state, change),
            Err(error) => CleanupOutcome::Undecodable(error),
        },
    }
}

} // verus!
