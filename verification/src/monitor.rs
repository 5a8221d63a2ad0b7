//! The requests of the `org.gnome.Mutter.IdleMonitor` interface.
use vstd::prelude::*;

use crate::bus::{header_sender_text, sender_from_header, OwnerName};
use crate::error::MonitorError;
use crate::model::StateModel;
use crate::state::State;

verus! {

/// The bus name under which the monitor is found.
pub const WELL_KNOWN_NAME: &'static str = "org.gnome.Mutter.IdleMonitor";

/// The path of the object that answers the requests.
pub const OBJECT_PATH: &'static str = "/org/gnome/Mutter/IdleMonitor/Core";

/// How a request for a new watch is answered. `sender` is the connection that
/// asks, and `registered` tells the registry after the watch has been added
/// under a given id. A request without a sender, or for which no id is left,
/// changes nothing.
pub open spec fn registration_answered(
    before: StateModel,
    sender: Option<Seq<char>>,
    registered: spec_fn(u32, Seq<char>) -> StateModel,
    reply: Result<u32, MonitorError>,
    after: StateModel,
) -> bool {
    match sender {
        None => reply is Err && reply->Err_0 is NoSender && after == before,
        Some(owner) => if before.has_free_watch_id() {
            &&& reply is Ok
            &&& before.allocates(reply->Ok_0)
            &&& after == registered(reply->Ok_0, owner)
        } else {
            reply is Err && reply->Err_0 is NoFreeWatchId && after == before
        },
    }
}

/// The connection behind a request whose sender has been looked up.
pub open spec fn checked_sender(sender: Result<OwnerName, MonitorError>) -> Option<Seq<char>> {
    match sender {
        Ok(owner) => Some(owner@),
        Err(_) => None,
    }
}

/// The idle monitor of one X screen.
pub struct IdleMonitor {
    /// The root window of the screen whose idle time is watched.
    pub root_window: u32,
    /// The registered watches.
    pub state: State,
}

impl IdleMonitor {
    /// A monitor without watches.
    pub fn new(root_window: u32) -> (monitor: IdleMonitor)
        ensures
            monitor.root_window == root_window,
            monitor.state@ == StateModel::empty(),
            monitor.state@.well_formed(),
    {
        IdleMonitor { root_window, state: State::new() }
    }

    /// Answers `GetIdletime` with the X server's reply to the idle-time query:
    /// the milliseconds since the latest input, or what went wrong.
    pub fn get_idletime(ms_since_user_input: Result<u32, String>) -> (reply: Result<
        u64,
        MonitorError,
    >)
        ensures
            match ms_since_user_input {
                Ok(ms) => reply == Ok::<u64, MonitorError>(ms as u64),
                Err(cause) => reply == Err::<u64, MonitorError>(MonitorError::IdleTimeQuery(cause)),
            },
    {
        match ms_since_user_input {
            Ok(ms) => Ok(idle_time_from_reply(ms)),
            Err(cause) => Err(MonitorError::IdleTimeQuery(cause)),
        }
    }

    /// Answers `AddIdleWatch`: registers an idle watch for the sender.
    pub fn add_idle_watch(
        &mut self,
        header: &zbus::message::Header<'_>,
        interval_ms: u64,
    ) -> (reply: Result<u32, MonitorError>)
        ensures
            registration_answered(
                old(self).state@,
                header_sender_text(*header),
                |id: u32, owner: Seq<char>|
                    old(self).state@.with_idle_watch(id, interval_ms, owner),
                reply,
                final(self).state@,
            ),
            old(self).state@.well_formed() ==> final(self).state@.well_formed(),
            final(self).root_window == old(self).root_window,
    {
        answer_add_idle_watch(&mut self.state, sender_from_header(header), interval_ms)
    }

    /// Answers `AddUserActiveWatch`: registers a user-active watch for the sender.
    pub fn add_user_active_watch(&mut self, header: &zbus::message::Header<'_>) -> (reply: Result<
        u32,
        MonitorError,
    >)
        ensures
            registration_answered(
                old(self).state@,
                header_sender_text(*header),
                |id: u32, owner: Seq<char>| old(self).state@.with_active_watch(id, owner),
                reply,
                final(self).state@,
            ),
            old(self).state@.well_formed() ==> final(self).state@.well_formed(),
            final(self).root_window == old(self).root_window,
    {
        answer_add_user_active_watch(&mut self.state, sender_from_header(header))
    }

    /// Answers `RemoveWatch`. Removing an unknown watch succeeds as well.
    pub fn remove_watch(&mut self, watch_id: u32)
        ensures
            final(self).state@ == old(self).state@.without_watch(watch_id),
            old(self).state@.well_formed() ==> final(self).state@.well_formed(),
            final(self).root_window == old(self).root_window,
    {
        self.state.remove_watch(watch_id);
    }
}

/// The idle time, in milliseconds, that the X server's reply gives.
pub fn idle_time_from_reply(ms_since_user_input: u32) -> (idle_ms: u64)
    ensures
        idle_ms == ms_since_user_input,
{
    ms_since_user_input as u64
}

/// Registers an idle watch for the sender of a request, or refuses it.
pub fn answer_add_idle_watch(
    state: &mut State,
    sender: Result<OwnerName, MonitorError>,
    interval_ms: u64,
) -> (reply: Result<u32, MonitorError>)
    ensures
        sender matches Err(error) ==> reply == Err::<u32, MonitorError>(error) && final(state)@
            == old(state)@,
        sender is Ok ==> registration_answered(
            old(state)@,
            checked_sender(sender),
            |id: u32, owner: Seq<char>| old(state)@.with_idle_watch(id, interval_ms, owner),
            reply,
            final(state)@,
        ),
        old(state)@.well_formed() ==> final(state)@.well_formed(),
{
    match sender {
        Ok(owner) => if state.has_free_watch_id() {
            Ok(state.add_idle_watch(owner, interval_ms))
        } else {
            Err(MonitorError::NoFreeWatchId)
        },
        Err(error) => Err(error),
    }
}

/// Registers a user-active watch for the sender of a request, or refuses it.
pub fn answer_add_user_active_watch(
    state: &mut State,
    sender: Result<OwnerName, MonitorError>,
) -> (reply: Result<u32, MonitorError>)
    ensures
        sender matches Err(error) ==> reply == Err::<u32, MonitorError>(error) && final(state)@
            == old(state)@,
        sender is Ok ==> registration_answered(
            old(state)@,
            checked_sender(sender),
            |id: u32, owner: Seq<char>| old(state)@.with_active_watch(id, owner),
            reply,
            final(state)@,
        ),
        old(state)@.well_formed() ==> final(state)@.well_formed(),
{
    match sender {
        Ok(owner) => if state.has_free_watch_id() {
            Ok(state.add_user_active_watch(owner))
        } else {
            Err(MonitorError::NoFreeWatchId)
        },
        Err(error) => Err(error),
    }
}

} // verus!
