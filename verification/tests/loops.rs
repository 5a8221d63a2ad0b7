use idlemon::bus::{is_unique_name, owner_change, OwnerChange};
use idlemon::cleanup::{apply_owner_change, cleanup_step, CleanupOutcome, STREAM_ENDED};
use idlemon::model::{INTERNAL_IDLE_THRESHOLD_MS, POLL_INTERVAL_MS};
use idlemon::poll::{announce_from, poll_step, PollAction, PollEvent, PollPhase};
use idlemon::{OwnerName, State};
use zbus::fdo::NameOwnerChanged;
use zbus::message::Message;
use zbus::names::BusName;

fn owner(name: &str) -> OwnerName {
    OwnerName {
        name: name.to_string(),
    }
}

fn owner_signal(name: &str, old_owner: &str, new_owner: &str) -> NameOwnerChanged {
    let message = Message::signal("/org/freedesktop/DBus", "org.freedesktop.DBus", "NameOwnerChanged")
        .expect("valid signal")
        .build(&(name, old_owner, new_owner))
        .expect("buildable message");
    NameOwnerChanged::from_message(message).expect("a NameOwnerChanged signal")
}

fn garbled_signal() -> NameOwnerChanged {
    let message = Message::signal("/org/freedesktop/DBus", "org.freedesktop.DBus", "NameOwnerChanged")
        .expect("valid signal")
        .build(&(7u32,))
        .expect("buildable message");
    NameOwnerChanged::from_message(message).expect("a NameOwnerChanged signal")
}

#[test]
fn threshold_is_the_poll_interval() {
    assert_eq!(POLL_INTERVAL_MS, 1_000);
    assert_eq!(INTERNAL_IDLE_THRESHOLD_MS, 1_000);
}

#[test]
fn first_tick_is_dropped() {
    let mut state = State::new();
    let (phase, action) = poll_step(&mut state, PollPhase::Priming, PollEvent::Ticked);
    assert_eq!(action, PollAction::AwaitTick);
    let (phase, action) = poll_step(&mut state, phase, PollEvent::Ticked);
    assert_eq!(action, PollAction::QueryIdleTime);
    assert!(matches!(phase, PollPhase::Querying));
    assert_eq!(state.last_idle_ms, 0);
}

#[test]
fn fired_watches_are_announced_in_turn_despite_failures() {
    let mut state = State::new();
    let idle = state.add_idle_watch(owner(":1.5"), 100);
    let active = state.add_user_active_watch(owner(":1.6"));

    let (phase, action) = poll_step(&mut state, PollPhase::Querying, PollEvent::IdleTime(2_000));
    assert_eq!(action, PollAction::Announce(idle));
    let (phase, action) = poll_step(&mut state, phase, PollEvent::Announced { delivered: false });
    assert_eq!(action, PollAction::AwaitTick);
    let (phase, action) = poll_step(&mut state, phase, PollEvent::Ticked);
    assert_eq!(action, PollAction::QueryIdleTime);

    let (phase, action) = poll_step(&mut state, phase, PollEvent::IdleTime(150));
    assert_eq!(action, PollAction::Announce(active));
    let (phase, action) = poll_step(&mut state, phase, PollEvent::Announced { delivered: false });
    assert_eq!(action, PollAction::Announce(idle));
    let (phase, action) = poll_step(&mut state, phase, PollEvent::Announced { delivered: true });
    assert_eq!(action, PollAction::AwaitTick);
    assert!(matches!(phase, PollPhase::Waiting));
    assert_eq!(state.last_idle_ms, 150);
}

#[test]
fn quiet_sample_waits_for_the_next_tick() {
    let mut state = State::new();
    let (phase, action) = poll_step(&mut state, PollPhase::Querying, PollEvent::IdleTime(4_000));
    assert_eq!(action, PollAction::AwaitTick);
    assert!(matches!(phase, PollPhase::Waiting));
    assert!(state.was_idle);
}

#[test]
fn failed_query_ends_the_loop() {
    let mut state = State::new();
    let (phase, action) = poll_step(&mut state, PollPhase::Querying, PollEvent::QueryFailed);
    assert_eq!(action, PollAction::Stop);
    let (_, action) = poll_step(&mut state, phase, PollEvent::Ticked);
    assert_eq!(action, PollAction::Stop);
}

#[test]
fn events_out_of_turn_change_nothing() {
    let mut state = State::new();
    state.add_idle_watch(owner(":1.5"), 100);
    let (phase, action) = poll_step(&mut state, PollPhase::Waiting, PollEvent::IdleTime(9_000));
    assert_eq!(action, PollAction::AwaitTick);
    assert!(matches!(phase, PollPhase::Waiting));
    let (phase, action) = poll_step(&mut state, PollPhase::Priming, PollEvent::QueryFailed);
    assert_eq!(action, PollAction::AwaitTick);
    assert!(matches!(phase, PollPhase::Priming));
    let (_, action) = poll_step(&mut state, PollPhase::Querying, PollEvent::Ticked);
    assert_eq!(action, PollAction::QueryIdleTime);
    let announcing = PollPhase::Announcing { fired: vec![4, 6], next: 1 };
    let (_, action) = poll_step(&mut state, announcing, PollEvent::Ticked);
    assert_eq!(action, PollAction::Announce(6));
    assert_eq!(state.last_idle_ms, 0);
}

#[test]
fn announcing_starts_at_the_given_watch() {
    assert_eq!(announce_from(vec![4, 6], 0).1, PollAction::Announce(4));
    assert_eq!(announce_from(vec![4, 6], 1).1, PollAction::Announce(6));
    assert_eq!(announce_from(vec![4, 6], 2).1, PollAction::AwaitTick);
}

#[test]
fn signal_tells_the_owners() {
    let change = owner_change(&owner_signal(":1.5", ":1.5", "")).expect("decodable");
    assert_eq!(change.name, ":1.5");
    assert_eq!(change.old_owner.expect("old owner").name, ":1.5");
    assert!(change.new_owner.is_none());
    let change = owner_change(&owner_signal("org.example.App", "", ":1.9")).expect("decodable");
    assert_eq!(change.name, "org.example.App");
    assert!(change.old_owner.is_none());
    assert_eq!(change.new_owner.expect("new owner").name, ":1.9");
    assert!(owner_change(&garbled_signal()).is_err());
}

#[test]
fn vanished_connection_loses_its_watches() {
    let mut state = State::new();
    let gone = state.add_idle_watch(owner(":1.5"), 100);
    let kept = state.add_user_active_watch(owner(":1.6"));
    let signal = owner_signal(":1.5", ":1.5", "");
    match cleanup_step(&mut state, Some(&signal)) {
        CleanupOutcome::Removed { owner, watches } => {
            assert_eq!(owner.name, ":1.5");
            assert_eq!(watches, vec![gone]);
        }
        _ => panic!("the connection has left"),
    }
    assert!(!state.idle_watches.contains_key(&gone));
    assert!(state.active_watches.contains(&kept));
    match cleanup_step(&mut state, Some(&signal)) {
        CleanupOutcome::Removed { watches, .. } => assert!(watches.is_empty()),
        _ => panic!("the connection has left"),
    }
}

#[test]
fn appearing_and_changing_owners_are_ignored() {
    let mut state = State::new();
    state.add_idle_watch(owner(":1.5"), 100);
    let appeared = owner_signal("org.example.App", "", ":1.5");
    let changed = owner_signal("org.example.App", ":1.5", ":1.9");
    assert!(matches!(cleanup_step(&mut state, Some(&appeared)), CleanupOutcome::Ignored));
    assert!(matches!(cleanup_step(&mut state, Some(&changed)), CleanupOutcome::Ignored));
    assert_eq!(state.idle_watches.len(), 1);
}

#[test]
fn client_that_gives_up_a_well_known_name_keeps_its_watches() {
    let mut state = State::new();
    state.active_watches.insert(1);
    state.watch_owners.insert(1, owner(":1.5"));
    let released = owner_signal("com.example.App", ":1.5", "");
    assert!(matches!(cleanup_step(&mut state, Some(&released)), CleanupOutcome::Ignored));
    assert!(matches!(cleanup_step(&mut state, None), CleanupOutcome::StreamEnded));
    assert_eq!(state.active_watches.len(), 1);
    assert!(state.active_watches.contains(&1));
    assert!(state.watch_owners.contains_key(&1));
}

#[test]
fn unique_name_left_without_owner_removes_the_old_owners_watches() {
    for name in [":1.7", "org.freedesktop.DBus"] {
        let mut state = State::new();
        let gone = state.add_idle_watch(owner(":1.5"), 100);
        let kept = state.add_idle_watch(owner(":1.7"), 100);
        match cleanup_step(&mut state, Some(&owner_signal(name, ":1.5", ""))) {
            CleanupOutcome::Removed { owner, watches } => {
                assert_eq!(owner.name, ":1.5");
                assert_eq!(watches, vec![gone]);
            }
            _ => panic!("the old owner has left"),
        }
        assert!(!state.watch_owners.contains_key(&gone));
        assert!(state.idle_watches.contains_key(&kept));
    }
}

#[test]
fn unique_and_well_known_names_are_told_apart_as_on_the_bus() {
    for name in [":1.5", ":org.example", "org.freedesktop.DBus", "org.freedesktop.DBus2", "a.b"] {
        let unique = matches!(BusName::try_from(name), Ok(BusName::Unique(_)));
        assert_eq!(is_unique_name(&name.to_string()), unique);
    }
    assert!(!is_unique_name(&String::new()));
}

#[test]
fn undecodable_signal_is_skipped() {
    let mut state = State::new();
    state.add_idle_watch(owner(":1.5"), 100);
    assert!(matches!(
        cleanup_step(&mut state, Some(&garbled_signal())),
        CleanupOutcome::Undecodable(_)
    ));
    assert_eq!(state.idle_watches.len(), 1);
}

#[test]
fn end_of_the_stream_is_told() {
    let mut state = State::new();
    assert!(matches!(cleanup_step(&mut state, None), CleanupOutcome::StreamEnded));
    assert_eq!(
        STREAM_ENDED,
        "NameOwnerChanged stream ended; owner cleanup is no longer possible"
    );
}

#[test]
fn owner_changes_are_applied_to_plain_values() {
    let mut state = State::new();
    let id = state.add_idle_watch(owner(":1.5"), 100);
    let name = ":1.5".to_string();
    let nobody = OwnerChange { name: name.clone(), old_owner: None, new_owner: None };
    assert!(matches!(apply_owner_change(&mut state, nobody), CleanupOutcome::Ignored));
    let released = OwnerChange {
        name: "com.example.App".to_string(),
        old_owner: Some(owner(":1.5")),
        new_owner: None,
    };
    assert!(matches!(apply_owner_change(&mut state, released), CleanupOutcome::Ignored));
    assert!(state.idle_watches.contains_key(&id));
    let left = OwnerChange { name, old_owner: Some(owner(":1.5")), new_owner: None };
    match apply_owner_change(&mut state, left) {
        CleanupOutcome::Removed { watches, .. } => assert_eq!(watches, vec![id]),
        _ => panic!("the connection has left"),
    }
}
