use idlemon::bus::{require_sender, sender_from_header};
use idlemon::monitor::{answer_add_idle_watch, answer_add_user_active_watch, idle_time_from_reply};
use idlemon::{IdleMonitor, MonitorError, OwnerName, State, OBJECT_PATH, WELL_KNOWN_NAME};
use zbus::message::Message;

fn request(sender: Option<&'static str>) -> Message {
    let builder = Message::method_call(OBJECT_PATH, "AddIdleWatch").expect("valid call");
    let builder = match sender {
        Some(name) => builder.sender(name).expect("valid sender"),
        None => builder,
    };
    builder.build(&()).expect("buildable message")
}

fn owner(name: &str) -> OwnerName {
    OwnerName {
        name: name.to_string(),
    }
}

#[test]
fn sender_is_read_from_the_header() {
    let message = request(Some(":1.42"));
    let sender = sender_from_header(&message.header()).expect("a sender");
    assert_eq!(sender.name, ":1.42");
}

#[test]
fn header_without_sender_is_refused() {
    let message = request(None);
    let error = sender_from_header(&message.header()).expect_err("no sender");
    assert_eq!(error, MonitorError::NoSender);
    assert_eq!(error.message(), "D-Bus message has no sender");
}

#[test]
fn a_sender_is_required() {
    assert_eq!(require_sender(None).expect_err("none"), MonitorError::NoSender);
    assert_eq!(require_sender(Some(owner(":1.7"))).expect("some").name, ":1.7");
}

#[test]
fn new_monitor_has_no_watches() {
    let monitor = IdleMonitor::new(0x1e7);
    assert_eq!(monitor.root_window, 0x1e7);
    assert!(monitor.state.idle_watches.is_empty());
    assert!(monitor.state.active_watches.is_empty());
    assert!(monitor.state.watch_owners.is_empty());
    assert_eq!(monitor.state.next_watch_id, 1);
    assert_eq!(monitor.state.last_idle_ms, 0);
    assert!(!monitor.state.was_idle);
}

#[test]
fn watches_are_registered_for_the_sender() {
    let mut monitor = IdleMonitor::new(7);
    let first = request(Some(":1.5"));
    let second = request(Some(":1.6"));
    assert_eq!(monitor.add_idle_watch(&first.header(), 60_000), Ok(1));
    assert_eq!(monitor.add_user_active_watch(&second.header()), Ok(2));
    assert_eq!(monitor.state.idle_watches[&1].interval_ms, 60_000);
    assert!(!monitor.state.idle_watches[&1].fired_this_cycle);
    assert!(monitor.state.active_watches.contains(&2));
    assert_eq!(monitor.state.watch_owners[&1].name, ":1.5");
    assert_eq!(monitor.state.watch_owners[&2].name, ":1.6");
    assert_eq!(monitor.root_window, 7);
}

#[test]
fn refused_registrations_change_nothing() {
    let mut monitor = IdleMonitor::new(7);
    let anonymous = request(None);
    assert_eq!(
        monitor.add_idle_watch(&anonymous.header(), 5_000),
        Err(MonitorError::NoSender)
    );
    assert_eq!(
        monitor.add_user_active_watch(&anonymous.header()),
        Err(MonitorError::NoSender)
    );
    assert!(monitor.state.idle_watches.is_empty());
    assert!(monitor.state.active_watches.is_empty());
    assert!(monitor.state.watch_owners.is_empty());
    assert_eq!(monitor.state.next_watch_id, 1);
}

#[test]
fn answers_follow_the_looked_up_sender() {
    let mut state = State::new();
    assert_eq!(
        answer_add_idle_watch(&mut state, Err(MonitorError::NoSender), 5),
        Err(MonitorError::NoSender)
    );
    assert_eq!(answer_add_idle_watch(&mut state, Ok(owner(":1.5")), 5), Ok(1));
    assert_eq!(
        answer_add_user_active_watch(&mut state, Err(MonitorError::NoSender)),
        Err(MonitorError::NoSender)
    );
    assert_eq!(answer_add_user_active_watch(&mut state, Ok(owner(":1.5"))), Ok(2));
    assert_eq!(state.watch_owners.len(), 2);
}

#[test]
fn remove_watch_is_answered_for_unknown_ids_too() {
    let mut monitor = IdleMonitor::new(7);
    let message = request(Some(":1.5"));
    assert_eq!(monitor.add_idle_watch(&message.header(), 5_000), Ok(1));
    monitor.remove_watch(9);
    assert!(monitor.state.idle_watches.contains_key(&1));
    monitor.remove_watch(1);
    assert!(monitor.state.idle_watches.is_empty());
    assert!(monitor.state.watch_owners.is_empty());
}

#[test]
fn idle_time_is_the_servers_reply() {
    assert_eq!(IdleMonitor::get_idletime(Ok(u32::MAX)), Ok(4_294_967_295));
    assert_eq!(idle_time_from_reply(1_234), 1_234);
}

#[test]
fn failed_idle_time_query_is_reported() {
    let error = IdleMonitor::get_idletime(Err("connection closed".to_string()))
        .expect_err("query failed");
    assert_eq!(error, MonitorError::IdleTimeQuery("connection closed".to_string()));
    assert_eq!(error.message(), "X11 idle-time query failed: connection closed");
}

#[test]
fn exhausted_ids_have_a_message() {
    assert_eq!(MonitorError::NoFreeWatchId.message(), "every watch id is in use");
}

#[test]
fn names_on_the_bus() {
    assert_eq!(WELL_KNOWN_NAME, "org.gnome.Mutter.IdleMonitor");
    assert_eq!(OBJECT_PATH, "/org/gnome/Mutter/IdleMonitor/Core");
}
