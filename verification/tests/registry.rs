use idlemon::{IdleWatch, OwnerName, State};
use zbus::names::UniqueName;

fn unique(name: &str) -> OwnerName {
    let name = UniqueName::try_from(name.to_string()).expect("valid unique name");
    OwnerName::from_unique_name(&name)
}

fn idle_watch(interval_ms: u64) -> IdleWatch {
    IdleWatch {
        interval_ms,
        fired_this_cycle: false,
    }
}

#[test]
fn allocate_watch_id_skips_zero_after_wrap() {
    let mut state = State::new();
    state.next_watch_id = u32::MAX;
    let first = state.allocate_watch_id();
    assert_eq!(first, u32::MAX);
    let second = state.allocate_watch_id();
    assert_eq!(second, 1);
}

#[test]
fn allocate_watch_id_skips_existing_ids() {
    let mut state = State::new();
    state.idle_watches.insert(1, idle_watch(5_000));
    state.active_watches.insert(2);
    let id = state.allocate_watch_id();
    assert_eq!(id, 3);
}

#[test]
fn idle_watch_refires_across_cycles() {
    let mut state = State::new();
    state.idle_watches.insert(1, idle_watch(5_000));
    state.watch_owners.insert(1, unique(":1.5"));

    assert!(state.evaluate_tick(3_000).is_empty());
    assert!(state.idle_watches.contains_key(&1));

    let fired = state.evaluate_tick(6_000);
    assert_eq!(fired, vec![1]);
    assert!(state.idle_watches.contains_key(&1));
    assert!(state.watch_owners.contains_key(&1));

    assert!(state.evaluate_tick(7_000).is_empty());

    assert!(state.evaluate_tick(100).is_empty());
    assert!(state.idle_watches.contains_key(&1));

    let fired = state.evaluate_tick(5_500);
    assert_eq!(fired, vec![1]);
    assert!(state.idle_watches.contains_key(&1));
    assert!(state.watch_owners.contains_key(&1));
}

#[test]
fn active_watch_fires_without_idle_watch_registered() {
    let mut state = State::new();
    state.active_watches.insert(1);
    state.watch_owners.insert(1, unique(":1.5"));

    assert!(state.evaluate_tick(1_500).is_empty());
    assert!(state.was_idle);
    assert!(state.evaluate_tick(2_500).is_empty());

    let fired = state.evaluate_tick(200);
    assert_eq!(fired, vec![1]);
    assert!(!state.was_idle);
    assert!(state.active_watches.is_empty());
    assert!(!state.watch_owners.contains_key(&1));
}

#[test]
fn active_watch_does_not_fire_on_subsecond_jitter() {
    let mut state = State::new();
    state.active_watches.insert(1);
    state.watch_owners.insert(1, unique(":1.5"));

    for current_idle_ms in [500u64, 800, 200, 700, 300] {
        assert!(state.evaluate_tick(current_idle_ms).is_empty());
        assert!(!state.was_idle);
    }
    assert!(state.active_watches.contains(&1));
    assert!(state.watch_owners.contains_key(&1));
}

#[test]
fn idle_watch_with_subthreshold_interval_rearms_on_input() {
    let mut state = State::new();
    state.idle_watches.insert(1, idle_watch(200));
    state.watch_owners.insert(1, unique(":1.5"));

    let fired = state.evaluate_tick(300);
    assert_eq!(fired, vec![1]);
    assert!(state.idle_watches.contains_key(&1));

    assert!(state.evaluate_tick(50).is_empty());

    let fired = state.evaluate_tick(300);
    assert_eq!(fired, vec![1]);
}

#[test]
fn multiple_idle_watches_fire_in_same_cycle() {
    let mut state = State::new();
    state.idle_watches.insert(1, idle_watch(1_000));
    state.idle_watches.insert(2, idle_watch(5_000));
    state.idle_watches.insert(3, idle_watch(10_000));
    state.watch_owners.insert(1, unique(":1.5"));
    state.watch_owners.insert(2, unique(":1.5"));
    state.watch_owners.insert(3, unique(":1.5"));

    let fired = state.evaluate_tick(1_100);
    assert_eq!(fired, vec![1]);

    let fired = state.evaluate_tick(5_100);
    assert_eq!(fired, vec![2]);

    let fired = state.evaluate_tick(10_100);
    assert_eq!(fired, vec![3]);

    assert!(state.evaluate_tick(50).is_empty());

    let fired = state.evaluate_tick(1_100);
    assert_eq!(fired, vec![1]);
}

#[test]
fn active_watch_fires_after_idle_then_resume() {
    let mut state = State::new();
    state.idle_watches.insert(1, idle_watch(5_000));
    state.active_watches.insert(2);
    state.watch_owners.insert(1, unique(":1.5"));
    state.watch_owners.insert(2, unique(":1.6"));

    let fired = state.evaluate_tick(6_000);
    assert_eq!(fired, vec![1]);
    assert!(state.was_idle);
    assert!(state.idle_watches.contains_key(&1));

    let fired = state.evaluate_tick(100);
    assert_eq!(fired, vec![2]);
    assert!(!state.was_idle);
    assert!(state.active_watches.is_empty());
    assert!(!state.watch_owners.contains_key(&2));
    assert!(state.idle_watches.contains_key(&1));
    assert!(state.watch_owners.contains_key(&1));
}

#[test]
fn idle_watch_registered_while_already_idle_fires_next_tick() {
    let mut state = State::new();
    state.was_idle = true;
    state.last_idle_ms = 8_000;
    state.idle_watches.insert(1, idle_watch(5_000));
    state.watch_owners.insert(1, unique(":1.5"));

    let fired = state.evaluate_tick(9_000);
    assert_eq!(fired, vec![1]);
    assert!(state.idle_watches.contains_key(&1));
}

#[test]
fn watch_owners_persist_after_idle_watch_fires() {
    let mut state = State::new();
    let owner = unique(":1.5");
    state.idle_watches.insert(1, idle_watch(5_000));
    state.watch_owners.insert(1, owner.clone());

    let fired = state.evaluate_tick(6_000);
    assert_eq!(fired, vec![1]);
    assert!(state.watch_owners.contains_key(&1));

    let removed = state.remove_owner(&owner);
    assert_eq!(removed, vec![1]);
    assert!(!state.idle_watches.contains_key(&1));
    assert!(!state.watch_owners.contains_key(&1));
}

#[test]
fn remove_owner_drops_only_matching_watches() {
    let mut state = State::new();
    let alice = unique(":1.5");
    let bob = unique(":1.6");
    state.idle_watches.insert(1, idle_watch(5_000));
    state.idle_watches.insert(2, idle_watch(10_000));
    state.active_watches.insert(3);
    state.watch_owners.insert(1, alice.clone());
    state.watch_owners.insert(2, bob.clone());
    state.watch_owners.insert(3, alice.clone());

    let mut removed = state.remove_owner(&alice);
    removed.sort();
    assert_eq!(removed, vec![1, 3]);
    assert!(!state.idle_watches.contains_key(&1));
    assert!(state.idle_watches.contains_key(&2));
    assert!(!state.active_watches.contains(&3));
    assert!(!state.watch_owners.contains_key(&1));
    assert!(state.watch_owners.contains_key(&2));
    assert!(!state.watch_owners.contains_key(&3));
}

#[test]
fn registered_watches_get_consecutive_ids_and_their_owner() {
    let mut state = State::new();
    assert_eq!(state.add_idle_watch(unique(":1.5"), 5_000), 1);
    assert_eq!(state.add_user_active_watch(unique(":1.6")), 2);
    assert_eq!(state.idle_watches.get(&1), Some(&idle_watch(5_000)));
    assert!(state.active_watches.contains(&2));
    assert_eq!(state.watch_owners[&1].name, ":1.5");
    assert_eq!(state.watch_owners[&2].name, ":1.6");
    assert_eq!(state.next_watch_id, 3);
}

#[test]
fn allocation_skips_ids_that_only_have_an_owner() {
    let mut state = State::new();
    state.watch_owners.insert(1, unique(":1.5"));
    assert_eq!(state.allocate_watch_id(), 2);
    assert_eq!(state.next_watch_id, 3);
}

#[test]
fn allocation_skips_used_ids_across_the_wrap() {
    let mut state = State::new();
    state.next_watch_id = u32::MAX;
    state.active_watches.insert(u32::MAX);
    state.idle_watches.insert(1, idle_watch(1));
    assert_eq!(state.allocate_watch_id(), 2);
}

#[test]
fn removed_ids_are_not_reused_at_once() {
    let mut state = State::new();
    let first = state.add_idle_watch(unique(":1.5"), 5_000);
    state.remove_watch(first);
    assert!(state.idle_watches.is_empty());
    assert!(state.watch_owners.is_empty());
    assert_eq!(state.add_idle_watch(unique(":1.5"), 5_000), 2);
}

#[test]
fn a_free_id_is_found_in_a_small_registry() {
    let mut state = State::new();
    assert!(state.has_free_watch_id());
    state.add_user_active_watch(unique(":1.5"));
    assert!(state.has_free_watch_id());
}

#[test]
fn removing_a_watch_touches_no_other() {
    let mut state = State::new();
    let idle = state.add_idle_watch(unique(":1.5"), 500);
    let active = state.add_user_active_watch(unique(":1.5"));
    state.remove_watch(active);
    state.remove_watch(active);
    state.remove_watch(77);
    assert!(state.active_watches.is_empty());
    assert!(!state.watch_owners.contains_key(&active));
    assert_eq!(state.idle_watches.get(&idle), Some(&idle_watch(500)));
    assert_eq!(state.watch_owners[&idle].name, ":1.5");
    assert_eq!(state.evaluate_tick(1_500), vec![idle]);
    assert!(state.evaluate_tick(100).is_empty());
}

#[test]
fn idle_watch_fires_exactly_at_its_interval() {
    let mut state = State::new();
    let id = state.add_idle_watch(unique(":1.5"), 5_000);
    assert!(state.evaluate_tick(4_999).is_empty());
    assert_eq!(state.evaluate_tick(5_000), vec![id]);
    assert!(state.evaluate_tick(5_000).is_empty());
    assert!(state.idle_watches[&id].fired_this_cycle);
    assert_eq!(state.last_idle_ms, 5_000);
}

#[test]
fn idle_watch_fires_again_when_the_drop_still_exceeds_its_interval() {
    let mut state = State::new();
    let id = state.add_idle_watch(unique(":1.5"), 200);
    assert_eq!(state.evaluate_tick(9_000), vec![id]);
    assert_eq!(state.evaluate_tick(300), vec![id]);
}

#[test]
fn the_user_is_idle_from_the_threshold_on() {
    let mut state = State::new();
    state.evaluate_tick(999);
    assert!(!state.was_idle);
    state.evaluate_tick(1_000);
    assert!(state.was_idle);
}

#[test]
fn active_watches_are_reported_before_idle_watches() {
    let mut state = State::new();
    let idle = state.add_idle_watch(unique(":1.5"), 100);
    let active = state.add_user_active_watch(unique(":1.6"));
    assert_eq!(state.evaluate_tick(2_000), vec![idle]);
    assert_eq!(state.evaluate_tick(150), vec![active, idle]);
    assert_eq!(state.evaluate_tick(160), Vec::<u32>::new());
}

#[test]
fn active_watch_fires_only_once() {
    let mut state = State::new();
    let id = state.add_user_active_watch(unique(":1.5"));
    assert!(state.evaluate_tick(3_000).is_empty());
    assert_eq!(state.evaluate_tick(10), vec![id]);
    assert!(state.evaluate_tick(3_000).is_empty());
    assert!(state.evaluate_tick(10).is_empty());
}

#[test]
fn watches_of_a_vanished_owner_fire_no_more() {
    let mut state = State::new();
    let gone = state.add_idle_watch(unique(":1.5"), 100);
    let kept = state.add_idle_watch(unique(":1.50"), 100);
    assert_eq!(state.remove_owner(&unique(":1.5")), vec![gone]);
    assert_eq!(state.remove_owner(&unique(":1.5")), Vec::<u32>::new());
    assert_eq!(state.evaluate_tick(2_000), vec![kept]);
}
