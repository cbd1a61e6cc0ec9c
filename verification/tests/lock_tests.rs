use torbridge::lock::{acquire, parse_pid, release, LockSlot};

#[test]
fn acquire_fails_on_live_holder() {
    let mut slot = LockSlot { content: Some(String::from("12345")) };
    let alive = vec![1u32, 12345, 99];
    let r = acquire(&mut slot, &alive, 777);
    assert!(r.is_none());
    assert_eq!(slot.content, Some(String::from("12345")));
}

#[test]
fn acquire_replaces_dead_holder() {
    let mut slot = LockSlot { content: Some(String::from("12345")) };
    let alive = vec![1u32, 99];
    let r = acquire(&mut slot, &alive, 777);
    assert!(r.is_some());
    assert_eq!(r.unwrap().pid, 777);
    assert_eq!(slot.content, Some(String::from("777")));
}

#[test]
fn acquire_treats_unparseable_content_as_stale() {
    let mut slot = LockSlot { content: Some(String::from("---{!}---")) };
    let alive = vec![1u32, 12345];
    let r = acquire(&mut slot, &alive, 777);
    assert!(r.is_some());
    assert_eq!(slot.content, Some(String::from("777")));
}

#[test]
fn acquire_succeeds_on_empty_slot_and_blocks_second() {
    let mut slot = LockSlot { content: None };
    let alive = vec![777u32, 888];
    let first = acquire(&mut slot, &alive, 777);
    assert!(first.is_some());
    let second = acquire(&mut slot, &alive, 888);
    assert!(second.is_none());
}

#[test]
fn release_then_acquire_succeeds() {
    let mut slot = LockSlot { content: None };
    let alive = vec![777u32, 888];
    let guard = acquire(&mut slot, &alive, 777).unwrap();
    release(&mut slot, guard);
    assert_eq!(slot.content, None);
    let again = acquire(&mut slot, &alive, 888);
    assert!(again.is_some());
    assert_eq!(slot.content, Some(String::from("888")));
}

#[test]
fn pid_parsing_matches_lock_content() {
    assert_eq!(parse_pid("12345"), Some(12345));
    assert_eq!(parse_pid(" 42 "), Some(42));
    assert_eq!(parse_pid("---{!}---"), None);
    assert_eq!(parse_pid(""), None);
}
