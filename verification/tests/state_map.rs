use awaitstate::{wait_step, AwaitStateError, AwaitStateMap, WaitAction, WaitEvent};

#[derive(Clone, Debug, PartialEq)]
enum DownloadState {
    NotStarted,
    Started,
    Finished,
}

#[test]
fn test_wait_until() {
    let mut map = AwaitStateMap::new();
    map.put("download_1", DownloadState::NotStarted);
    let finished = |_prev: &DownloadState, curr: &DownloadState| *curr == DownloadState::Finished;

    // The waiter looks before anything was written and goes to sleep.
    assert_eq!(map.wait_until("download_1", &finished), WaitAction::Park);

    // The first write wakes it, but the transition is not the one it wants.
    map.set_state("download_1", DownloadState::Started).unwrap();
    let (prev, curr) = map.lookup("download_1").unwrap().changed().unwrap();
    assert_eq!((&prev, &curr), (&DownloadState::NotStarted, &DownloadState::Started));
    assert_eq!(wait_step(WaitEvent::Changed(prev, curr), &finished), WaitAction::Retry);
    assert_eq!(map.wait_until("download_1", &finished), WaitAction::Park);

    // The second write ends the wait.
    map.set_state("download_1", DownloadState::Finished).unwrap();
    let (prev, curr) = map.lookup("download_1").unwrap().changed().unwrap();
    assert_eq!(
        wait_step(WaitEvent::Changed(prev, curr), &finished),
        WaitAction::Finish(Ok(DownloadState::Finished))
    );

    assert_eq!(
        map.get_state("download_1").unwrap(),
        DownloadState::Finished
    );
}

#[test]
fn put_then_get_state_returns_the_value() {
    let mut map = AwaitStateMap::new();
    map.put("a", 7);
    assert_eq!(map.get_state("a"), Ok(7));
    assert_eq!(map.lookup("a").unwrap().get_diff_cloned(), (None, 7));
}

#[test]
fn previous_is_absent_until_the_first_set_state() {
    let mut map = AwaitStateMap::new();
    map.put("a", 7);
    map.put("b", 1);
    map.set_state("b", 2).unwrap();
    assert_eq!(map.get_state("a"), Ok(7));
    assert_eq!(map.lookup("a").unwrap().get_diff_cloned(), (None, 7));
    map.set_state("a", 8).unwrap();
    assert_eq!(map.lookup("a").unwrap().get_diff_cloned(), (Some(7), 8));
}

#[test]
fn put_over_a_key_starts_a_fresh_cell() {
    let mut map = AwaitStateMap::new();
    map.put("a", 1);
    map.set_state("a", 2).unwrap();
    map.put("a", 3);
    assert_eq!(map.lookup("a").unwrap().get_diff_cloned(), (None, 3));
    assert_eq!(map.lookup("a").unwrap().changed(), None);
    assert_eq!(map.get_state("a"), Ok(3));
}

#[test]
fn two_writes_leave_the_last_transition() {
    let mut map = AwaitStateMap::new();
    map.put("k", 0);
    assert_eq!(map.set_state("k", 10), Ok(()));
    assert_eq!(map.set_state("k", 20), Ok(()));
    assert_eq!(map.get_state("k"), Ok(20));
    assert_eq!(map.lookup("k").unwrap().get_diff_cloned(), (Some(10), 20));
}

#[test]
fn waiter_parked_between_two_writes_ends_with_the_second() {
    let mut map = AwaitStateMap::new();
    map.put("k", 0);
    let from_10_to_20 = |prev: &i32, curr: &i32| *prev == 10 && *curr == 20;

    map.set_state("k", 10).unwrap();
    assert_eq!(map.wait_until("k", &from_10_to_20), WaitAction::Park);
    map.set_state("k", 20).unwrap();

    let seen = map.lookup("k").unwrap().changed();
    assert_eq!(seen, Some((10, 20)));
    assert_eq!(
        wait_step(WaitEvent::Changed(10, 20), &from_10_to_20),
        WaitAction::Finish(Ok(20))
    );
    assert_eq!(map.get_state("k"), Ok(20));
}

#[test]
fn waiter_is_not_shown_a_write_of_the_same_value() {
    let mut map = AwaitStateMap::new();
    map.put("k", 0);
    let both_one = |prev: &i32, curr: &i32| *prev == 1 && *curr == 1;

    map.set_state("k", 1).unwrap();
    assert_eq!(map.wait_until("k", &both_one), WaitAction::Park);
    map.set_state("k", 1).unwrap();

    // The history has moved on, but the woken waiter sees no transition.
    assert_eq!(map.lookup("k").unwrap().get_diff_cloned(), (Some(1), 1));
    assert_eq!(map.lookup("k").unwrap().changed(), None);
    // Only a fresh first pass finds the pair.
    assert_eq!(map.wait_until("k", &both_one), WaitAction::Finish(Ok(1)));
}

#[test]
fn wait_on_a_satisfied_initial_state_ends_at_once() {
    let mut map = AwaitStateMap::new();
    map.put("x", 5);
    let is_five = |prev: &i32, curr: &i32| *prev == 5 && *curr == 5;
    assert_eq!(map.wait_until("x", &is_five), WaitAction::Finish(Ok(5)));
}

#[test]
fn first_pass_on_a_written_cell_asks_about_the_previous_value() {
    let mut map = AwaitStateMap::new();
    map.put("x", 0);
    map.set_state("x", 1).unwrap();
    let unchanged = |prev: &i32, curr: &i32| *prev == *curr;
    // (1, 1) would satisfy the predicate, but the cell shows (0, 1).
    assert_eq!(map.wait_until("x", &unchanged), WaitAction::Park);
    let grew = |prev: &i32, curr: &i32| *prev < *curr;
    assert_eq!(map.wait_until("x", &grew), WaitAction::Finish(Ok(1)));
}

#[test]
fn removed_key_ends_the_next_pass_with_key_not_found() {
    let mut map = AwaitStateMap::new();
    map.put("x", 0);
    let never = |_prev: &i32, _curr: &i32| false;
    assert_eq!(map.wait_until("x", &never), WaitAction::Park);
    map.remove("x");
    assert_eq!(
        map.wait_until("x", &never),
        WaitAction::Finish(Err(AwaitStateError::KeyNotFound))
    );
    let always = |_prev: &i32, _curr: &i32| true;
    assert_eq!(
        map.wait_until("x", &always),
        WaitAction::Finish(Err(AwaitStateError::KeyNotFound))
    );
}

#[test]
fn scenario_wait_ends_once_the_writer_has_written() {
    let mut map = AwaitStateMap::new();
    map.put("x", 0);
    let is_one = |_prev: &i32, curr: &i32| *curr == 1;

    assert_eq!(map.wait_until("x", &is_one), WaitAction::Park);
    assert_eq!(map.lookup("x").unwrap().changed(), None);

    map.set_state("x", 1).unwrap();
    let (prev, curr) = map.lookup("x").unwrap().changed().unwrap();
    assert_eq!((prev, curr), (0, 1));
    assert_eq!(
        wait_step(WaitEvent::Changed(prev, curr), &is_one),
        WaitAction::Finish(Ok(1))
    );
}

#[test]
fn scenario_missing_key() {
    let mut map: AwaitStateMap<i32> = AwaitStateMap::new();
    assert_eq!(map.get_state("missing"), Err(AwaitStateError::KeyNotFound));
    assert_eq!(map.set_state("missing", 3), Err(AwaitStateError::KeyNotFound));
    assert!(map.lookup("missing").is_none());
    // The failed write has not created the key.
    assert_eq!(map.get_state("missing"), Err(AwaitStateError::KeyNotFound));
}

#[test]
fn remove_of_an_absent_key_changes_nothing() {
    let mut map = AwaitStateMap::new();
    map.put("a", 1);
    map.remove("b");
    assert_eq!(map.get_state("a"), Ok(1));
    assert_eq!(map.get_state("b"), Err(AwaitStateError::KeyNotFound));
}

#[test]
fn remove_keeps_every_other_key() {
    let mut map = AwaitStateMap::new();
    map.put("a", 1);
    map.put("b", 2);
    map.put("c", 3);
    map.put("d", 4);
    map.set_state("d", 40).unwrap();

    // The first key goes: the last cell moves into its place.
    map.remove("a");
    assert_eq!(map.get_state("a"), Err(AwaitStateError::KeyNotFound));
    assert_eq!(map.get_state("b"), Ok(2));
    assert_eq!(map.get_state("c"), Ok(3));
    assert_eq!(map.lookup("d").unwrap().get_diff_cloned(), (Some(4), 40));

    // The key whose cell stands last goes.
    map.remove("c");
    assert_eq!(map.get_state("c"), Err(AwaitStateError::KeyNotFound));
    assert_eq!(map.get_state("b"), Ok(2));
    assert_eq!(map.get_state("d"), Ok(40));

    map.set_state("b", 20).unwrap();
    map.put("a", 100);
    assert_eq!(map.get_state("a"), Ok(100));
    assert_eq!(map.get_state("b"), Ok(20));
    assert_eq!(map.get_state("d"), Ok(40));

    map.remove("b");
    map.remove("d");
    map.remove("a");
    assert_eq!(map.get_state("a"), Err(AwaitStateError::KeyNotFound));
    assert_eq!(map.get_state("b"), Err(AwaitStateError::KeyNotFound));
    assert_eq!(map.get_state("d"), Err(AwaitStateError::KeyNotFound));
}

#[test]
fn many_keys_survive_removals() {
    let mut map = AwaitStateMap::with_capacity(8);
    for i in 0..200u32 {
        map.put(&format!("key{}", i), i);
    }
    for i in (0..200u32).filter(|i| i % 3 == 0) {
        map.remove(&format!("key{}", i));
    }
    for i in 0..200u32 {
        let expected = if i % 3 == 0 {
            Err(AwaitStateError::KeyNotFound)
        } else {
            Ok(i)
        };
        assert_eq!(map.get_state(&format!("key{}", i)), expected);
    }
}

#[test]
fn keys_are_compared_as_text() {
    let mut map = AwaitStateMap::new();
    map.put("", 0);
    map.put("a", 1);
    map.put("ab", 2);
    let owned = String::from("a");
    assert_eq!(map.get_state(""), Ok(0));
    assert_eq!(map.get_state(&owned), Ok(1));
    assert_eq!(map.get_state("ab"), Ok(2));
    assert_eq!(map.get_state("b"), Err(AwaitStateError::KeyNotFound));
}

#[test]
fn with_capacity_gives_an_empty_map() {
    for capacity in [0usize, 1, 10, 1 << 20, (1 << 20) + 1, usize::MAX] {
        let mut map: AwaitStateMap<u8> = AwaitStateMap::with_capacity(capacity);
        assert_eq!(map.get_state("a"), Err(AwaitStateError::KeyNotFound));
        map.put("a", 1);
        assert_eq!(map.get_state("a"), Ok(1));
    }
}
