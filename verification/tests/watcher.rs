use xmr_utils::block::Block;
use xmr_utils::failure::{ErrorKind, Failure};
use xmr_utils::notification::Notification;
use xmr_utils::watcher::{Action, Event, Phase, Reaction, Watcher};

fn block(hash: &str, height: u32) -> Block {
    Block { hash: hash.to_string(), height }
}

fn fetched(hash: &str, height: u32) -> Event {
    Event::Fetched(vec![block(hash, height)])
}

fn fetch(mini: bool) -> Action {
    Action::Fetch {
        url: if mini {
            "https://p2pool.io/mini/api/pool/blocks".to_string()
        } else {
            "https://p2pool.io/api/pool/blocks".to_string()
        },
    }
}

fn no_blocks() -> Failure {
    Failure { kind: ErrorKind::EmptyResult, message: "no blocks found".to_string() }
}

fn seeded(mini: bool, period: u64, hash: &str) -> Watcher {
    let mut watcher = Watcher::start(mini, period).unwrap();
    watcher.step(fetched(hash, 1));
    watcher
}

/// Runs one round and hands back the notification that was asked for.
fn round(watcher: &mut Watcher, hash: &str, height: u32) -> Option<Notification> {
    assert_eq!(watcher.step(Event::Ticked).action, fetch(watcher.mini()));
    match watcher.step(fetched(hash, height)).action {
        Action::Notify(notification) => {
            assert_eq!(watcher.step(Event::Delivered).action, Action::Wait {
                seconds: watcher.period(),
            });
            Some(notification)
        },
        Action::Wait { .. } => None,
        other => panic!("unexpected action {:?}", other),
    }
}

#[test]
fn period_of_zero_is_refused_at_once() {
    for mini in [false, true] {
        let failure = Watcher::start(mini, 0).unwrap_err();
        assert_eq!(failure.kind, ErrorKind::Configuration);
        assert_eq!(failure.message, "period must not be 0");
    }
}

#[test]
fn loop_starts_with_a_fetch() {
    let watcher = Watcher::start(false, 10).unwrap();
    assert_eq!(*watcher.phase(), Phase::Seeding);
    assert_eq!(watcher.action(), fetch(false));
    assert_eq!(watcher.last_block_hash(), "");
    assert_eq!(watcher.period(), 10);
    assert!(!watcher.mini());
    let mini = Watcher::start(true, u64::MAX).unwrap();
    assert_eq!(mini.action(), fetch(true));
    assert_eq!(mini.period(), u64::MAX);
    assert!(mini.mini());
}

#[test]
fn first_fetch_seeds_without_a_notification() {
    let mut watcher = Watcher::start(false, 10).unwrap();
    let reaction = watcher.step(Event::Fetched(vec![block("abc", 5), block("old", 4)]));
    assert_eq!(reaction, Reaction { line: None, action: Action::Wait { seconds: 10 } });
    assert_eq!(*watcher.phase(), Phase::Waiting);
    assert_eq!(watcher.last_block_hash(), "abc");
}

#[test]
fn notifications_fire_at_the_two_changes_of_five_fetches() {
    let results = [("B1", 1), ("B1", 1), ("B2", 2), ("B2", 2), ("B3", 3)];
    let mut watcher = Watcher::start(false, 10).unwrap();
    watcher.step(fetched(results[0].0, results[0].1));
    let mut fired = Vec::new();
    for (hash, height) in &results[1..] {
        fired.push(round(&mut watcher, hash, *height).map(|n| n.body));
    }
    assert_eq!(fired, vec![
        None,
        Some("New block found at height 2".to_string()),
        None,
        Some("New block found at height 3".to_string()),
    ]);
    assert_eq!(watcher.last_block_hash(), "B3");
    assert_eq!(*watcher.phase(), Phase::Waiting);
}

#[test]
fn seeded_with_abc_then_abc_then_def() {
    let mut watcher = seeded(false, 10, "abc");
    assert_eq!(round(&mut watcher, "abc", 12344), None);
    assert_eq!(watcher.last_block_hash(), "abc");

    watcher.step(Event::Ticked);
    let reaction = watcher.step(fetched("def", 12345));
    assert_eq!(reaction.line, None);
    let notification = match reaction.action {
        Action::Notify(notification) => notification,
        other => panic!("unexpected action {:?}", other),
    };
    assert_eq!(notification.summary, "P2Pool block found");
    assert_eq!(notification.icon, "monero");
    assert_eq!(notification.body, "New block found at height 12345");
    assert!(notification.body.contains("12345"));
    assert_eq!(watcher.last_block_hash(), "def");
    assert_eq!(*watcher.phase(), Phase::Notifying { height: 12345 });

    let reaction = watcher.step(Event::Delivered);
    assert_eq!(reaction, Reaction {
        line: Some("Block found, notification sent!".to_string()),
        action: Action::Wait { seconds: 10 },
    });
    assert_eq!(*watcher.phase(), Phase::Waiting);
    assert_eq!(watcher.last_block_hash(), "def");
}

#[test]
fn tick_starts_a_check_and_says_so() {
    let mut watcher = seeded(true, 3, "abc");
    let reaction = watcher.step(Event::Ticked);
    assert_eq!(reaction, Reaction {
        line: Some("Fetching P2Pool block information...".to_string()),
        action: fetch(true),
    });
    assert_eq!(*watcher.phase(), Phase::Checking);
}

#[test]
fn mini_pool_is_named_in_the_headline() {
    let mut watcher = seeded(true, 3, "abc");
    let notification = round(&mut watcher, "def", 8).unwrap();
    assert_eq!(notification.summary, "P2Pool Mini block found");
    assert_eq!(notification.body, "New block found at height 8");
}

#[test]
fn change_is_told_by_the_hash_alone() {
    let mut watcher = seeded(false, 10, "abc");
    assert_eq!(round(&mut watcher, "abc", 999), None);
    assert!(round(&mut watcher, "abd", 1).is_some());
    assert!(round(&mut watcher, "abc", 1).is_some());
    assert_eq!(round(&mut watcher, "abc", 0), None);
}

#[test]
fn only_the_newest_block_of_a_reply_counts() {
    let mut watcher = seeded(false, 10, "abc");
    watcher.step(Event::Ticked);
    let reaction = watcher.step(Event::Fetched(vec![block("abc", 5), block("zzz", 4)]));
    assert_eq!(reaction.action, Action::Wait { seconds: 10 });
    watcher.step(Event::Ticked);
    let reaction = watcher.step(Event::Fetched(vec![block("new", 6), block("abc", 5)]));
    assert_eq!(*watcher.phase(), Phase::Notifying { height: 6 });
    assert!(matches!(reaction.action, Action::Notify(_)));
}

#[test]
fn empty_reply_ends_the_loop() {
    let mut watcher = Watcher::start(false, 10).unwrap();
    let reaction = watcher.step(Event::Fetched(Vec::new()));
    assert_eq!(reaction, Reaction { line: None, action: Action::Stop(no_blocks()) });
    assert_eq!(*watcher.phase(), Phase::Stopped { failure: no_blocks() });

    let mut watcher = seeded(false, 10, "abc");
    watcher.step(Event::Ticked);
    let reaction = watcher.step(Event::Fetched(Vec::new()));
    assert_eq!(reaction.action, Action::Stop(no_blocks()));
    assert_eq!(watcher.last_block_hash(), "abc");
}

#[test]
fn failure_ends_the_loop_and_is_handed_on() {
    let refused = Failure::new(ErrorKind::Transport, "connection refused");
    let mut watcher = Watcher::start(false, 10).unwrap();
    assert_eq!(watcher.step(Event::Failed(refused.clone())).action, Action::Stop(refused.clone()));

    let mut watcher = seeded(false, 10, "abc");
    watcher.step(Event::Ticked);
    let reaction = watcher.step(Event::Failed(refused.clone()));
    assert_eq!(reaction, Reaction { line: None, action: Action::Stop(refused.clone()) });

    let unshown = Failure::new(ErrorKind::Delivery, "no notification daemon");
    let mut watcher = seeded(false, 10, "abc");
    watcher.step(Event::Ticked);
    watcher.step(fetched("def", 2));
    let reaction = watcher.step(Event::Failed(unshown.clone()));
    assert_eq!(reaction, Reaction { line: None, action: Action::Stop(unshown.clone()) });
    assert_eq!(*watcher.phase(), Phase::Stopped { failure: unshown.clone() });
    assert_eq!(watcher.last_block_hash(), "def");
    assert_eq!(watcher.action(), Action::Stop(unshown));
}

#[test]
fn stopped_loop_stays_stopped() {
    let refused = Failure::new(ErrorKind::Transport, "connection refused");
    let mut watcher = Watcher::start(false, 10).unwrap();
    watcher.step(Event::Failed(refused.clone()));
    for event in [Event::Ticked, fetched("abc", 1), Event::Delivered, Event::Failed(no_blocks())] {
        let reaction = watcher.step(event);
        assert_eq!(reaction, Reaction { line: None, action: Action::Stop(refused.clone()) });
    }
    assert_eq!(watcher.last_block_hash(), "");
}

#[test]
fn event_that_is_not_awaited_changes_nothing() {
    let mut watcher = Watcher::start(false, 10).unwrap();
    for event in [Event::Ticked, Event::Delivered] {
        assert_eq!(watcher.step(event), Reaction { line: None, action: fetch(false) });
        assert_eq!(*watcher.phase(), Phase::Seeding);
    }

    let mut watcher = seeded(false, 10, "abc");
    let odd = Failure::new(ErrorKind::Transport, "late");
    for event in [fetched("def", 2), Event::Delivered, Event::Failed(odd)] {
        let reaction = watcher.step(event);
        assert_eq!(reaction, Reaction { line: None, action: Action::Wait { seconds: 10 } });
        assert_eq!(*watcher.phase(), Phase::Waiting);
        assert_eq!(watcher.last_block_hash(), "abc");
    }

    watcher.step(Event::Ticked);
    for event in [Event::Ticked, Event::Delivered] {
        assert_eq!(watcher.step(event), Reaction { line: None, action: fetch(false) });
        assert_eq!(*watcher.phase(), Phase::Checking);
    }

    watcher.step(fetched("def", 2));
    for event in [Event::Ticked, fetched("ghi", 3)] {
        let reaction = watcher.step(event);
        assert_eq!(reaction.line, None);
        assert!(matches!(reaction.action, Action::Notify(_)));
        assert_eq!(*watcher.phase(), Phase::Notifying { height: 2 });
        assert_eq!(watcher.last_block_hash(), "def");
    }
}
