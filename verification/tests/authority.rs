use clipboard_sync::protocol::SetRequest;
use clipboard_sync::sync_state::SyncState;

fn req(epoch: u64, content: &str) -> SetRequest {
    SetRequest { epoch, content: content.to_owned() }
}

#[test]
fn first_push_succeeds() {
    let mut authority = SyncState::new();
    let before = authority.get();
    assert_eq!(before.epoch, 0);
    assert_eq!(before.content, "");

    let response = authority.set(req(0, "hello"));
    assert!(response.success);
    assert_eq!(response.message, "");

    let after = authority.get();
    assert_eq!(after.epoch, 1);
    assert_eq!(after.content, "hello");
}

#[test]
fn racing_stale_sets_both_rejected() {
    let mut authority = SyncState::new();
    assert!(authority.set(req(0, "a")).success);
    assert!(authority.set(req(1, "b")).success);
    assert_eq!(authority.get().epoch, 2);

    let first = authority.set(req(1, "from one follower"));
    assert!(!first.success);
    assert_eq!(first.message, "Outdated");

    let second = authority.set(req(1, "from another follower"));
    assert!(!second.success);
    assert_eq!(second.message, "Outdated");

    let unchanged = authority.get();
    assert_eq!(unchanged.epoch, 2);
    assert_eq!(unchanged.content, "b");
}

#[test]
fn racing_current_sets_yield_one_winner() {
    let mut authority = SyncState::new();
    assert!(authority.set(req(0, "a")).success);

    let winner = authority.set(req(1, "x"));
    let loser = authority.set(req(1, "y"));
    assert!(winner.success);
    assert!(!loser.success);
    assert_eq!(loser.message, "Outdated");

    let after = authority.get();
    assert_eq!(after.epoch, 2);
    assert_eq!(after.content, "x");
}

#[test]
fn set_succeeds_iff_epoch_current() {
    let mut authority = SyncState::new();
    assert!(!authority.set(req(1, "ahead")).success);
    assert!(!authority.set(req(7, "far ahead")).success);
    assert_eq!(authority.get().epoch, 0);
    assert_eq!(authority.get().content, "");

    assert!(authority.set(req(0, "now")).success);
    assert!(!authority.set(req(0, "behind")).success);
    assert_eq!(authority.get().epoch, 1);
    assert_eq!(authority.get().content, "now");
}

#[test]
fn get_is_idempotent_without_set() {
    let mut authority = SyncState::new();
    assert!(authority.set(req(0, "stable")).success);

    let first = authority.get();
    let second = authority.get();
    assert_eq!(first.epoch, second.epoch);
    assert_eq!(first.content, second.content);

    assert!(authority.set(req(1, "changed")).success);
    let third = authority.get();
    assert_eq!(third.epoch, 2);
    assert_eq!(third.content, "changed");
}

#[test]
fn epochs_of_accepted_writes_are_distinct_and_increasing() {
    let mut authority = SyncState::new();
    let mut seen = Vec::new();

    let attempts = vec![
        (0u64, "one", true),
        (0u64, "stale", false),
        (1u64, "two", true),
        (5u64, "wild", false),
        (2u64, "three", true),
    ];
    for (epoch, content, expect) in attempts {
        let response = authority.set(req(epoch, content));
        assert_eq!(response.success, expect);
        if response.success {
            seen.push(authority.get().epoch);
        }
    }

    assert_eq!(seen, vec![1, 2, 3]);
    for window in seen.windows(2) {
        assert!(window[0] < window[1]);
    }
}
