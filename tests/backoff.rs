use sailify::backoff::{ReconnectLedger, MAX_RECENT_RECONNECTS, RECONNECT_WINDOW_MS};

#[test]
fn fresh_ledger_is_empty() {
    let ledger = ReconnectLedger::new();
    assert_eq!(ledger.len(), 0);
}

#[test]
fn burst_within_ten_seconds_refuses_the_sixth() {
    let mut ledger = ReconnectLedger::new();
    for i in 0..5u64 {
        assert!(ledger.try_reconnect(1_000 + i * 2_000));
    }
    assert_eq!(ledger.len(), MAX_RECENT_RECONNECTS);
    assert!(!ledger.try_reconnect(10_000));
    assert!(!ledger.try_reconnect(10_500));
    assert_eq!(ledger.len(), 5);
}

#[test]
fn reconnects_a_window_apart_are_always_allowed() {
    let mut ledger = ReconnectLedger::new();
    for i in 0..50u64 {
        assert!(ledger.try_reconnect(i * RECONNECT_WINDOW_MS));
        assert!(ledger.len() <= 2);
    }
}

#[test]
fn entry_exactly_one_window_old_still_counts() {
    let mut ledger = ReconnectLedger::new();
    assert!(ledger.try_reconnect(0));
    ledger.purge(600_000);
    assert_eq!(ledger.len(), 1);
    ledger.purge(600_001);
    assert_eq!(ledger.len(), 0);
}

#[test]
fn full_ledger_frees_up_after_the_window() {
    let mut ledger = ReconnectLedger::new();
    for i in 0..5u64 {
        assert!(ledger.try_reconnect(i));
    }
    assert!(!ledger.try_reconnect(600_000));
    // the first two entries (0 and 1) have expired at 600_002
    assert!(ledger.try_reconnect(600_002));
    assert_eq!(ledger.len(), 4);
}

#[test]
fn clock_reading_before_an_entry_expires_nothing() {
    let mut ledger = ReconnectLedger::new();
    assert!(ledger.try_reconnect(5_000_000));
    ledger.purge(0);
    assert_eq!(ledger.len(), 1);
}

#[test]
fn purge_stops_at_first_fresh_entry() {
    let mut ledger = ReconnectLedger::new();
    assert!(ledger.try_reconnect(700_000));
    assert!(ledger.try_reconnect(100));
    // 700_000 is not expired at 800_000, so the older-looking 100 behind it stays
    ledger.purge(800_000);
    assert_eq!(ledger.len(), 2);
}
