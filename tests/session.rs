use fingerpain::{SessionTracker, TypingSession};

#[test]
fn first_keystroke_opens_a_session() {
    let mut t = SessionTracker::new();
    let change = t.record_keystroke_at(1_000, 1, 0);
    assert!(change.closed.is_none());
    let opened = change.opened.expect("opened");
    assert_eq!(opened.start_time, 1_000);
    assert_eq!(opened.char_count, 1);
    assert_eq!(t.current_wpm(), 0);
    assert_eq!(t.peak_wpm(), 0);
}

#[test]
fn two_entries_twelve_seconds_apart_give_five_wpm() {
    let mut t = SessionTracker::new().with_idle_timeout(60_000);
    t.record_keystroke_at(0, 2, 0);
    let change = t.record_keystroke_at(12_000, 3, 1);
    assert!(change.closed.is_none() && change.opened.is_none());
    // Hundredths of a word per minute: (5 / 5) / (12 / 60) = 5.00.
    assert_eq!(t.current_wpm(), 500);
    assert!((t.current_wpm() as f64 / 100.0 - 5.0).abs() < 1e-9);
    assert_eq!(t.peak_wpm(), 500);
    let s = t.current_session().unwrap();
    assert_eq!((s.char_count, s.word_count), (5, 1));
}

#[test]
fn window_drops_entries_older_than_a_minute() {
    let mut t = SessionTracker::new().with_idle_timeout(1_000_000);
    t.record_keystroke_at(0, 100, 0);
    t.record_keystroke_at(30_000, 5, 0);
    t.record_keystroke_at(61_000, 5, 0);
    // Window holds 30 s and 61 s: 10 characters over 31 s.
    assert_eq!(t.current_wpm(), 10 * 1_200_000 / 31_000);
    // The peak came from 105 characters over 30 s.
    assert_eq!(t.peak_wpm(), 105 * 1_200_000 / 30_000);
}

#[test]
fn same_instant_gives_zero_wpm() {
    let mut t = SessionTracker::new();
    t.record_keystroke_at(500, 3, 0);
    t.record_keystroke_at(500, 3, 0);
    assert_eq!(t.current_wpm(), 0);
}

#[test]
fn idle_check_closes_the_session() {
    let mut t = SessionTracker::new();
    t.record_keystroke_at(10_000, 5, 0);
    t.record_keystroke_at(13_000, 5, 1);
    assert!(t.check_idle_at(18_000).is_none());
    let closed: TypingSession = t.check_idle_at(18_001).expect("closed");
    assert_eq!(closed.end_time, Some(13_000));
    // 10 characters over 3 s: 40 words per minute.
    assert_eq!(closed.wpm_avg, Some(4_000));
    assert_eq!(closed.wpm_peak, Some(4_000));
    assert_eq!(t.current_wpm(), 0);
    assert!(t.current_session().is_none());
    let change = t.record_keystroke_at(20_000, 1, 0);
    let opened = change.opened.unwrap();
    assert_ne!(opened.start_time, closed.start_time);
    assert_eq!(opened.start_time, 20_000);
}

#[test]
fn keystroke_after_idle_closes_and_reopens() {
    let mut t = SessionTracker::new();
    t.record_keystroke_at(0, 1, 0);
    let change = t.record_keystroke_at(5_001, 2, 0);
    let closed = change.closed.unwrap();
    assert_eq!(closed.end_time, Some(0));
    assert_eq!(closed.wpm_avg, Some(0));
    assert_eq!(change.opened.unwrap().start_time, 5_001);
}

#[test]
fn keystroke_at_exactly_the_timeout_continues() {
    let mut t = SessionTracker::new();
    t.record_keystroke_at(0, 1, 0);
    let change = t.record_keystroke_at(5_000, 1, 0);
    assert!(change.closed.is_none() && change.opened.is_none());
}

#[test]
fn explicit_stop_closes_at_now() {
    let mut t = SessionTracker::new().with_idle_timeout(10_000);
    t.record_keystroke_at(0, 10, 2);
    t.record_keystroke_at(6_000, 10, 2);
    t.set_session_id(7);
    let closed = t.end_session_at(100_000).unwrap();
    assert_eq!(closed.id, Some(7));
    assert_eq!(closed.end_time, Some(100_000));
    // The average runs to the last key press: 20 characters over 6 s.
    assert_eq!(closed.wpm_avg, Some(20 * 1_200_000 / 6_000));
    assert!(t.end_session_at(100_001).is_none());
}

#[test]
fn clocked_calls_use_the_current_time() {
    let mut t = SessionTracker::new();
    let opened = t.record_keystroke(1, 0).opened.unwrap();
    // After 2020-01-01 in milliseconds.
    assert!(opened.start_time > 1_577_836_800_000);
    assert!(t.check_idle().is_none());
    let closed = t.end_session().unwrap();
    assert!(closed.end_time.unwrap() >= opened.start_time);
}

#[test]
fn typing_session_new_is_open_and_empty() {
    let s = TypingSession::new(9);
    assert_eq!(s.start_time, 9);
    assert_eq!(s.end_time, None);
    assert_eq!(s.wpm_avg, None);
    assert_eq!(s.char_count, 0);
}

#[test]
fn window_keeps_an_entry_exactly_a_minute_old() {
    let mut t = SessionTracker::new().with_idle_timeout(100_000);
    t.record_keystroke_at(0, 2, 0);
    t.record_keystroke_at(60_000, 3, 0);
    // Both entries stay: 5 characters over 60 s is 1 word per minute.
    assert_eq!(t.current_wpm(), 100);
    t.record_keystroke_at(60_001, 1, 0);
    // The entry at 0 is now more than a minute old: 4 characters over 1 ms.
    assert_eq!(t.current_wpm(), 4 * 1_200_000);
}

#[test]
fn discarded_session_is_gone() {
    let mut t = SessionTracker::new();
    t.record_keystroke_at(0, 1, 0);
    t.discard_session();
    assert!(t.current_session().is_none());
    assert!(t.end_session_at(10).is_none());
    assert!(t.record_keystroke_at(20, 1, 0).opened.is_some());
}
