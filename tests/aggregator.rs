use fingerpain::event::is_browser;
use fingerpain::{ActiveApp, BrowserContext, KeyEvent, KeyEventType, KeystrokeAggregator, KeystrokeRecord};

const MINUTE: i64 = 60_000;

fn app(name: &str, id: &str) -> Option<ActiveApp> {
    Some(ActiveApp { name: name.to_string(), bundle_id: id.to_string() })
}

fn event(timestamp: i64, event_type: KeyEventType, app: Option<ActiveApp>) -> KeyEvent {
    KeyEvent { timestamp, event_type, app, browser: None }
}

fn find<'a>(records: &'a [KeystrokeRecord], id: &str) -> &'a KeystrokeRecord {
    records
        .iter()
        .find(|r| r.app_bundle_id.as_deref() == Some(id))
        .expect("record for the application")
}

#[test]
fn first_event_hands_on_nothing() {
    let mut agg = KeystrokeAggregator::new();
    let out = agg.process(event(5 * MINUTE, KeyEventType::Character, app("Editor", "ed")));
    assert!(out.is_empty());
}

#[test]
fn first_event_at_minute_zero_hands_on_nothing() {
    let mut agg = KeystrokeAggregator::new();
    assert!(agg.process(event(0, KeyEventType::Character, None)).is_empty());
    assert!(agg.process(event(1000, KeyEventType::Character, None)).is_empty());
    let out = agg.process(event(MINUTE, KeyEventType::Character, None));
    assert_eq!(out.len(), 1);
    assert_eq!(out[0].char_count, 2);
}

#[test]
fn minute_rollover_hands_on_all_records_of_the_minute() {
    let mut agg = KeystrokeAggregator::new();
    let m = 1000 * MINUTE;
    assert!(agg.process(event(m + 1, KeyEventType::Character, app("Editor", "ed"))).is_empty());
    assert!(agg.process(event(m + 2, KeyEventType::Character, app("Shell", "sh"))).is_empty());
    assert!(agg.process(event(m + 3, KeyEventType::Space, app("Editor", "ed"))).is_empty());
    let out = agg.process(event(m + MINUTE, KeyEventType::Character, app("Editor", "ed")));
    assert_eq!(out.len(), 2);
    let ed = find(&out, "ed");
    assert_eq!(ed.char_count, 2);
    assert_eq!(ed.word_count, 1);
    assert_eq!(ed.app_name.as_deref(), Some("Editor"));
    assert_eq!(ed.timestamp, m + 1);
    let sh = find(&out, "sh");
    assert_eq!(sh.char_count, 1);
    assert_eq!(sh.word_count, 0);
    // The new minute starts from zero for the editor.
    let rest = agg.flush();
    assert_eq!(rest.len(), 1);
    assert_eq!(rest[0].char_count, 1);
    assert_eq!(rest[0].word_count, 0);
    assert_eq!(rest[0].timestamp, m + MINUTE);
}

#[test]
fn pending_word_is_dropped_at_rollover() {
    let mut agg = KeystrokeAggregator::new();
    agg.process(event(0, KeyEventType::Character, None));
    agg.process(event(MINUTE, KeyEventType::Space, None));
    let out = agg.flush();
    assert_eq!(out.len(), 1);
    assert_eq!(out[0].char_count, 1);
    assert_eq!(out[0].word_count, 0);
}

#[test]
fn pending_words_are_kept_per_application() {
    let mut agg = KeystrokeAggregator::new();
    agg.process(event(1, KeyEventType::Character, app("A", "a")));
    agg.process(event(2, KeyEventType::Space, app("B", "b")));
    agg.process(event(3, KeyEventType::Space, app("A", "a")));
    let out = agg.flush();
    assert_eq!(find(&out, "a").word_count, 1);
    assert_eq!(find(&out, "b").word_count, 0);
}

#[test]
fn flush_returns_one_record_per_application_then_nothing() {
    let mut agg = KeystrokeAggregator::new();
    let kinds = [KeyEventType::Character, KeyEventType::Character, KeyEventType::Enter, KeyEventType::Backspace];
    for (i, kind) in kinds.iter().enumerate() {
        let which = if i % 2 == 0 { app("A", "a") } else { app("B", "b") };
        agg.process(event(10 + i as i64, *kind, which));
    }
    let out = agg.flush();
    assert_eq!(out.len(), 2);
    let a = find(&out, "a");
    assert_eq!((a.char_count, a.word_count, a.paragraph_count, a.backspace_count), (2, 1, 1, 0));
    let b = find(&out, "b");
    assert_eq!((b.char_count, b.word_count, b.paragraph_count, b.backspace_count), (1, 0, 0, 1));
    assert!(agg.flush().is_empty());
}

#[test]
fn flush_resets_the_minute() {
    let mut agg = KeystrokeAggregator::new();
    agg.process(event(0, KeyEventType::Character, None));
    agg.flush();
    assert!(agg.process(event(5 * MINUTE, KeyEventType::Character, None)).is_empty());
}

#[test]
fn records_without_typing_are_not_handed_on() {
    let mut agg = KeystrokeAggregator::new();
    agg.process(event(0, KeyEventType::Other, app("A", "a")));
    agg.process(event(1, KeyEventType::Backspace, app("B", "b")));
    let out = agg.flush();
    assert_eq!(out.len(), 1);
    assert_eq!(out[0].app_bundle_id.as_deref(), Some("b"));
    assert_eq!(out[0].backspace_count, 1);
}

#[test]
fn unknown_application_gets_the_sentinel_key() {
    let mut agg = KeystrokeAggregator::new();
    agg.process(event(0, KeyEventType::Character, None));
    agg.process(event(1, KeyEventType::Character, None));
    let out = agg.flush();
    assert_eq!(out.len(), 1);
    assert_eq!(out[0].app_name, None);
    assert_eq!(out[0].app_bundle_id, None);
    assert_eq!(out[0].char_count, 2);
}

fn tab(domain: &str) -> Option<BrowserContext> {
    Some(BrowserContext {
        domain: domain.to_string(),
        url: format!("https://{}/", domain),
        title: String::new(),
    })
}

#[test]
fn browser_fields_are_latest_wins() {
    let mut agg = KeystrokeAggregator::new();
    let chrome = || app("Chrome", "com.google.Chrome");
    agg.process(KeyEvent { timestamp: 0, event_type: KeyEventType::Character, app: chrome(), browser: tab("a.org") });
    agg.process(KeyEvent { timestamp: 1, event_type: KeyEventType::Character, app: chrome(), browser: None });
    agg.process(KeyEvent { timestamp: 2, event_type: KeyEventType::Character, app: chrome(), browser: tab("b.org") });
    let out = agg.flush();
    assert_eq!(out[0].browser_domain.as_deref(), Some("b.org"));
    assert_eq!(out[0].browser_url.as_deref(), Some("https://b.org/"));
}

#[test]
fn browser_fields_only_for_known_browsers() {
    let mut agg = KeystrokeAggregator::new();
    agg.process(KeyEvent { timestamp: 0, event_type: KeyEventType::Character, app: app("Editor", "ed"), browser: tab("a.org") });
    let out = agg.flush();
    assert_eq!(out[0].browser_domain, None);
    assert!(is_browser(&"org.mozilla.firefox".to_string()));
    assert!(is_browser(&"com.apple.Safari".to_string()));
    assert!(!is_browser(&"com.apple.safari".to_string()));
}

#[test]
fn record_constructors() {
    let r = KeystrokeRecord::new(42).with_app(Some("N".to_string()), Some("id".to_string()));
    assert_eq!(r.timestamp, 42);
    assert_eq!(r.app_name.as_deref(), Some("N"));
    assert_eq!(r.app_bundle_id.as_deref(), Some("id"));
    assert_eq!(r.char_count, 0);
    assert_eq!(r.id, None);
}

#[test]
fn other_events_change_nothing() {
    let mut agg = KeystrokeAggregator::new();
    agg.process(event(0, KeyEventType::Character, app("A", "a")));
    // An Other event in a later minute neither closes the minute nor opens a tally.
    assert!(agg.process(event(MINUTE, KeyEventType::Other, app("B", "b"))).is_empty());
    agg.process(KeyEvent { timestamp: 1, event_type: KeyEventType::Character, app: app("Chrome", "com.google.Chrome"), browser: tab("a.org") });
    agg.process(KeyEvent { timestamp: 2, event_type: KeyEventType::Other, app: app("Chrome", "com.google.Chrome"), browser: tab("b.org") });
    let out = agg.flush();
    assert_eq!(out.len(), 2);
    assert_eq!(find(&out, "com.google.Chrome").browser_domain.as_deref(), Some("a.org"));
}

#[test]
fn n_characters_and_a_boundary_in_one_record() {
    for n in 1..10u32 {
        let mut agg = KeystrokeAggregator::new();
        for i in 0..n {
            agg.process(event(i as i64, KeyEventType::Character, app("A", "a")));
        }
        assert!(agg.process(event(n as i64, KeyEventType::Tab, app("A", "a"))).is_empty());
        let out = agg.flush();
        assert_eq!(out.len(), 1);
        assert_eq!(out[0].char_count, n + 1);
        assert_eq!(out[0].word_count, 1);
    }
}
