use fingerpain::{ActiveApp, AppCache, ExportFormat, Listener, ListenerError, TimeRange};

#[test]
fn export_format_from_any_case() {
    assert_eq!(ExportFormat::from_str("CSV"), Some(ExportFormat::Csv));
    assert_eq!(ExportFormat::from_str("Json"), Some(ExportFormat::Json));
    assert_eq!(ExportFormat::from_str("xml"), None);
    assert_eq!(ExportFormat::from_lowercase(&"csv".to_string()), Some(ExportFormat::Csv));
    assert_eq!(ExportFormat::from_lowercase(&"CSV".to_string()), None);
    assert_eq!(ExportFormat::Csv.extension(), "csv");
    assert_eq!(ExportFormat::Json.extension(), "json");
}

#[test]
fn time_range_names() {
    assert_eq!(TimeRange::parse("TODAY"), Some(TimeRange::Today));
    assert_eq!(TimeRange::parse("This-Week"), Some(TimeRange::ThisWeek));
    assert_eq!(TimeRange::parse("lastmonth"), Some(TimeRange::LastMonth));
    assert_eq!(TimeRange::parse("3months"), Some(TimeRange::Last90Days));
    assert_eq!(TimeRange::parse("All-Time"), Some(TimeRange::AllTime));
    assert_eq!(TimeRange::parse("7D"), Some(TimeRange::Last7Days));
    assert_eq!(TimeRange::parse("fortnight"), None);
    assert_eq!(TimeRange::parse_lowercase(&"Today".to_string()), None);
}

#[test]
fn listener_starts_once_and_stops_idempotently() {
    let mut l = Listener::new();
    assert!(!l.is_running());
    assert!(l.start().is_ok());
    assert!(l.is_running());
    assert!(matches!(l.start(), Err(ListenerError::AlreadyRunning)));
    l.stop();
    assert!(!l.is_running());
    l.stop();
    assert!(!l.is_running());
    assert!(l.start().is_ok());
}

#[test]
fn app_cache_refreshes_every_two_seconds() {
    let mut c = AppCache::new();
    assert!(c.needs_refresh(0));
    c.refresh(10_000, Some(ActiveApp { name: "A".to_string(), bundle_id: "a".to_string() }));
    assert!(!c.needs_refresh(11_999));
    assert!(c.needs_refresh(12_000));
    assert_eq!(c.current().unwrap().bundle_id, "a");
    c.refresh(12_000, None);
    assert!(c.current().is_none());
}

#[test]
fn window_class_gives_the_application() {
    let a = ActiveApp::from_window("notes.txt - Editor", "editor\0Editor\0");
    assert_eq!(a.name, "notes.txt - Editor");
    assert_eq!(a.bundle_id, "Editor");
    let b = ActiveApp::from_window("", "plain");
    assert_eq!(b.name, "Unknown");
    assert_eq!(b.bundle_id, "plain");
    let c = ActiveApp::from_window("T", "inst\0Cls");
    assert_eq!(c.bundle_id, "Cls");
    let d = ActiveApp::from_window("T", "inst\0");
    assert_eq!(d.bundle_id, "unknown");
    let e = ActiveApp::from_window("T", "");
    assert_eq!(e.bundle_id, "unknown");
}
