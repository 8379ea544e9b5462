use netguard::background::{should_run, BackgroundScanPreference, ScanFrequency};

#[test]
fn default_is_disabled() {
    let pref = BackgroundScanPreference::default();
    assert!(!pref.enabled);
}

#[test]
fn frequency_durations_are_ordered() {
    assert!(ScanFrequency::Every6Hours.to_duration() < ScanFrequency::Daily.to_duration());
    assert!(ScanFrequency::Daily.to_duration() < ScanFrequency::Weekly.to_duration());
}

#[test]
fn frequency_seconds_are_exact() {
    assert_eq!(ScanFrequency::Every6Hours.to_secs(), 21_600);
    assert_eq!(ScanFrequency::Daily.to_duration(), std::time::Duration::from_secs(86_400));
    assert_eq!(ScanFrequency::Weekly.to_secs(), 604_800);
}

#[test]
fn background_tick_runs_only_when_enabled_and_due() {
    let on = BackgroundScanPreference { enabled: true, frequency: ScanFrequency::Every6Hours };
    assert!(!should_run(on, 21_599));
    assert!(should_run(on, 21_600));
    let off = BackgroundScanPreference { enabled: false, frequency: ScanFrequency::Every6Hours };
    assert!(!should_run(off, 1_000_000));
}
