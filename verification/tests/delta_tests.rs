use deepseek_ocr_android::DeltaTracker;

#[test]
fn fresh_tracker_emits_whole_first_snapshot() {
    let mut tracker = DeltaTracker::new();
    let delta = tracker.advance("Hello", false);
    assert_eq!(delta, "Hello");
}

#[test]
fn appending_snapshots_concatenate_to_last_snapshot() {
    let mut tracker = DeltaTracker::new();
    let mut rebuilt = String::new();
    rebuilt.push_str(&tracker.advance("Hel", false));
    rebuilt.push_str(&tracker.advance("Hello", false));
    rebuilt.push_str(&tracker.advance("Hello world", true));
    assert_eq!(rebuilt, "Hello world");
}

#[test]
fn identical_consecutive_snapshots_give_empty_delta() {
    let mut tracker = DeltaTracker::new();
    assert_eq!(tracker.advance("abc", false), "abc");
    assert_eq!(tracker.advance("abc", false), "");
}

#[test]
fn drift_resyncs_from_longest_common_prefix() {
    let mut tracker = DeltaTracker::new();
    assert_eq!(tracker.advance("caf", false), "caf");
    let delta = tracker.advance("caf\u{e9}", false);
    assert_eq!(delta, "\u{e9}");
}

#[test]
fn shrinking_snapshot_emits_only_past_common_prefix() {
    let mut tracker = DeltaTracker::new();
    assert_eq!(tracker.advance("abcdef", false), "abcdef");
    assert_eq!(tracker.advance("abcx", false), "x");
}

#[test]
fn empty_snapshot_before_text_started_gives_empty_delta() {
    let mut tracker = DeltaTracker::new();
    assert_eq!(tracker.advance("", false), "");
    assert_eq!(tracker.advance("a", false), "a");
}

#[test]
fn default_tracker_behaves_like_new() {
    let mut tracker = DeltaTracker::default();
    assert_eq!(tracker.advance("xy", true), "xy");
}
