use fl_signin::viewport::{body_style, html_style, needs_compensation};
use fl_signin::{is_mobile_safari, Instant, StyleCache, ViewportCompensator};

#[test]
fn same_pair_gives_same_class_and_registers_once() {
    let mut cache = StyleCache::new();
    let a = cache.class_name_for("fl-card", "color: red;").unwrap();
    let b = cache.class_name_for("fl-card", "color: red;").unwrap();
    assert_eq!(a, b);
    assert_eq!(cache.injection_count(), 1);
    assert!(a.starts_with("fl-card-"));
    assert!(a.len() > "fl-card-".len());
    for _ in 0..5 {
        assert_eq!(cache.class_name_for("fl-card", "color: red;").unwrap(), a);
    }
    assert_eq!(cache.injection_count(), 1);
}

#[test]
fn distinct_pairs_register_separately() {
    let mut cache = StyleCache::new();
    let a = cache.class_name_for("fl-card", "color: red;").unwrap();
    let b = cache.class_name_for("fl-card", "color: blue;").unwrap();
    let c = cache.class_name_for("fl-button", "color: red;").unwrap();
    assert_ne!(a, b);
    assert!(c.starts_with("fl-button-"));
    assert_eq!(cache.injection_count(), 3);
    cache.class_name_for("fl-card", "color: blue;").unwrap();
    assert_eq!(cache.injection_count(), 3);
}

const IPHONE_SAFARI: &str = "Mozilla/5.0 (iPhone; CPU iPhone OS 14_0 like Mac OS X) AppleWebKit/605.1.15 (KHTML, like Gecko) Version/14.0 Mobile/15E148 Safari/604.1";
const IPHONE_CHROME: &str = "Mozilla/5.0 (iPhone; CPU iPhone OS 14_0 like Mac OS X) AppleWebKit/605.1.15 (KHTML, like Gecko) CriOS/86.0.4240.93 Mobile/15E148 Safari/604.1";
const DESKTOP_CHROME: &str = "Mozilla/5.0 (X11; Linux x86_64) AppleWebKit/537.36 (KHTML, like Gecko) Chrome/86.0.4240.75 Safari/537.36";

#[test]
fn user_agents_are_told_apart() {
    assert!(is_mobile_safari(IPHONE_SAFARI));
    assert!(is_mobile_safari("mozilla (ipad) applewebkit"));
    assert!(!is_mobile_safari(IPHONE_CHROME));
    assert!(!is_mobile_safari(DESKTOP_CHROME));
    assert!(!is_mobile_safari(""));
    assert!(needs_compensation(true, true, false));
    assert!(!needs_compensation(true, true, true));
    assert!(!needs_compensation(true, false, false));
}

fn ms(t: u64) -> Instant {
    Instant::from_micros(t * 1000)
}

#[test]
fn burst_within_fifty_ms_writes_once() {
    let mut v = ViewportCompensator::new(true);
    let writes = [0u64, 10, 20, 35, 50]
        .iter()
        .filter(|t| v.on_event(ms(1000 + **t)))
        .count();
    assert_eq!(writes, 1);
}

#[test]
fn events_150_ms_apart_write_twice() {
    let mut v = ViewportCompensator::new(true);
    assert!(v.on_event(ms(1000)));
    assert!(v.on_event(ms(1150)));
    assert_eq!(v.last_update(), Some(ms(1150)));
}

#[test]
fn throttle_edges() {
    let mut v = ViewportCompensator::new(true);
    assert!(v.on_event(ms(1000)));
    assert!(!v.on_event(ms(1099)));
    assert!(v.on_event(ms(1100)));
    assert!(!v.on_event(ms(500)));
    assert_eq!(v.last_update(), Some(ms(1100)));
}

#[test]
fn inactive_browser_never_writes() {
    let mut v = ViewportCompensator::new(false);
    assert!(!v.is_active());
    assert!(!v.on_event(ms(0)));
    assert!(!v.on_event(ms(1000)));
    assert_eq!(v.last_update(), None);
}

#[test]
fn stylesheet_and_writes_never_both_set_height() {
    assert!(body_style(false, false).ends_with("min-height: 100vh;\n"));
    assert!(!body_style(true, true).contains("min-height: 100vh"));
    assert!(body_style(true, true).contains("background-color: rgb(244, 245, 249);"));
    assert!(html_style(false, false).contains("min-height: 100vh"));
    assert!(!html_style(false, true).contains("min-height"));
}

#[test]
fn burst_run_counts_one_write() {
    let mut v = ViewportCompensator::new(true);
    let times: Vec<Instant> = [0u64, 5, 20, 45, 50].iter().map(|t| ms(2000 + t)).collect();
    assert_eq!(v.on_events(&times), 1);
    assert_eq!(v.last_update(), Some(ms(2000)));
}

#[test]
fn spaced_run_counts_two_writes() {
    let mut v = ViewportCompensator::new(true);
    assert_eq!(v.on_events(&vec![ms(3000), ms(3150)]), 2);
    assert_eq!(v.last_update(), Some(ms(3150)));
    let mut off = ViewportCompensator::new(false);
    assert_eq!(off.on_events(&vec![ms(3000), ms(3150)]), 0);
}

#[test]
fn pairs_keep_their_names_across_other_requests() {
    let mut cache = StyleCache::new();
    let a = cache.class_name_for("fl-a", "x: 1;").unwrap();
    let b = cache.class_name_for("fl-b", "x: 1;").unwrap();
    let c = cache.class_name_for("fl-a", "x: 2;").unwrap();
    assert_eq!(cache.class_name_for("fl-a", "x: 1;").unwrap(), a);
    assert_eq!(cache.class_name_for("fl-b", "x: 1;").unwrap(), b);
    assert_ne!(a, b);
    assert_ne!(a, c);
    assert_ne!(b, c);
    assert_eq!(cache.injection_count(), 3);
}

#[test]
fn record_keeps_new_names_and_refuses_taken_or_failed_ones() {
    let mut cache = StyleCache::new();
    let kept = cache.record("fl-a".to_string(), "x: 1;".to_string(), Ok("fl-a-1".to_string()));
    assert_eq!(kept, Ok("fl-a-1".to_string()));
    assert_eq!(cache.injection_count(), 1);
    assert_eq!(cache.class_name_for("fl-a", "x: 1;").unwrap(), "fl-a-1");
    let taken = cache.record("fl-a".to_string(), "x: 2;".to_string(), Ok("fl-a-1".to_string()));
    assert!(taken.is_err());
    assert_eq!(cache.injection_count(), 1);
    let failed = cache.record("fl-a".to_string(), "x: 2;".to_string(), Err("bad style".to_string()));
    assert_eq!(failed, Err("bad style".to_string()));
    assert_eq!(cache.injection_count(), 1);
    let retried = cache.class_name_for("fl-a", "x: 2;").unwrap();
    assert!(retried.starts_with("fl-a-"));
    assert_eq!(cache.injection_count(), 2);
}
