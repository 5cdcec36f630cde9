use oxidase::watcher_guard::{cleanup_script, WatcherGuard};

#[test]
fn guard_reports_name_and_subscription() {
    let guard = WatcherGuard::new("watch_resize", 42, None);
    assert_eq!(guard.name(), "watch_resize");
    assert_eq!(guard.subscription_id(), 42);
}

#[test]
fn guard_debug_shows_name_and_id() {
    let guard = WatcherGuard::new("watch_scroll", 7, None);
    assert_eq!(guard.debug_string(), "WatcherGuard { name: \"watch_scroll\", sub_id: 7 }");
    let big = WatcherGuard::new("w", u64::MAX, None);
    assert_eq!(big.debug_string(), "WatcherGuard { name: \"w\", sub_id: 18446744073709551615 }");
    let odd = WatcherGuard::new("a\"b\\c\n", 3, None);
    assert_eq!(odd.debug_string(), "WatcherGuard { name: \"a\\\"b\\\\c\\n\", sub_id: 3 }");
}

#[test]
fn stop_hands_out_the_teardown() {
    let guard = WatcherGuard::new("watch_resize", 1, None);
    let plan = guard.stop().expect("a live guard hands out its teardown");
    assert_eq!(plan.sub_id, 1);
    assert!(plan.task.is_none());
    assert_eq!(plan.script, cleanup_script(1));
}

#[test]
fn teardown_is_handed_out_at_most_once() {
    let mut guard = WatcherGuard::new("watch_resize", 2, None);
    let first = guard.take_teardown().expect("first teardown");
    assert_eq!(first.script, cleanup_script(2));
    assert!(guard.take_teardown().is_none());
    assert!(guard.stop().is_none());
}

#[test]
fn cleanup_script_names_the_subscription() {
    assert_eq!(
        cleanup_script(15),
        "(function() { const w = window.__DIOXUS_WATCHERS; if (w && w.has(15)) { const cleanup = w.get(15); w.delete(15); if (typeof cleanup === \"function\") { cleanup(); } } })();"
    );
    assert!(cleanup_script(0).contains("w.has(0)"));
    assert!(cleanup_script(u64::MAX).contains("w.delete(18446744073709551615)"));
}
