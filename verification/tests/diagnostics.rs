use bevy::diagnostic::{Diagnostic, DiagnosticPath, DiagnosticsStore};
use hello_bevy::diagnostics::{disable, toggle_diag, DISABLE_AFTER_SECS};

fn store_with(paths: &[&'static str]) -> DiagnosticsStore {
    let mut store = DiagnosticsStore::default();
    for p in paths {
        store.add(Diagnostic::new(DiagnosticPath::const_new(p)));
    }
    store
}

fn enabled(store: &DiagnosticsStore, path: &'static str) -> bool {
    store.get(&DiagnosticPath::const_new(path)).unwrap().is_enabled
}

#[test]
fn disable_keeps_only_fps() {
    let mut store = store_with(&["fps", "frame_time", "entity_count"]);
    disable(&mut store);
    assert!(enabled(&store, "fps"));
    assert!(!enabled(&store, "frame_time"));
    assert!(!enabled(&store, "entity_count"));
    assert_eq!(store.iter().count(), 3);
}

#[test]
fn disable_twice_is_disable_once() {
    let mut store = store_with(&["fps", "frame_time"]);
    disable(&mut store);
    disable(&mut store);
    assert!(enabled(&store, "fps"));
    assert!(!enabled(&store, "frame_time"));
}

#[test]
fn toggle_flips_all_but_fps() {
    let mut store = store_with(&["fps", "frame_time", "frame_count"]);
    store.get_mut(&DiagnosticPath::const_new("frame_count")).unwrap().is_enabled = false;
    toggle_diag(&mut store);
    assert!(enabled(&store, "fps"));
    assert!(!enabled(&store, "frame_time"));
    assert!(enabled(&store, "frame_count"));
}

#[test]
fn toggle_twice_restores() {
    let mut store = store_with(&["fps", "frame_time", "frame_count"]);
    store.get_mut(&DiagnosticPath::const_new("fps")).unwrap().is_enabled = false;
    store.get_mut(&DiagnosticPath::const_new("frame_count")).unwrap().is_enabled = false;
    toggle_diag(&mut store);
    toggle_diag(&mut store);
    assert!(!enabled(&store, "fps"));
    assert!(enabled(&store, "frame_time"));
    assert!(!enabled(&store, "frame_count"));
}

#[test]
fn toggle_after_disable_enables_everything() {
    let mut store = store_with(&["fps", "frame_time", "entity_count"]);
    store.get_mut(&DiagnosticPath::const_new("fps")).unwrap().is_enabled = false;
    disable(&mut store);
    toggle_diag(&mut store);
    assert!(!enabled(&store, "fps"));
    assert!(enabled(&store, "frame_time"));
    assert!(enabled(&store, "entity_count"));
}

#[test]
fn fps_only_store_is_untouched() {
    let mut store = store_with(&["fps"]);
    toggle_diag(&mut store);
    assert!(enabled(&store, "fps"));
    disable(&mut store);
    assert!(enabled(&store, "fps"));
}

#[test]
fn empty_store_stays_empty() {
    let mut store = DiagnosticsStore::default();
    disable(&mut store);
    toggle_diag(&mut store);
    assert_eq!(store.iter().count(), 0);
}

#[test]
fn disable_delay_is_five_seconds() {
    assert_eq!(DISABLE_AFTER_SECS, 5);
}

#[test]
fn switches_keep_the_rest_of_each_diagnostic() {
    let mut store = DiagnosticsStore::default();
    store.add(Diagnostic::new(DiagnosticPath::const_new("fps")).with_suffix("fps"));
    store.add(
        Diagnostic::new(DiagnosticPath::const_new("frame_time"))
            .with_suffix("ms")
            .with_max_history_length(7),
    );
    toggle_diag(&mut store);
    disable(&mut store);
    let ft = store.get(&DiagnosticPath::const_new("frame_time")).unwrap();
    assert_eq!(ft.suffix, "ms");
    assert_eq!(ft.get_max_history_length(), 7);
    assert_eq!(ft.path().as_str(), "frame_time");
    assert!(!ft.is_enabled);
    let fps = store.get(&DiagnosticPath::const_new("fps")).unwrap();
    assert_eq!(fps.suffix, "fps");
    assert!(fps.is_enabled);
}

#[test]
fn diagnostic_filed_under_another_key_is_switched_by_its_own_path() {
    let mut store = store_with(&["fps", "frame_time", "other"]);
    // "frame_time" now holds a diagnostic whose own path is "x",
    // and "other" holds one whose own path is "fps".
    *store.get_mut(&DiagnosticPath::const_new("frame_time")).unwrap() =
        Diagnostic::new(DiagnosticPath::const_new("x"));
    *store.get_mut(&DiagnosticPath::const_new("other")).unwrap() =
        Diagnostic::new(DiagnosticPath::const_new("fps"));
    disable(&mut store);
    assert!(!enabled(&store, "frame_time"));
    assert!(enabled(&store, "other"));
    assert!(enabled(&store, "fps"));
    toggle_diag(&mut store);
    assert!(enabled(&store, "frame_time"));
    assert!(enabled(&store, "other"));
    assert!(enabled(&store, "fps"));
}

#[test]
fn toggles_after_disable_alternate() {
    let mut store = store_with(&["fps", "frame_time", "entity_count"]);
    store.get_mut(&DiagnosticPath::const_new("fps")).unwrap().is_enabled = false;
    disable(&mut store);
    for k in 1..=5 {
        toggle_diag(&mut store);
        assert_eq!(enabled(&store, "frame_time"), k % 2 == 1);
        assert_eq!(enabled(&store, "entity_count"), k % 2 == 1);
        assert!(!enabled(&store, "fps"));
    }
}
