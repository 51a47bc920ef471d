use gui_shell::TexEvent;
use gui_shell::TextureTracker;
use gui_shell::check_texture_trace;

#[test]
fn tracker_add_then_free() {
    let mut t = TextureTracker::new();
    assert_eq!(t.live_count(), 0);
    assert!(t.add(7));
    assert!(t.is_live(7));
    assert_eq!(t.live_count(), 1);
    assert!(t.free(7));
    assert!(!t.is_live(7));
    assert_eq!(t.live_count(), 0);
}

#[test]
fn tracker_refuses_double_add_and_stray_free() {
    let mut t = TextureTracker::new();
    assert!(t.add(1));
    assert!(!t.add(1));
    assert!(t.is_live(1));
    assert!(!t.free(2));
    assert!(t.free(1));
    assert!(!t.free(1));
}

#[test]
fn complete_lifecycle_is_accepted() {
    let trace = vec![
        TexEvent::Added(1),
        TexEvent::Added(2),
        TexEvent::Rendered(1),
        TexEvent::Rendered(2),
        TexEvent::Freed(1),
        TexEvent::Rendered(2),
        TexEvent::Freed(2),
    ];
    assert!(check_texture_trace(&trace));
}

#[test]
fn empty_trace_is_complete() {
    let trace: Vec<TexEvent> = vec![];
    assert!(check_texture_trace(&trace));
}

#[test]
fn render_before_upload_is_refused() {
    let trace = vec![TexEvent::Rendered(1), TexEvent::Added(1), TexEvent::Freed(1)];
    assert!(!check_texture_trace(&trace));
}

#[test]
fn render_after_free_is_refused() {
    let trace = vec![
        TexEvent::Added(1),
        TexEvent::Freed(1),
        TexEvent::Rendered(1),
    ];
    assert!(!check_texture_trace(&trace));
}

#[test]
fn leaked_texture_is_refused() {
    let trace = vec![TexEvent::Added(1), TexEvent::Rendered(1)];
    assert!(!check_texture_trace(&trace));
}

#[test]
fn free_without_upload_is_refused() {
    let trace = vec![TexEvent::Freed(1)];
    assert!(!check_texture_trace(&trace));
}

#[test]
fn double_upload_is_refused() {
    let trace = vec![TexEvent::Added(1), TexEvent::Added(1), TexEvent::Freed(1)];
    assert!(!check_texture_trace(&trace));
}

#[test]
fn reuse_of_an_id_after_free_is_accepted() {
    let trace = vec![
        TexEvent::Added(1),
        TexEvent::Rendered(1),
        TexEvent::Freed(1),
        TexEvent::Added(1),
        TexEvent::Rendered(1),
        TexEvent::Freed(1),
    ];
    assert!(check_texture_trace(&trace));
}
