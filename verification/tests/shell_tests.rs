use gui_shell::AlphaMode;
use gui_shell::AppState;
use gui_shell::FrameCycle;
use gui_shell::FrameInput;
use gui_shell::ShellAction;
use gui_shell::ShellEvent;
use gui_shell::SurfaceCaps;
use gui_shell::SurfaceFormat;

fn caps() -> SurfaceCaps {
    SurfaceCaps {
        formats: vec![SurfaceFormat::Bgra8Unorm, SurfaceFormat::Bgra8UnormSrgb],
        alpha_modes: vec![AlphaMode::Opaque],
    }
}

fn no_clicks() -> FrameInput {
    FrameInput { action_clicked: false, minus_clicked: false, plus_clicked: false }
}

#[test]
fn starts_with_the_initial_window_size() {
    let st = AppState::new(1360, 768, &caps()).unwrap();
    assert_eq!(st.surface_config.width, 1360);
    assert_eq!(st.surface_config.height, 768);
    assert_eq!(st.scale_factor.tenths(), 10);
    assert!(!st.close_requested);
}

#[test]
fn fails_without_the_preferred_format() {
    let bad = SurfaceCaps {
        formats: vec![SurfaceFormat::Rgba8UnormSrgb],
        alpha_modes: vec![AlphaMode::Opaque],
    };
    assert!(AppState::new(1360, 768, &bad).is_none());
}

#[test]
fn redraw_renders_at_the_current_size() {
    let mut st = AppState::new(1360, 768, &caps()).unwrap();
    let a = st.handle_event(ShellEvent::RedrawRequested);
    assert_eq!(a, ShellAction::Render(1360, 768));
}

#[test]
fn resize_reconfigures_and_the_next_frame_matches() {
    let mut st = AppState::new(1360, 768, &caps()).unwrap();
    let a = st.handle_event(ShellEvent::Resized(800, 600));
    assert_eq!(a, ShellAction::Reconfigure(800, 600));
    assert_eq!(st.surface_config.width, 800);
    assert_eq!(st.surface_config.height, 600);
    let b = st.handle_event(ShellEvent::RedrawRequested);
    assert_eq!(b, ShellAction::Render(800, 600));
}

#[test]
fn close_exits_and_nothing_renders_after() {
    let mut st = AppState::new(1360, 768, &caps()).unwrap();
    let a = st.handle_event(ShellEvent::CloseRequested);
    assert_eq!(a, ShellAction::Exit);
    assert!(st.close_requested);
    let b = st.handle_event(ShellEvent::RedrawRequested);
    assert_eq!(b, ShellAction::Ignore);
    let c = st.handle_event(ShellEvent::Resized(10, 10));
    assert_eq!(c, ShellAction::Reconfigure(10, 10));
    let d = st.handle_event(ShellEvent::RedrawRequested);
    assert_eq!(d, ShellAction::Ignore);
}

#[test]
fn other_events_are_ignored() {
    let mut st = AppState::new(1360, 768, &caps()).unwrap();
    let a = st.handle_event(ShellEvent::Other);
    assert_eq!(a, ShellAction::Ignore);
    assert_eq!(st.surface_config.width, 1360);
    assert!(!st.close_requested);
}

#[test]
fn three_plus_clicks_then_clamp_to_three() {
    let mut st = AppState::new(1360, 768, &caps()).unwrap();
    let plus = FrameInput { action_clicked: false, minus_clicked: false, plus_clicked: true };
    for _ in 0..3 {
        st.run_ui_frame(plus);
    }
    assert_eq!(st.scale_factor.tenths(), 13);
    for _ in 0..30 {
        st.run_ui_frame(plus);
    }
    assert_eq!(st.scale_factor.tenths(), 30);
}

#[test]
fn minus_applies_before_plus_in_one_frame() {
    let mut st = AppState::new(1360, 768, &caps()).unwrap();
    let both = FrameInput { action_clicked: false, minus_clicked: true, plus_clicked: true };
    st.run_ui_frame(both);
    assert_eq!(st.scale_factor.tenths(), 10);
}

#[test]
fn action_button_asks_for_the_console_message() {
    let mut st = AppState::new(1360, 768, &caps()).unwrap();
    let clicked = FrameInput { action_clicked: true, minus_clicked: false, plus_clicked: false };
    assert!(st.run_ui_frame(clicked));
    assert!(!st.run_ui_frame(no_clicks()));
}

#[test]
fn a_frame_runs_its_stages_in_order() {
    let mut st = AppState::new(1360, 768, &caps()).unwrap();
    let mut cycle = FrameCycle::new();
    cycle.buffer_input();
    let log = cycle.build_ui(&mut st, no_clicks());
    assert!(!log);
    cycle.tessellate();
    cycle.submit();
    cycle.present();
    let log2 = {
        cycle.buffer_input();
        cycle.build_ui(
            &mut st,
            FrameInput { action_clicked: true, minus_clicked: false, plus_clicked: true },
        )
    };
    assert!(log2);
    assert_eq!(st.scale_factor.tenths(), 11);
    cycle.tessellate();
    cycle.submit();
    cycle.present();
}
