use tauri_plugin_egui::geometry::PhysicalPosition;
use tauri_plugin_egui::input::{InputEvent, MouseButton, NativeEvent};
use tauri_plugin_egui::models::EguiWindowConfig;
use tauri_plugin_egui::plugin::{
    control_flow_policy, finish_frame, Action, ControlFlowMode, EguiPlugin,
};

fn cursor_moved(x_milli: u64, y_milli: u64) -> NativeEvent {
    NativeEvent::CursorMoved { position: PhysicalPosition { x: x_milli, y: y_milli } }
}

#[test]
fn registration_is_tracked_and_replacement_returns_the_prior_window() {
    let mut plugin = EguiPlugin::new();
    assert!(!plugin.windows.has_egui_window("main"));

    let prior = plugin.start_egui_for_window(String::from("main"), 800, 600, 1000, 0);
    assert!(prior.is_none());
    assert!(plugin.windows.has_egui_window("main"));
    assert!(!plugin.windows.has_egui_window("other"));

    let prior = plugin.start_egui_for_window(String::from("main"), 1024, 768, 1000, 0);
    match prior {
        Some(w) => assert_eq!((w.size.width, w.size.height), (800, 600)),
        None => panic!("re-registration must hand back the prior window"),
    }
}

#[test]
fn unmanaged_windows_are_silently_ignored() {
    let mut plugin = EguiPlugin::new();
    let outcome = plugin.on_window_event("ghost", &cursor_moved(1_000, 1_000));
    assert!(!outcome.consumed);
    assert!(outcome.action.is_none());
    assert!(plugin.on_redraw_requested("ghost", 0).is_none());
    assert!(plugin.after_frame("ghost").is_none());
}

#[test]
fn scenario_main_window_move_then_resize() {
    let mut plugin = EguiPlugin::new();
    plugin.start_egui_for_window(String::from("main"), 800, 600, 1000, 0);

    let outcome = plugin.on_window_event("main", &cursor_moved(100_000, 50_000));
    assert!(outcome.consumed);
    assert_eq!(outcome.action, Some(Action::RequestRedraw));

    let frame = plugin.on_redraw_requested("main", 16).expect("window is managed");
    assert_eq!(frame.screen.width, 800);
    assert_eq!(frame.screen.height, 600);
    assert_eq!(frame.raw_input.events.len(), 1);
    match frame.raw_input.events[0] {
        InputEvent::PointerMoved { pos } => {
            assert_eq!((pos.x, pos.y), (100_000, 50_000));
        }
        ref other => panic!("expected a pointer-moved event, got {:?}", other),
    }

    let outcome = plugin.on_window_event(
        "main",
        &NativeEvent::Resized { width: 400, height: 300 },
    );
    assert!(outcome.consumed);
    assert_eq!(outcome.action, Some(Action::ResizeRenderer { width: 400, height: 300 }));

    let frame = plugin.on_redraw_requested("main", 32).expect("window is managed");
    assert_eq!(frame.screen.width, 400);
    assert_eq!(frame.screen.height, 300);
    assert!(frame.raw_input.events.is_empty());
}

#[test]
fn input_events_request_a_redraw_even_when_not_consumed() {
    let mut plugin = EguiPlugin::new();
    plugin.start_egui_for_window(String::from("main"), 800, 600, 1000, 0);
    let outcome = plugin.on_window_event(
        "main",
        &NativeEvent::MouseInput { pressed: true, button: MouseButton::Other },
    );
    assert!(!outcome.consumed);
    assert_eq!(outcome.action, Some(Action::RequestRedraw));
}

#[test]
fn repaint_request_drives_exactly_one_more_redraw() {
    assert_eq!(finish_frame(true), Some(Action::RequestRedraw));
    assert_eq!(finish_frame(false), None);
}

#[test]
fn animation_loop_follows_the_contexts_repaint_flag() {
    let mut plugin = EguiPlugin::new();
    plugin.start_egui_for_window(String::from("main"), 800, 600, 1000, 0);
    let ctx = plugin.windows.get_context("main").expect("window is managed");
    ctx.request_repaint();
    assert_eq!(plugin.after_frame("main"), Some(Action::RequestRedraw));
}

#[test]
fn get_context_hands_out_the_windows_context() {
    let mut plugin = EguiPlugin::new();
    assert!(plugin.windows.get_context("main").is_none());
    plugin.start_egui_for_window(String::from("main"), 800, 600, 1000, 0);
    assert!(plugin.windows.get_context("main").is_some());
}

#[test]
fn removing_a_window_unmanages_it() {
    let mut plugin = EguiPlugin::new();
    plugin.start_egui_for_window(String::from("main"), 800, 600, 1000, 0);
    let removed = plugin.windows.remove("main");
    assert!(removed.is_some());
    assert!(!plugin.windows.has_egui_window("main"));
    assert!(plugin.windows.remove("main").is_none());
}

#[test]
fn windows_accumulate_input_independently() {
    let mut plugin = EguiPlugin::new();
    plugin.start_egui_for_window(String::from("main"), 800, 600, 1000, 0);
    plugin.start_egui_for_window(String::from("tools"), 200, 400, 1000, 0);

    plugin.on_window_event("main", &cursor_moved(10_000, 10_000));
    plugin.on_window_event("tools", &cursor_moved(20_000, 20_000));
    plugin.on_window_event("main", &cursor_moved(30_000, 30_000));

    let main_frame = plugin.on_redraw_requested("main", 0).expect("window is managed");
    assert_eq!(main_frame.raw_input.events.len(), 2);
    let tools_frame = plugin.on_redraw_requested("tools", 0).expect("window is managed");
    assert_eq!(tools_frame.raw_input.events.len(), 1);
    match tools_frame.raw_input.events[0] {
        InputEvent::PointerMoved { pos } => assert_eq!((pos.x, pos.y), (20_000, 20_000)),
        ref other => panic!("expected a pointer-moved event, got {:?}", other),
    }
}

#[test]
fn the_host_loop_is_asked_to_poll() {
    assert_eq!(control_flow_policy(), ControlFlowMode::Poll);
}

#[test]
fn window_config_defaults() {
    let config = EguiWindowConfig::default();
    assert_eq!(config.title, "Egui Window");
    assert_eq!(config.width, 800);
    assert_eq!(config.height, 600);
    assert!(config.resizable);
    assert!(!config.transparent);
}
