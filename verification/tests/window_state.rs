use tauri_plugin_egui::geometry::PhysicalPosition;
use tauri_plugin_egui::input::{InputEvent, MouseButton, NativeEvent};
use tauri_plugin_egui::window::EguiWindow;

fn cursor_moved(x_milli: u64, y_milli: u64) -> NativeEvent {
    NativeEvent::CursorMoved { position: PhysicalPosition { x: x_milli, y: y_milli } }
}

#[test]
fn events_accumulate_in_order_and_drain_once() {
    let mut w = EguiWindow::new(800, 600, 1000, 0);
    assert!(w.handle_event(&cursor_moved(10_000, 20_000)));
    assert!(w.handle_event(&cursor_moved(30_000, 40_000)));
    assert!(w.handle_event(&NativeEvent::MouseInput {
        pressed: true,
        button: MouseButton::Left,
    }));

    let snapshot = w.take_egui_input(0);
    assert_eq!(snapshot.events.len(), 3);
    match snapshot.events[0] {
        InputEvent::PointerMoved { pos } => {
            assert_eq!((pos.x, pos.y), (10_000, 20_000));
        }
        ref other => panic!("expected a pointer-moved event, got {:?}", other),
    }
    match snapshot.events[2] {
        InputEvent::PointerButton { pos, .. } => {
            assert_eq!((pos.x, pos.y), (30_000, 40_000));
        }
        ref other => panic!("expected a pointer-button event, got {:?}", other),
    }

    let empty = w.take_egui_input(0);
    assert!(empty.events.is_empty());
}

#[test]
fn last_pointer_move_wins() {
    let mut w = EguiWindow::new(800, 600, 1000, 0);
    w.handle_event(&cursor_moved(1_000, 1_000));
    w.handle_event(&cursor_moved(2_000, 2_000));
    w.handle_event(&cursor_moved(3_000, 4_000));
    w.handle_event(&NativeEvent::MouseInput { pressed: true, button: MouseButton::Middle });

    let snapshot = w.take_egui_input(0);
    match snapshot.events[3] {
        InputEvent::PointerButton { pos, .. } => {
            assert_eq!((pos.x, pos.y), (3_000, 4_000));
        }
        ref other => panic!("expected a pointer-button event, got {:?}", other),
    }
}

#[test]
fn drain_stamps_elapsed_time_and_viewport() {
    let mut w = EguiWindow::new(800, 600, 1000, 1_000);
    let snapshot = w.take_egui_input(3_500);
    assert_eq!(snapshot.elapsed_millis, 2_500);
    assert_eq!(snapshot.screen_rect.width, 800_000);
    assert_eq!(snapshot.screen_rect.height, 600_000);

    let mut hidpi = EguiWindow::new(800, 600, 2000, 0);
    let snapshot = hidpi.take_egui_input(0);
    assert_eq!(snapshot.screen_rect.width, 400_000);
    assert_eq!(snapshot.screen_rect.height, 300_000);
}

#[test]
fn elapsed_time_is_clamped_at_zero() {
    let mut w = EguiWindow::new(100, 100, 1000, 5_000);
    let snapshot = w.take_egui_input(4_000);
    assert_eq!(snapshot.elapsed_millis, 0);
}

#[test]
fn resize_changes_only_the_size() {
    let mut w = EguiWindow::new(800, 600, 1000, 0);
    w.handle_event(&cursor_moved(1_000, 1_000));
    w.resize(400, 300);
    assert_eq!(w.size.width, 400);
    assert_eq!(w.size.height, 300);

    let snapshot = w.take_egui_input(0);
    assert_eq!(snapshot.events.len(), 1);
    assert_eq!(snapshot.screen_rect.width, 400_000);
    assert_eq!(snapshot.screen_rect.height, 300_000);
}
