use tauri_plugin_egui::geometry::{LogicalPos, PhysicalPosition, ScaleFactor};
use tauri_plugin_egui::input::{
    translate, translate_char, translate_key, InputEvent, Key, MouseButton, NativeEvent,
    NativeKey, PointerButton, ScrollDelta,
};

#[test]
fn letters_translate_case_insensitively() {
    let table = vec![
        ('a', Key::A),
        ('b', Key::B),
        ('c', Key::C),
        ('d', Key::D),
        ('e', Key::E),
        ('f', Key::F),
        ('g', Key::G),
        ('h', Key::H),
        ('i', Key::I),
        ('j', Key::J),
        ('k', Key::K),
        ('l', Key::L),
        ('m', Key::M),
        ('n', Key::N),
        ('o', Key::O),
        ('p', Key::P),
        ('q', Key::Q),
        ('r', Key::R),
        ('s', Key::S),
        ('t', Key::T),
        ('u', Key::U),
        ('v', Key::V),
        ('w', Key::W),
        ('x', Key::X),
        ('y', Key::Y),
        ('z', Key::Z),
    ];
    assert_eq!(table.len(), 26);
    for (c, k) in table {
        assert_eq!(translate_char(c), Some(k));
        assert_eq!(translate_char(c.to_ascii_uppercase()), Some(k));
    }
}

#[test]
fn digits_and_named_keys_translate() {
    let table = vec![
        ('0', Key::Num0),
        ('1', Key::Num1),
        ('2', Key::Num2),
        ('3', Key::Num3),
        ('4', Key::Num4),
        ('5', Key::Num5),
        ('6', Key::Num6),
        ('7', Key::Num7),
        ('8', Key::Num8),
        ('9', Key::Num9),
        (' ', Key::Space),
        ('\t', Key::Tab),
        ('\n', Key::Enter),
        ('\r', Key::Enter),
        ('\u{8}', Key::Backspace),
        ('\u{7f}', Key::Delete),
        ('\u{1b}', Key::Escape),
    ];
    for (c, k) in table {
        assert_eq!(translate_char(c), Some(k));
    }
}

#[test]
fn characters_outside_the_table_yield_no_key() {
    for c in ['!', '@', '#', '-', '_', '=', '[', ';', ',', '.', '/', 'ä', 'é', '€', '\u{1}'] {
        assert_eq!(translate_char(c), None);
    }
}

#[test]
fn key_translation_reads_the_first_character() {
    let key = NativeKey::Character(String::from("abc"));
    assert_eq!(translate_key(&key), Some(Key::A));
    let empty = NativeKey::Character(String::new());
    assert_eq!(translate_key(&empty), None);
    assert_eq!(translate_key(&NativeKey::Other), None);
}

#[test]
fn cursor_move_divides_by_scale_factor() {
    let scale = ScaleFactor { millis: 1000 };
    let ev = NativeEvent::CursorMoved {
        position: PhysicalPosition { x: 100_000, y: 50_000 },
    };
    let translated = translate(&ev, None, &scale);
    match translated {
        Some(InputEvent::PointerMoved { pos }) => {
            assert_eq!(pos.x, 100_000);
            assert_eq!(pos.y, 50_000);
        }
        other => panic!("expected a pointer-moved event, got {:?}", other),
    }

    let hidpi = ScaleFactor { millis: 2000 };
    let translated = translate(&ev, None, &hidpi);
    match translated {
        Some(InputEvent::PointerMoved { pos }) => {
            assert_eq!(pos.x, 50_000);
            assert_eq!(pos.y, 25_000);
        }
        other => panic!("expected a pointer-moved event, got {:?}", other),
    }
}

#[test]
fn button_before_any_move_uses_origin() {
    let scale = ScaleFactor { millis: 1000 };
    let ev = NativeEvent::MouseInput { pressed: true, button: MouseButton::Left };
    let translated = translate(&ev, None, &scale);
    match translated {
        Some(InputEvent::PointerButton { pos, button, pressed }) => {
            assert_eq!(pos.x, 0);
            assert_eq!(pos.y, 0);
            assert_eq!(button, PointerButton::Primary);
            assert!(pressed);
        }
        other => panic!("expected a pointer-button event, got {:?}", other),
    }
}

#[test]
fn button_uses_last_known_position() {
    let scale = ScaleFactor { millis: 1000 };
    let last = LogicalPos { x: 12_500, y: 7_000 };
    let ev = NativeEvent::MouseInput { pressed: false, button: MouseButton::Right };
    let translated = translate(&ev, Some(last), &scale);
    match translated {
        Some(InputEvent::PointerButton { pos, button, pressed }) => {
            assert_eq!(pos, last);
            assert_eq!(button, PointerButton::Secondary);
            assert!(!pressed);
        }
        other => panic!("expected a pointer-button event, got {:?}", other),
    }
}

#[test]
fn extra_mouse_buttons_are_not_translated() {
    let scale = ScaleFactor { millis: 1000 };
    let ev = NativeEvent::MouseInput { pressed: true, button: MouseButton::Other };
    assert_eq!(translate(&ev, None, &scale), None);
}

#[test]
fn wheel_line_delta_scales_by_sixty_points_per_notch() {
    let scale = ScaleFactor { millis: 1000 };
    let ev = NativeEvent::MouseWheel { delta: ScrollDelta::LineDelta { x: 1000, y: -2000 } };
    match translate(&ev, None, &scale) {
        Some(InputEvent::MouseWheel { delta }) => {
            assert_eq!(delta.x, 60_000);
            assert_eq!(delta.y, -120_000);
        }
        other => panic!("expected a mouse-wheel event, got {:?}", other),
    }
}

#[test]
fn wheel_pixel_delta_divides_by_scale_factor() {
    let scale = ScaleFactor { millis: 2000 };
    let ev = NativeEvent::MouseWheel { delta: ScrollDelta::PixelDelta { x: -3000, y: 7000 } };
    match translate(&ev, None, &scale) {
        Some(InputEvent::MouseWheel { delta }) => {
            assert_eq!(delta.x, -1500);
            assert_eq!(delta.y, 3500);
        }
        other => panic!("expected a mouse-wheel event, got {:?}", other),
    }
}

#[test]
fn unmapped_event_kinds_translate_to_nothing() {
    let scale = ScaleFactor { millis: 1000 };
    assert_eq!(translate(&NativeEvent::Other, None, &scale), None);
    assert_eq!(
        translate(&NativeEvent::Resized { width: 10, height: 10 }, None, &scale),
        None
    );
    let unmapped_key = NativeEvent::KeyboardInput {
        key: NativeKey::Character(String::from("!")),
        pressed: true,
        repeat: false,
    };
    assert_eq!(translate(&unmapped_key, None, &scale), None);
}

#[test]
fn key_events_forward_pressed_and_repeat() {
    let scale = ScaleFactor { millis: 1000 };
    let ev = NativeEvent::KeyboardInput {
        key: NativeKey::Character(String::from("Q")),
        pressed: true,
        repeat: true,
    };
    match translate(&ev, None, &scale) {
        Some(InputEvent::Key { key, pressed, repeat }) => {
            assert_eq!(key, Key::Q);
            assert!(pressed);
            assert!(repeat);
        }
        other => panic!("expected a key event, got {:?}", other),
    }
}
