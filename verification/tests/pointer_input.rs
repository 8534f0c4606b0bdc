use engine::mouse::button_from_code;
use engine::mouse::MouseButton;
use engine::mouse::MouseEventKind;
use engine::mouse::MouseManager;
use engine::mouse::PointerEvent;
use engine::mouse::MOUSE_EVENT_MAX;

fn ev(kind: MouseEventKind, button: MouseButton, x: i32, y: i32) -> PointerEvent {
    PointerEvent { kind, button, x, y }
}

#[test]
fn pointer_press_release_lifecycle() {
    let mut mouse = MouseManager::new();
    mouse.push_event(ev(MouseEventKind::Down, MouseButton::Left, 10, 20));
    mouse.pre_tick_process_mouse_state();
    assert!(mouse.state().button_pressed(MouseButton::Left));
    assert!(mouse.state().button_down(MouseButton::Left));
    assert_eq!(mouse.state().position(), (10, 20));

    mouse.push_event(ev(MouseEventKind::Up, MouseButton::Left, 10, 20));
    mouse.pre_tick_process_mouse_state();
    assert!(mouse.state().button_up(MouseButton::Left));
    assert!(!mouse.state().button_pressed(MouseButton::Left));

    mouse.pre_tick_process_mouse_state();
    assert!(!mouse.state().button_down(MouseButton::Left));
    assert!(!mouse.state().button_pressed(MouseButton::Left));
    assert!(!mouse.state().button_up(MouseButton::Left));
}

#[test]
fn held_button_survives_frames_until_released() {
    let mut mouse = MouseManager::new();
    mouse.push_event(ev(MouseEventKind::Down, MouseButton::Right, 0, 0));
    mouse.pre_tick_process_mouse_state();
    assert!(mouse.state().button_down(MouseButton::Right));
    mouse.pre_tick_process_mouse_state();
    assert!(!mouse.state().button_down(MouseButton::Right));
    assert!(mouse.state().button_pressed(MouseButton::Right));
}

#[test]
fn moves_update_position_and_delta() {
    let mut mouse = MouseManager::new();
    mouse.push_event(ev(MouseEventKind::Move, MouseButton::Left, 5, 7));
    mouse.push_event(ev(MouseEventKind::Move, MouseButton::Left, 30, 50));
    mouse.pre_tick_process_mouse_state();
    assert_eq!(mouse.state().position(), (30, 50));
    assert_eq!(mouse.state().delta(), (30, 50));

    mouse.pre_tick_process_mouse_state();
    assert_eq!(mouse.state().position(), (30, 50));
    assert_eq!(mouse.state().delta(), (0, 0));
}

#[test]
fn full_queue_drops_newest_and_counts() {
    let mut mouse = MouseManager::new();
    for i in 0..MOUSE_EVENT_MAX {
        mouse.push_event(ev(MouseEventKind::Move, MouseButton::Left, i as i32, 0));
    }
    assert_eq!(mouse.dropped_events(), 0);
    mouse.push_event(ev(MouseEventKind::Move, MouseButton::Left, -1, -1));
    mouse.push_event(ev(MouseEventKind::Move, MouseButton::Left, -2, -2));
    assert_eq!(mouse.dropped_events(), 2);

    mouse.pre_tick_process_mouse_state();
    assert_eq!(mouse.state().position(), ((MOUSE_EVENT_MAX - 1) as i64, 0));
}

#[test]
fn button_codes_map_to_buttons() {
    assert_eq!(button_from_code(0), Some(MouseButton::Left));
    assert_eq!(button_from_code(1), Some(MouseButton::Middle));
    assert_eq!(button_from_code(2), Some(MouseButton::Right));
    assert_eq!(button_from_code(3), None);
    assert_eq!(button_from_code(-1), None);
}
