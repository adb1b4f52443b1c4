use computer_mark_up::input_handler::{InputHandler, KEY_CODE_COUNT, WindowInputEvent};

#[test]
fn fresh_handler_reports_nothing_pressed() {
    let input = InputHandler::new_default();
    assert_eq!(input.get_mouse_pos(), (0, 0));
    for code in 0..KEY_CODE_COUNT {
        assert!(!input.get_key_press(code));
    }
    assert!(input.get_keys_pressed().is_empty());
}

#[test]
fn unknown_key_counts_as_released() {
    let input = InputHandler::new_default();
    assert!(!input.get_key_press(KEY_CODE_COUNT + 7));
}

#[test]
fn key_presses_are_recorded_and_released() {
    let mut input = InputHandler::new_default();
    input.set_key_state(3, true);
    assert!(input.get_key_press(3));
    assert!(!input.get_key_press(4));
    input.set_key_state(3, false);
    assert!(!input.get_key_press(3));
}

#[test]
fn pressed_list_holds_each_pressed_key_once() {
    let mut input = InputHandler::new_default();
    input.set_key_state(3, true);
    input.set_key_state(40, true);
    input.set_key_state(40, true);
    input.set_key_state(7, true);
    input.set_key_state(7, false);
    let mut pressed = input.get_keys_pressed();
    pressed.sort();
    assert_eq!(pressed, vec![3, 40]);
}

#[test]
fn window_events_drive_the_snapshot() {
    let mut input = InputHandler::new_default();
    assert!(input.handle_window_event(WindowInputEvent::CursorMoved { x: 850, y: 50 }));
    assert_eq!(input.get_mouse_pos(), (850, 50));
    assert!(input.handle_window_event(WindowInputEvent::Key { code: 9, pressed: true }));
    assert!(input.get_key_press(9));
    assert!(!input.handle_window_event(WindowInputEvent::Other));
    assert_eq!(input.get_mouse_pos(), (850, 50));
    assert!(input.get_key_press(9));
}

#[test]
fn mouse_position_updates_do_not_touch_keys() {
    let mut input = InputHandler::new_default();
    input.set_key_state(11, true);
    input.set_mouse_position(-5, 17);
    assert_eq!(input.get_mouse_pos(), (-5, 17));
    assert!(input.get_key_press(11));
}
