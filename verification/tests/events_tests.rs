use metaagent::events::{
    map_key_event, map_mouse_event, map_mouse_event_kind, AppEvent, KeyCode, KeyEvent,
    KeyEventKind, KeyModifiers, LeftMouseState, MouseButton, MouseEvent, MouseEventKind,
};

fn mouse_event(kind: MouseEventKind, column: u16, row: u16) -> MouseEvent {
    MouseEvent { kind, column, row }
}

#[test]
fn maps_navigation_and_quit_keys() {
    assert_eq!(
        map_key_event(KeyEvent::new(KeyCode::Tab, KeyModifiers::none())),
        AppEvent::NextPane
    );
    assert_eq!(
        map_key_event(KeyEvent::new(KeyCode::BackTab, KeyModifiers::shift())),
        AppEvent::PrevPane
    );
    assert_eq!(
        map_key_event(KeyEvent::new(KeyCode::Char('c'), KeyModifiers::control())),
        AppEvent::Quit
    );
}

#[test]
fn maps_escape_to_tick() {
    assert_eq!(
        map_key_event(KeyEvent::new(KeyCode::Esc, KeyModifiers::none())),
        AppEvent::Tick
    );
}

#[test]
fn maps_movement_keys() {
    assert_eq!(
        map_key_event(KeyEvent::new(KeyCode::Down, KeyModifiers::none())),
        AppEvent::MoveDown
    );
    assert_eq!(
        map_key_event(KeyEvent::new(KeyCode::Up, KeyModifiers::none())),
        AppEvent::MoveUp
    );
    assert_eq!(
        map_key_event(KeyEvent::new(KeyCode::Left, KeyModifiers::none())),
        AppEvent::CursorLeft
    );
    assert_eq!(
        map_key_event(KeyEvent::new(KeyCode::Right, KeyModifiers::none())),
        AppEvent::CursorRight
    );
}

#[test]
fn maps_shift_up_down_to_chat_scroll() {
    assert_eq!(
        map_key_event(KeyEvent::new(KeyCode::Up, KeyModifiers::shift())),
        AppEvent::ScrollChatUp
    );
    assert_eq!(
        map_key_event(KeyEvent::new(KeyCode::Down, KeyModifiers::shift())),
        AppEvent::ScrollChatDown
    );
    assert_eq!(
        map_key_event(KeyEvent::new(KeyCode::Up, KeyModifiers::control())),
        AppEvent::ScrollChatUp
    );
    assert_eq!(
        map_key_event(KeyEvent::new(KeyCode::Down, KeyModifiers::control())),
        AppEvent::ScrollChatDown
    );
}

#[test]
fn maps_page_up_down_to_right_pane_global_scroll() {
    assert_eq!(
        map_key_event(KeyEvent::new(KeyCode::PageUp, KeyModifiers::none())),
        AppEvent::ScrollRightUpGlobal
    );
    assert_eq!(
        map_key_event(KeyEvent::new(KeyCode::PageDown, KeyModifiers::none())),
        AppEvent::ScrollRightDownGlobal
    );
}

#[test]
fn maps_ctrl_u_d_to_right_pane_scroll_regardless_of_focus() {
    assert_eq!(
        map_key_event(KeyEvent::new(KeyCode::Char('u'), KeyModifiers::control())),
        AppEvent::ScrollRightUpGlobal
    );
    assert_eq!(
        map_key_event(KeyEvent::new(KeyCode::Char('d'), KeyModifiers::control())),
        AppEvent::ScrollRightDownGlobal
    );
}

#[test]
fn maps_unhandled_keys_to_tick() {
    assert_eq!(
        map_key_event(KeyEvent::new(KeyCode::F(1), KeyModifiers::none())),
        AppEvent::Tick
    );
}

#[test]
fn maps_mouse_wheel_to_active_scroll_events() {
    assert_eq!(
        map_mouse_event_kind(MouseEventKind::ScrollUp),
        AppEvent::MouseScrollUp
    );
    assert_eq!(
        map_mouse_event_kind(MouseEventKind::ScrollDown),
        AppEvent::MouseScrollDown
    );
}

#[test]
fn maps_left_click_mouse_down() {
    assert_eq!(
        map_mouse_event_kind(MouseEventKind::Down(MouseButton::Left)),
        AppEvent::MouseLeftClick(0, 0)
    );
}

#[test]
fn left_click_emits_only_on_release_without_drag() {
    let mut state = LeftMouseState::new();

    assert_eq!(
        map_mouse_event(&mut state, mouse_event(MouseEventKind::Down(MouseButton::Left), 8, 4)),
        AppEvent::Tick
    );
    assert_eq!(
        map_mouse_event(&mut state, mouse_event(MouseEventKind::Up(MouseButton::Left), 10, 6)),
        AppEvent::MouseLeftClick(10, 6)
    );
}

#[test]
fn left_drag_sequence_does_not_emit_click() {
    let mut state = LeftMouseState::new();

    assert_eq!(
        map_mouse_event(&mut state, mouse_event(MouseEventKind::Down(MouseButton::Left), 8, 4)),
        AppEvent::Tick
    );
    assert_eq!(
        map_mouse_event(&mut state, mouse_event(MouseEventKind::Drag(MouseButton::Left), 20, 10)),
        AppEvent::Tick
    );
    assert_eq!(
        map_mouse_event(&mut state, mouse_event(MouseEventKind::Up(MouseButton::Left), 20, 10)),
        AppEvent::Tick
    );
}

#[test]
fn maps_text_editing_keys() {
    assert_eq!(
        map_key_event(KeyEvent::new(KeyCode::Char('k'), KeyModifiers::none())),
        AppEvent::InputChar('k')
    );
    assert_eq!(
        map_key_event(KeyEvent::new(KeyCode::Backspace, KeyModifiers::none())),
        AppEvent::Backspace
    );
    assert_eq!(
        map_key_event(KeyEvent::new(KeyCode::Enter, KeyModifiers::none())),
        AppEvent::Submit
    );
    assert_eq!(
        map_key_event(KeyEvent::new(KeyCode::Enter, KeyModifiers::shift())),
        AppEvent::InsertNewline
    );
    assert_eq!(
        map_key_event(KeyEvent::new(KeyCode::Enter, KeyModifiers::control())),
        AppEvent::InsertNewline
    );
    assert_eq!(
        map_key_event(KeyEvent::new(KeyCode::Enter, KeyModifiers::alt())),
        AppEvent::InsertNewline
    );
    assert_eq!(
        map_key_event(KeyEvent::new(KeyCode::Char('\n'), KeyModifiers::none())),
        AppEvent::InsertNewline
    );
}

#[test]
fn maps_left_with_ctrl_or_alt_to_word_left() {
    assert_eq!(
        map_key_event(KeyEvent::new(KeyCode::Left, KeyModifiers::control())),
        AppEvent::CursorLeftWord
    );
    assert_eq!(
        map_key_event(KeyEvent::new(KeyCode::Left, KeyModifiers::alt())),
        AppEvent::CursorLeftWord
    );
    assert_eq!(
        map_key_event(KeyEvent::new(KeyCode::Left, KeyModifiers::shift())),
        AppEvent::CursorLeft
    );
    assert_eq!(
        map_key_event(KeyEvent::new(KeyCode::Right, KeyModifiers::control())),
        AppEvent::CursorRightWord
    );
    assert_eq!(
        map_key_event(KeyEvent::new(KeyCode::Right, KeyModifiers::alt())),
        AppEvent::CursorRightWord
    );
    assert_eq!(
        map_key_event(KeyEvent::new(KeyCode::Right, KeyModifiers::shift())),
        AppEvent::CursorRight
    );
}

#[test]
fn shifted_letters_are_typed_as_they_come() {
    assert_eq!(
        map_key_event(KeyEvent::new(KeyCode::Char('c'), KeyModifiers::shift())),
        AppEvent::InputChar('c')
    );
    assert_eq!(
        map_key_event(KeyEvent::new(KeyCode::Char('x'), KeyModifiers::control())),
        AppEvent::InputChar('x')
    );
}

#[test]
fn only_presses_count() {
    for kind in [KeyEventKind::Release, KeyEventKind::Repeat] {
        let event = KeyEvent { code: KeyCode::Char('c'), modifiers: KeyModifiers::control(), kind };
        assert_eq!(map_key_event(event), AppEvent::Tick);
    }
}

#[test]
fn release_without_press_and_other_buttons_report_nothing() {
    let mut state = LeftMouseState::new();
    assert_eq!(
        map_mouse_event(&mut state, mouse_event(MouseEventKind::Up(MouseButton::Left), 1, 1)),
        AppEvent::Tick
    );
    assert_eq!(
        map_mouse_event(&mut state, mouse_event(MouseEventKind::Drag(MouseButton::Left), 1, 1)),
        AppEvent::Tick
    );
    assert_eq!(state, LeftMouseState::new());
    assert_eq!(
        map_mouse_event(&mut state, mouse_event(MouseEventKind::Down(MouseButton::Right), 1, 1)),
        AppEvent::Tick
    );
    assert_eq!(
        map_mouse_event(&mut state, mouse_event(MouseEventKind::ScrollUp, 3, 3)),
        AppEvent::MouseScrollUp
    );
    assert_eq!(state, LeftMouseState::new());
}
