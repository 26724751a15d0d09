//! Terminal input, reduced to the events the application acts on.
//!
//! Keys and mouse actions are described here by plain values; whoever
//! reads the terminal fills them in.

use vstd::prelude::*;

verus! {

/// What the application can be asked to do by the keyboard or the mouse.
#[derive(Debug, Clone, Copy, PartialEq, Eq, Structural)]
pub enum AppEvent {
    Tick,
    Quit,
    NextPane,
    PrevPane,
    MoveUp,
    MoveDown,
    CursorLeft,
    CursorRight,
    CursorLeftWord,
    CursorRightWord,
    ScrollChatUp,
    ScrollChatDown,
    ScrollRightUpGlobal,
    ScrollRightDownGlobal,
    InputChar(char),
    Backspace,
    InsertNewline,
    Submit,
    MouseScrollUp,
    MouseScrollDown,
    MouseLeftClick(u16, u16),
}

/// The key of a key event. Keys the application gives no meaning to are `Other`.
#[derive(Debug, Clone, Copy, PartialEq, Eq, Structural)]
pub enum KeyCode {
    Char(char),
    Tab,
    BackTab,
    Up,
    Down,
    Left,
    Right,
    PageUp,
    PageDown,
    Backspace,
    Enter,
    Esc,
    F(u8),
    Other,
}

/// Whether a key went down, is held, or came up.
#[derive(Debug, Clone, Copy, PartialEq, Eq, Structural)]
pub enum KeyEventKind {
    Press,
    Repeat,
    Release,
}

/// The modifier keys held during a key event.
#[derive(Debug, Clone, Copy, PartialEq, Eq, Structural)]
pub struct KeyModifiers {
    pub shift: bool,
    pub control: bool,
    pub alt: bool,
}

impl KeyModifiers {
    /// No modifier key.
    pub fn none() -> (m: KeyModifiers)
        ensures
            m == (KeyModifiers { shift: false, control: false, alt: false }),
    {
        KeyModifiers { shift: false, control: false, alt: false }
    }

    /// The shift key alone.
    pub fn shift() -> (m: KeyModifiers)
        ensures
            m == (KeyModifiers { shift: true, control: false, alt: false }),
    {
        KeyModifiers { shift: true, control: false, alt: false }
    }

    /// The control key alone.
    pub fn control() -> (m: KeyModifiers)
        ensures
            m == (KeyModifiers { shift: false, control: true, alt: false }),
    {
        KeyModifiers { shift: false, control: true, alt: false }
    }

    /// The alt key alone.
    pub fn alt() -> (m: KeyModifiers)
        ensures
            m == (KeyModifiers { shift: false, control: false, alt: true }),
    {
        KeyModifiers { shift: false, control: false, alt: true }
    }
}

/// A key event.
#[derive(Debug, Clone, Copy, PartialEq, Eq, Structural)]
pub struct KeyEvent {
    pub code: KeyCode,
    pub modifiers: KeyModifiers,
    pub kind: KeyEventKind,
}

impl KeyEvent {
    /// The press of `code` with `modifiers` held.
    pub fn new(code: KeyCode, modifiers: KeyModifiers) -> (event: KeyEvent)
        ensures
            event == (KeyEvent { code, modifiers, kind: KeyEventKind::Press }),
    {
        KeyEvent { code, modifiers, kind: KeyEventKind::Press }
    }
}

/// A mouse button.
#[derive(Debug, Clone, Copy, PartialEq, Eq, Structural)]
pub enum MouseButton {
    Left,
    Right,
    Middle,
}

/// What the mouse did.
#[derive(Debug, Clone, Copy, PartialEq, Eq, Structural)]
pub enum MouseEventKind {
    Down(MouseButton),
    Up(MouseButton),
    Drag(MouseButton),
    Moved,
    ScrollDown,
    ScrollUp,
    ScrollLeft,
    ScrollRight,
}

/// A mouse event at a cell of the terminal.
#[derive(Debug, Clone, Copy, PartialEq, Eq, Structural)]
pub struct MouseEvent {
    pub kind: MouseEventKind,
    pub column: u16,
    pub row: u16,
}

/// What is remembered of the left mouse button between events: where it
/// went down, if it is down, and whether the mouse was dragged since.
#[derive(Debug, Clone, Copy, PartialEq, Eq)]
pub struct LeftMouseState {
    pub press_position: Option<(u16, u16)>,
    pub dragged_since_press: bool,
}

impl LeftMouseState {
    /// The state with the button up.
    pub fn new() -> (state: LeftMouseState)
        ensures
            state == released(),
    {
        LeftMouseState { press_position: None, dragged_since_press: false }
    }
}

/// The state with the button up.
pub open spec fn released() -> LeftMouseState {
    LeftMouseState { press_position: None, dragged_since_press: false }
}

/// What a key event asks for.
///
/// Only presses count. Control with `c`, `u` or `d` quits or scrolls the
/// right pane; these come before the meaning of the key itself. Shift or
/// control turn the up and down arrows into chat scrolling; control or alt
/// turn the left and right arrows into moves by a word; any of the three
/// turns Enter into a line break, which a line feed typed as a character
/// is as well.
pub open spec fn key_action(event: KeyEvent) -> AppEvent {
    if event.kind != KeyEventKind::Press {
        AppEvent::Tick
    } else if event.code == KeyCode::Char('c') && event.modifiers.control {
        AppEvent::Quit
    } else if event.code == KeyCode::Char('u') && event.modifiers.control {
        AppEvent::ScrollRightUpGlobal
    } else if event.code == KeyCode::Char('d') && event.modifiers.control {
        AppEvent::ScrollRightDownGlobal
    } else {
        match event.code {
            KeyCode::Tab => AppEvent::NextPane,
            KeyCode::BackTab => AppEvent::PrevPane,
            KeyCode::Up => if event.modifiers.shift || event.modifiers.control {
                AppEvent::ScrollChatUp
            } else {
                AppEvent::MoveUp
            },
            KeyCode::Down => if event.modifiers.shift || event.modifiers.control {
                AppEvent::ScrollChatDown
            } else {
                AppEvent::MoveDown
            },
            KeyCode::PageUp => AppEvent::ScrollRightUpGlobal,
            KeyCode::PageDown => AppEvent::ScrollRightDownGlobal,
            KeyCode::Left => if event.modifiers.control || event.modifiers.alt {
                AppEvent::CursorLeftWord
            } else {
                AppEvent::CursorLeft
            },
            KeyCode::Right => if event.modifiers.control || event.modifiers.alt {
                AppEvent::CursorRightWord
            } else {
                AppEvent::CursorRight
            },
            KeyCode::Backspace => AppEvent::Backspace,
            KeyCode::Enter => if event.modifiers.shift || event.modifiers.control
                || event.modifiers.alt {
                AppEvent::InsertNewline
            } else {
                AppEvent::Submit
            },
            KeyCode::Char(c) => if c == '\n' {
                AppEvent::InsertNewline
            } else {
                AppEvent::InputChar(c)
            },
            _ => AppEvent::Tick,
        }
    }
}

/// Whether `code` is the character `c`.
fn is_char(code: KeyCode, c: char) -> (same: bool)
    ensures
        same == (code == KeyCode::Char(c)),
{
    match code {
        KeyCode::Char(x) => x == c,
        _ => false,
    }
}

/// Turns a key event into what it asks for.
pub fn map_key_event(key_event: KeyEvent) -> (event: AppEvent)
    ensures
        event == key_action(key_event),
{
    match key_event.kind {
        KeyEventKind::Press => {},
        _ => {
            return AppEvent::Tick;
        },
    }

    if is_char(key_event.code, 'c') && key_event.modifiers.control {
        return AppEvent::Quit;
    }
    if is_char(key_event.code, 'u') && key_event.modifiers.control {
        return AppEvent::ScrollRightUpGlobal;
    }
    if is_char(key_event.code, 'd') && key_event.modifiers.control {
        return AppEvent::ScrollRightDownGlobal;
    }
    let shift_or_control = key_event.modifiers.shift || key_event.modifiers.control;
    let control_or_alt = key_event.modifiers.control || key_event.modifiers.alt;

    match key_event.code {
        KeyCode::Tab => AppEvent::NextPane,
        KeyCode::BackTab => AppEvent::PrevPane,
        KeyCode::Up => {
            if shift_or_control {
                AppEvent::ScrollChatUp
            } else {
                AppEvent::MoveUp
            }
        },
        KeyCode::Down => {
            if shift_or_control {
                AppEvent::ScrollChatDown
            } else {
                AppEvent::MoveDown
            }
        },
        KeyCode::PageUp => AppEvent::ScrollRightUpGlobal,
        KeyCode::PageDown => AppEvent::ScrollRightDownGlobal,
        KeyCode::Left => {
            if control_or_alt {
                AppEvent::CursorLeftWord
            } else {
                AppEvent::CursorLeft
            }
        },
        KeyCode::Right => {
            if control_or_alt {
                AppEvent::CursorRightWord
            } else {
                AppEvent::CursorRight
            }
        },
        KeyCode::Backspace => AppEvent::Backspace,
        KeyCode::Enter => {
            if shift_or_control || key_event.modifiers.alt {
                AppEvent::InsertNewline
            } else {
                AppEvent::Submit
            }
        },
        KeyCode::Char(c) => {
            if c == '\n' {
                AppEvent::InsertNewline
            } else {
                AppEvent::InputChar(c)
            }
        },
        _ => AppEvent::Tick,
    }
}

/// What a mouse action asks for when nothing is remembered of the left
/// button: the wheel scrolls, and the left button going down is a click at
/// the origin.
pub open spec fn mouse_kind_action(kind: MouseEventKind) -> AppEvent {
    match kind {
        MouseEventKind::ScrollUp => AppEvent::MouseScrollUp,
        MouseEventKind::ScrollDown => AppEvent::MouseScrollDown,
        MouseEventKind::Down(MouseButton::Left) => AppEvent::MouseLeftClick(0, 0),
        _ => AppEvent::Tick,
    }
}

/// Turns a mouse action into what it asks for, without regard to the cell.
pub fn map_mouse_event_kind(kind: MouseEventKind) -> (event: AppEvent)
    ensures
        event == mouse_kind_action(kind),
{
    match kind {
        MouseEventKind::ScrollUp => AppEvent::MouseScrollUp,
        MouseEventKind::ScrollDown => AppEvent::MouseScrollDown,
        MouseEventKind::Down(MouseButton::Left) => AppEvent::MouseLeftClick(0, 0),
        _ => AppEvent::Tick,
    }
}

/// What is remembered of the left button after `event`.
///
/// Going down records the cell and forgets any drag. A drag is noted only
/// while the button is down. Coming up forgets everything. Nothing else
/// touches the state.
pub open spec fn mouse_state_after(state: LeftMouseState, event: MouseEvent) -> LeftMouseState {
    match event.kind {
        MouseEventKind::Down(MouseButton::Left) => LeftMouseState {
            press_position: Some((event.column, event.row)),
            dragged_since_press: false,
        },
        MouseEventKind::Drag(MouseButton::Left) => LeftMouseState {
            press_position: state.press_position,
            dragged_since_press: state.dragged_since_press || state.press_position is Some,
        },
        MouseEventKind::Up(MouseButton::Left) => released(),
        _ => state,
    }
}

/// What a mouse event asks for, given what is remembered of the left button.
///
/// A click is reported when the left button comes up after having gone
/// down without a drag in between, at the cell where it came up. The
/// button going down and drags report nothing. The wheel scrolls.
pub open spec fn mouse_action(state: LeftMouseState, event: MouseEvent) -> AppEvent {
    match event.kind {
        MouseEventKind::Down(MouseButton::Left) => AppEvent::Tick,
        MouseEventKind::Drag(MouseButton::Left) => AppEvent::Tick,
        MouseEventKind::Up(MouseButton::Left) => if state.press_position is Some
            && !state.dragged_since_press {
            AppEvent::MouseLeftClick(event.column, event.row)
        } else {
            AppEvent::Tick
        },
        _ => mouse_kind_action(event.kind),
    }
}

/// Turns a mouse event into what it asks for, keeping track of the left
/// button in `state`.
pub fn map_mouse_event(state: &mut LeftMouseState, mouse_event: MouseEvent) -> (event: AppEvent)
    ensures
        event == mouse_action(*old(state), mouse_event),
        *final(state) == mouse_state_after(*old(state), mouse_event),
{
    match mouse_event.kind {
        MouseEventKind::Down(MouseButton::Left) => {
            state.press_position = Some((mouse_event.column, mouse_event.row));
            state.dragged_since_press = false;
            AppEvent::Tick
        },
        MouseEventKind::Drag(MouseButton::Left) => {
            if state.press_position.is_some() {
                state.dragged_since_press = true;
            }
            AppEvent::Tick
        },
        MouseEventKind::Up(MouseButton::Left) => {
            let should_emit_click = state.press_position.is_some() && !state.dragged_since_press;
            state.press_position = None;
            state.dragged_since_press = false;
            if should_emit_click {
                AppEvent::MouseLeftClick(mouse_event.column, mouse_event.row)
            } else {
                AppEvent::Tick
            }
        },
        _ => map_mouse_event_kind(mouse_event.kind),
    }
}

/// A click needs the button to go down first, and a drag in between
/// cancels it: after going down at any cell and coming up with no other
/// event in between, exactly one click is reported, at the cell of the
/// release; with a drag in between, none.
pub proof fn lemma_click_needs_press_without_drag(
    state: LeftMouseState,
    down: MouseEvent,
    drag: MouseEvent,
    up: MouseEvent,
)
    requires
        down.kind == MouseEventKind::Down(MouseButton::Left),
        drag.kind == MouseEventKind::Drag(MouseButton::Left),
        up.kind == MouseEventKind::Up(MouseButton::Left),
    ensures
        mouse_action(mouse_state_after(state, down), up) == AppEvent::MouseLeftClick(
            up.column,
            up.row,
        ),
        mouse_action(mouse_state_after(mouse_state_after(state, down), drag), up)
            == AppEvent::Tick,
        mouse_action(released(), up) == AppEvent::Tick,
        mouse_state_after(state, up) == released(),
{
}

} // verus!
