//! Input vocabulary: the button, touch and key values that arrive with
//! windowing events, and what the runtime makes of them.
use vstd::prelude::*;

verus! {

/// Whether a button or key went down or came up.
#[derive(Clone, Copy, Debug, PartialEq, Eq, Structural)]
pub enum ElementState {
    Pressed,
    Released,
}

/// The phase of a touch point.
#[derive(Clone, Copy, Debug, PartialEq, Eq, Structural)]
pub enum TouchPhase {
    Started,
    Moved,
    Ended,
    Cancelled,
}

/// The keys of the windowing system that the runtime gives a meaning to;
/// every other key is `Other`.
#[derive(Clone, Copy, Debug, PartialEq, Eq, Structural)]
pub enum VirtualKeyCode {
    Left,
    Right,
    Home,
    End,
    Back,
    Delete,
    Return,
    Escape,
    Other,
}

/// The non-character keys that the runtime forwards to its items.
#[derive(Clone, Copy, Debug, PartialEq, Eq, Structural)]
pub enum InternalKeyCode {
    Left,
    Right,
    Home,
    End,
    Back,
    Delete,
    Return,
    Escape,
}

/// The kind of a mouse event handed to a window.
#[derive(Clone, Copy, Debug, PartialEq, Eq, Structural)]
pub enum MouseEventType {
    MousePressed,
    MouseReleased,
    MouseMoved,
    MouseExit,
}

/// The kind of a key event handed to a window.
#[derive(Clone, Copy, Debug, PartialEq, Eq, Structural)]
pub enum KeyEventType {
    KeyPressed,
    KeyReleased,
}

/// What a key event carries as its text: a special key, or a typed character.
#[derive(Clone, Copy, Debug, PartialEq, Eq, Structural)]
pub enum KeyText {
    Key(InternalKeyCode),
    Character(char),
}

/// The internal key code of a key, if the runtime handles that key.
pub open spec fn spec_internal_key_code(key: VirtualKeyCode) -> Option<InternalKeyCode> {
    match key {
        VirtualKeyCode::Left => Some(InternalKeyCode::Left),
        VirtualKeyCode::Right => Some(InternalKeyCode::Right),
        VirtualKeyCode::Home => Some(InternalKeyCode::Home),
        VirtualKeyCode::End => Some(InternalKeyCode::End),
        VirtualKeyCode::Back => Some(InternalKeyCode::Back),
        VirtualKeyCode::Delete => Some(InternalKeyCode::Delete),
        VirtualKeyCode::Return => Some(InternalKeyCode::Return),
        VirtualKeyCode::Escape => Some(InternalKeyCode::Escape),
        VirtualKeyCode::Other => None,
    }
}

/// Maps a key of the windowing system to the runtime's key code; `None` for
/// keys that the runtime does not handle.
pub fn internal_key_code(key: VirtualKeyCode) -> (code: Option<InternalKeyCode>)
    ensures
        code == spec_internal_key_code(key),
{
    match key {
        VirtualKeyCode::Left => Some(InternalKeyCode::Left),
        VirtualKeyCode::Right => Some(InternalKeyCode::Right),
        VirtualKeyCode::Home => Some(InternalKeyCode::Home),
        VirtualKeyCode::End => Some(InternalKeyCode::End),
        VirtualKeyCode::Back => Some(InternalKeyCode::Back),
        VirtualKeyCode::Delete => Some(InternalKeyCode::Delete),
        VirtualKeyCode::Return => Some(InternalKeyCode::Return),
        VirtualKeyCode::Escape => Some(InternalKeyCode::Escape),
        VirtualKeyCode::Other => None,
    }
}

/// A character is a control character when its general category is Cc:
/// the code points U+0000 to U+001F and U+007F to U+009F.
pub open spec fn spec_is_control(c: char) -> bool {
    (c as u32) <= 0x1f || (0x7f <= (c as u32) && (c as u32) <= 0x9f)
}

/// Whether `c` is a control character (general category Cc).
pub fn is_control(c: char) -> (control: bool)
    ensures
        control == spec_is_control(c),
{
    let code: u32 = c as u32;
    code <= 0x1f || (0x7f <= code && code <= 0x9f)
}

/// The mouse event that a button transition stands for.
pub open spec fn spec_button_mouse_event(state: ElementState) -> MouseEventType {
    match state {
        ElementState::Pressed => MouseEventType::MousePressed,
        ElementState::Released => MouseEventType::MouseReleased,
    }
}

/// The mouse event of a mouse button that went down or came up.
pub fn button_mouse_event(state: ElementState) -> (what: MouseEventType)
    ensures
        what == spec_button_mouse_event(state),
{
    match state {
        ElementState::Pressed => MouseEventType::MousePressed,
        ElementState::Released => MouseEventType::MouseReleased,
    }
}

/// The mouse event that a touch phase stands for: a touch that starts presses,
/// one that ends or is cancelled releases, one that moves moves the pointer.
pub open spec fn spec_touch_mouse_event(phase: TouchPhase) -> MouseEventType {
    match phase {
        TouchPhase::Started => MouseEventType::MousePressed,
        TouchPhase::Ended => MouseEventType::MouseReleased,
        TouchPhase::Cancelled => MouseEventType::MouseReleased,
        TouchPhase::Moved => MouseEventType::MouseMoved,
    }
}

/// The mouse event of a touch point in the given phase.
pub fn touch_mouse_event(phase: TouchPhase) -> (what: MouseEventType)
    ensures
        what == spec_touch_mouse_event(phase),
{
    match phase {
        TouchPhase::Started => MouseEventType::MousePressed,
        TouchPhase::Ended => MouseEventType::MouseReleased,
        TouchPhase::Cancelled => MouseEventType::MouseReleased,
        TouchPhase::Moved => MouseEventType::MouseMoved,
    }
}

/// The key events that one key input delivers to a window, in order. All the
/// events of one stroke carry one reading of the window's modifiers.
#[derive(Clone, Copy, Debug, PartialEq, Eq, Structural)]
pub enum KeyStroke {
    /// A key went down.
    Press,
    /// A key came up.
    Release,
    /// A character was typed: the key goes down and comes up again.
    PressThenRelease,
}

/// The stroke of a key that went down or came up.
pub open spec fn spec_key_stroke(state: ElementState) -> KeyStroke {
    match state {
        ElementState::Pressed => KeyStroke::Press,
        ElementState::Released => KeyStroke::Release,
    }
}

/// The stroke of a key that went down or came up.
pub fn key_stroke(state: ElementState) -> (stroke: KeyStroke)
    ensures
        stroke == spec_key_stroke(state),
{
    match state {
        ElementState::Pressed => KeyStroke::Press,
        ElementState::Released => KeyStroke::Release,
    }
}

/// The key events of a stroke, in the order they are delivered.
pub open spec fn spec_key_events(stroke: KeyStroke) -> Seq<KeyEventType> {
    match stroke {
        KeyStroke::Press => seq![KeyEventType::KeyPressed],
        KeyStroke::Release => seq![KeyEventType::KeyReleased],
        KeyStroke::PressThenRelease => seq![KeyEventType::KeyPressed, KeyEventType::KeyReleased],
    }
}

/// The key events of a stroke, in the order they are to be delivered.
pub fn key_events(stroke: KeyStroke) -> (events: Vec<KeyEventType>)
    ensures
        events@ == spec_key_events(stroke),
{
    let mut events: Vec<KeyEventType> = Vec::new();
    match stroke {
        KeyStroke::Press => {
            events.push(KeyEventType::KeyPressed);
        },
        KeyStroke::Release => {
            events.push(KeyEventType::KeyReleased);
        },
        KeyStroke::PressThenRelease => {
            events.push(KeyEventType::KeyPressed);
            events.push(KeyEventType::KeyReleased);
        },
    }
    assert(events@ =~= spec_key_events(stroke));
    events
}


/// Each of the eight special keys maps to the internal key code of the same
/// name, and every other key maps to none; no two keys share a code.
pub proof fn lemma_internal_key_codes(a: VirtualKeyCode, b: VirtualKeyCode)
    ensures
        spec_internal_key_code(VirtualKeyCode::Left) == Some(InternalKeyCode::Left),
        spec_internal_key_code(VirtualKeyCode::Right) == Some(InternalKeyCode::Right),
        spec_internal_key_code(VirtualKeyCode::Home) == Some(InternalKeyCode::Home),
        spec_internal_key_code(VirtualKeyCode::End) == Some(InternalKeyCode::End),
        spec_internal_key_code(VirtualKeyCode::Back) == Some(InternalKeyCode::Back),
        spec_internal_key_code(VirtualKeyCode::Delete) == Some(InternalKeyCode::Delete),
        spec_internal_key_code(VirtualKeyCode::Return) == Some(InternalKeyCode::Return),
        spec_internal_key_code(VirtualKeyCode::Escape) == Some(InternalKeyCode::Escape),
        spec_internal_key_code(a) is None <==> a == VirtualKeyCode::Other,
        spec_internal_key_code(a) is Some && spec_internal_key_code(a) == spec_internal_key_code(b)
            ==> a == b,
{
}

/// The control characters are the 32 code points below the space and the 33
/// from DEL up to U+009F; the space, the printable ASCII characters and
/// everything from U+00A0 on are not control characters.
pub proof fn lemma_control_characters(c: char)
    ensures
        spec_is_control(c) <==> ((c as u32) < 0x20 || (0x7f <= (c as u32) && (c as u32) < 0xa0)),
        (0x20 <= (c as u32) && (c as u32) < 0x7f) ==> !spec_is_control(c),
        (c as u32) >= 0xa0 ==> !spec_is_control(c),
{
}

/// A button that goes down presses, one that comes up releases; a touch that
/// starts presses, one that ends or is cancelled releases, one that moves moves
/// the pointer. A button never reports a move, and a touch never leaves.
pub proof fn lemma_pointer_events(state: ElementState, phase: TouchPhase)
    ensures
        spec_button_mouse_event(ElementState::Pressed) == MouseEventType::MousePressed,
        spec_button_mouse_event(ElementState::Released) == MouseEventType::MouseReleased,
        spec_touch_mouse_event(TouchPhase::Started) == MouseEventType::MousePressed,
        spec_touch_mouse_event(TouchPhase::Moved) == MouseEventType::MouseMoved,
        spec_touch_mouse_event(TouchPhase::Ended) == MouseEventType::MouseReleased,
        spec_touch_mouse_event(TouchPhase::Cancelled) == MouseEventType::MouseReleased,
        spec_button_mouse_event(state) != MouseEventType::MouseMoved,
        spec_button_mouse_event(state) != MouseEventType::MouseExit,
        spec_touch_mouse_event(phase) != MouseEventType::MouseExit,
{
}

/// A key that goes down is one press, one that comes up one release; a typed
/// character is a press followed by a release.
pub proof fn lemma_key_strokes()
    ensures
        spec_key_stroke(ElementState::Pressed) == KeyStroke::Press,
        spec_key_stroke(ElementState::Released) == KeyStroke::Release,
        spec_key_events(KeyStroke::Press) == seq![KeyEventType::KeyPressed],
        spec_key_events(KeyStroke::Release) == seq![KeyEventType::KeyReleased],
        spec_key_events(KeyStroke::PressThenRelease) == seq![
            KeyEventType::KeyPressed,
            KeyEventType::KeyReleased,
        ],
{
}

} // verus!
