//! Input translation: pure, total mappings from native input codes and
//! modifier bit flags to the normalized mouse event model.

use vstd::prelude::*;

verus! {

/// Shift key bit in a native modifier-state word.
pub const SHIFT_MASK: u32 = 0x1;
/// Control key bit in a native modifier-state word.
pub const CONTROL_MASK: u32 = 0x4;
/// Primary alternate (alt) key bit in a native modifier-state word.
pub const MOD1_MASK: u32 = 0x8;
/// Meta key bit in a native modifier-state word.
pub const META_MASK: u32 = 0x1000_0000;
/// First mouse button held, as a modifier-state bit.
pub const BUTTON1_MASK: u32 = 0x100;
/// Second mouse button held, as a modifier-state bit.
pub const BUTTON2_MASK: u32 = 0x200;
/// Third mouse button held, as a modifier-state bit.
pub const BUTTON3_MASK: u32 = 0x400;
/// Fourth mouse button held, as a modifier-state bit.
pub const BUTTON4_MASK: u32 = 0x800;
/// Fifth mouse button held, as a modifier-state bit.
pub const BUTTON5_MASK: u32 = 0x1000;

/// A mouse button, as reported to the application callback.
#[derive(Clone, Copy, Debug, PartialEq, Eq, Structural)]
pub enum MouseButton {
    Left,
    Middle,
    Right,
    X1,
    X2,
}

/// The subtype of a native button-press event.
#[derive(Clone, Copy, Debug, PartialEq, Eq, Structural)]
pub enum ButtonPressKind {
    Single,
    Double,
    Triple,
    /// Any press subtype outside the three recognized ones.
    Other,
}

/// The direction a native scroll event reports.
#[derive(Clone, Copy, Debug, PartialEq, Eq, Structural)]
pub enum ScrollDirection {
    Up,
    Down,
    Left,
    Right,
    /// Continuous scrolling; unsupported, only diagnosed.
    Smooth,
    /// Any direction outside the known set; unsupported, only diagnosed.
    Other,
}

/// The boolean record of modifier-key state accompanying an input event.
#[derive(Clone, Copy, Debug, PartialEq, Eq, Structural)]
pub struct KeyModifiers {
    pub shift: bool,
    pub alt: bool,
    pub ctrl: bool,
    pub meta: bool,
}

/// A normalized mouse event, immutable once constructed.  Positions are in
/// physical pixels.
#[derive(Clone, Copy, Debug, PartialEq, Eq, Structural)]
pub struct MouseEvent {
    pub x: i32,
    pub y: i32,
    pub mods: KeyModifiers,
    pub count: u32,
    pub button: MouseButton,
}

/// A logical cursor kind the application can request.
#[derive(Clone, Copy, Debug, PartialEq, Eq, Structural)]
pub enum Cursor {
    Arrow,
    IBeam,
    Crosshair,
    OpenHand,
    NotAllowed,
    ResizeLeftRight,
    ResizeUpDown,
}

/// The button a native button code denotes: codes 1 through 5 in order,
/// every other code falls back to the left button.
pub open spec fn mouse_button_from_code(code: u32) -> MouseButton {
    if code == 1 {
        MouseButton::Left
    } else if code == 2 {
        MouseButton::Middle
    } else if code == 3 {
        MouseButton::Right
    } else if code == 4 {
        MouseButton::X1
    } else if code == 5 {
        MouseButton::X2
    } else {
        MouseButton::Left
    }
}

/// Total mapping from a native button code to a mouse button.
pub fn get_mouse_button(button: u32) -> (r: MouseButton)
    ensures
        r == mouse_button_from_code(button),
{
    match button {
        1 => MouseButton::Left,
        2 => MouseButton::Middle,
        3 => MouseButton::Right,
        4 => MouseButton::X1,
        5 => MouseButton::X2,
        _ => MouseButton::Left,
    }
}

/// The button inferred from a modifier-state word: the highest-priority
/// pressed button bit among one through five, else the left button.
pub open spec fn mouse_button_from_mods(mods: u32) -> MouseButton {
    if mods & BUTTON1_MASK != 0 {
        MouseButton::Left
    } else if mods & BUTTON2_MASK != 0 {
        MouseButton::Middle
    } else if mods & BUTTON3_MASK != 0 {
        MouseButton::Right
    } else if mods & BUTTON4_MASK != 0 {
        MouseButton::X1
    } else if mods & BUTTON5_MASK != 0 {
        MouseButton::X2
    } else {
        MouseButton::Left
    }
}

/// Total mapping from a modifier-state word to the pressed mouse button.
pub fn get_mouse_button_from_modifiers(modifiers: u32) -> (r: MouseButton)
    ensures
        r == mouse_button_from_mods(modifiers),
{
    if modifiers & BUTTON1_MASK != 0 {
        MouseButton::Left
    } else if modifiers & BUTTON2_MASK != 0 {
        MouseButton::Middle
    } else if modifiers & BUTTON3_MASK != 0 {
        MouseButton::Right
    } else if modifiers & BUTTON4_MASK != 0 {
        MouseButton::X1
    } else if modifiers & BUTTON5_MASK != 0 {
        MouseButton::X2
    } else {
        MouseButton::Left
    }
}

/// The click count a press subtype denotes: single, double and triple
/// presses count one, two and three; everything else counts zero.
pub open spec fn click_count_of(kind: ButtonPressKind) -> u32 {
    match kind {
        ButtonPressKind::Single => 1u32,
        ButtonPressKind::Double => 2u32,
        ButtonPressKind::Triple => 3u32,
        ButtonPressKind::Other => 0u32,
    }
}

/// Total mapping from a press subtype to its click count.
pub fn get_mouse_click_count(event_type: ButtonPressKind) -> (r: u32)
    ensures
        r == click_count_of(event_type),
{
    match event_type {
        ButtonPressKind::Single => 1,
        ButtonPressKind::Double => 2,
        ButtonPressKind::Triple => 3,
        ButtonPressKind::Other => 0,
    }
}

/// The modifier record a native modifier-state word denotes, each flag
/// tested independently.
pub open spec fn modifiers_from_bits(mods: u32) -> KeyModifiers {
    KeyModifiers {
        shift: mods & SHIFT_MASK != 0,
        alt: mods & MOD1_MASK != 0,
        ctrl: mods & CONTROL_MASK != 0,
        meta: mods & META_MASK != 0,
    }
}

/// Total mapping from a modifier-state word to the modifier record.
pub fn get_modifiers(modifiers: u32) -> (r: KeyModifiers)
    ensures
        r == modifiers_from_bits(modifiers),
{
    KeyModifiers {
        shift: modifiers & SHIFT_MASK != 0,
        alt: modifiers & MOD1_MASK != 0,
        ctrl: modifiers & CONTROL_MASK != 0,
        meta: modifiers & META_MASK != 0,
    }
}

/// The wheel delta a scroll direction denotes, 120 units per discrete tick:
/// up is (0, -120), down is (0, 120), left and right are (120, 0).  Smooth
/// and unknown directions carry no delta and are only diagnosed.
pub open spec fn scroll_delta_of(dir: ScrollDirection) -> Option<(i32, i32)> {
    match dir {
        ScrollDirection::Up => Some((0i32, -120i32)),
        ScrollDirection::Down => Some((0i32, 120i32)),
        ScrollDirection::Left => Some((120i32, 0i32)),
        ScrollDirection::Right => Some((120i32, 0i32)),
        ScrollDirection::Smooth => None,
        ScrollDirection::Other => None,
    }
}

/// Mapping from a scroll direction to the wheel delta handed to the
/// application, if the direction is a discrete tick.
pub fn get_scroll_delta(direction: ScrollDirection) -> (r: Option<(i32, i32)>)
    ensures
        r == scroll_delta_of(direction),
{
    match direction {
        ScrollDirection::Up => Some((0, -120)),
        ScrollDirection::Down => Some((0, 120)),
        ScrollDirection::Left => Some((120, 0)),
        ScrollDirection::Right => Some((120, 0)),
        ScrollDirection::Smooth => None,
        ScrollDirection::Other => None,
    }
}

/// The mouse event dispatched for a native button press.
pub fn make_mouse_down_event(
    x: i32,
    y: i32,
    event_type: ButtonPressKind,
    state: u32,
    button: u32,
) -> (r: MouseEvent)
    ensures
        r == (MouseEvent {
            x,
            y,
            mods: modifiers_from_bits(state),
            count: click_count_of(event_type),
            button: mouse_button_from_code(button),
        }),
{
    MouseEvent {
        x,
        y,
        mods: get_modifiers(state),
        count: get_mouse_click_count(event_type),
        button: get_mouse_button(button),
    }
}

/// The mouse event dispatched for a native button release; its click count
/// is always zero.
pub fn make_mouse_up_event(x: i32, y: i32, state: u32, button: u32) -> (r: MouseEvent)
    ensures
        r == (MouseEvent {
            x,
            y,
            mods: modifiers_from_bits(state),
            count: 0u32,
            button: mouse_button_from_code(button),
        }),
{
    MouseEvent {
        x,
        y,
        mods: get_modifiers(state),
        count: 0,
        button: get_mouse_button(button),
    }
}

/// The mouse event dispatched for pointer motion; the button is inferred
/// from the held-button bits of the modifier-state word.
pub fn make_mouse_move_event(x: i32, y: i32, state: u32) -> (r: MouseEvent)
    ensures
        r == (MouseEvent {
            x,
            y,
            mods: modifiers_from_bits(state),
            count: 0u32,
            button: mouse_button_from_mods(state),
        }),
{
    MouseEvent {
        x,
        y,
        mods: get_modifiers(state),
        count: 0,
        button: get_mouse_button_from_modifiers(state),
    }
}

/// The named native cursor resource a logical cursor kind maps to.
pub open spec fn cursor_name_of(cursor: Cursor) -> Seq<char> {
    match cursor {
        Cursor::Arrow => "default"@,
        Cursor::IBeam => "text"@,
        Cursor::Crosshair => "crosshair"@,
        Cursor::OpenHand => "grab"@,
        Cursor::NotAllowed => "not-allowed"@,
        Cursor::ResizeLeftRight => "ew-resize"@,
        Cursor::ResizeUpDown => "ns-resize"@,
    }
}

/// Closed mapping from a logical cursor kind to the name under which the
/// native toolkit looks the cursor up.
pub fn cursor_name(cursor: &Cursor) -> (r: &'static str)
    ensures
        r@ == cursor_name_of(*cursor),
{
    match cursor {
        Cursor::Arrow => "default",
        Cursor::IBeam => "text",
        Cursor::Crosshair => "crosshair",
        Cursor::OpenHand => "grab",
        Cursor::NotAllowed => "not-allowed",
        Cursor::ResizeLeftRight => "ew-resize",
        Cursor::ResizeUpDown => "ns-resize",
    }
}

} // verus!
