//! Input events of the windowing layer, as plain values.

use vstd::prelude::*;

verus! {

pub const SDL_BUTTON_LEFT: u32 = 1;
pub const SDL_BUTTON_MIDDLE: u32 = 2;
pub const SDL_BUTTON_RIGHT: u32 = 3;
pub const SDL_BUTTON_X1: u32 = 4;
pub const SDL_BUTTON_X2: u32 = 5;

/// Window event id: the window's size changed.
pub const SDL_WINDOWEVENT_SIZE_CHANGED: u8 = 6;

#[derive(Clone, Copy, Debug, PartialEq, Eq, Structural)]
pub struct SdlWindowEvent {
    pub window_id: u32,
    pub event: u8,
    pub data1: i32,
    pub data2: i32,
}

#[derive(Clone, Copy, Debug, PartialEq, Eq, Structural)]
pub struct SdlKeyboardEvent {
    pub window_id: u32,
    pub state: u8,
    pub repeat: u8,
    pub scancode: u32,
    pub keycode: i32,
    pub modifiers: u16,
}

#[derive(Clone, Copy, Debug, PartialEq, Eq, Structural)]
pub struct SdlMouseMotionEvent {
    pub window_id: u32,
    pub which: u32,
    pub state: u32,
    pub x: i32,
    pub y: i32,
    pub xrel: i32,
    pub yrel: i32,
}

#[derive(Clone, Copy, Debug, PartialEq, Eq, Structural)]
pub struct SdlMouseButtonEvent {
    pub window_id: u32,
    pub which: u32,
    pub button: u8,
    pub state: u8,
    pub clicks: u8,
    pub x: i32,
    pub y: i32,
}

#[derive(Clone, Copy, Debug, PartialEq, Eq, Structural)]
pub struct SdlMouseWheelEvent {
    pub window_id: u32,
    pub which: u32,
    pub x: i32,
    pub y: i32,
    pub direction: u32,
    pub mouse_x: i32,
    pub mouse_y: i32,
}

/// An input event.
#[derive(Clone, Copy, Debug, PartialEq, Eq, Structural)]
pub enum SDLEventEnum {
    WindowEvent(SdlWindowEvent),
    KeyDown(SdlKeyboardEvent),
    KeyUp(SdlKeyboardEvent),
    MouseMotion(SdlMouseMotionEvent),
    MouseButtonDown(SdlMouseButtonEvent),
    MouseButtonUp(SdlMouseButtonEvent),
    MouseWheel(SdlMouseWheelEvent),
    /// Any other event, by its type number.
    Unknown(u32),
}

/// `v - o`, held to the range of `i32`.
pub open spec fn spec_local(v: i32, o: i32) -> i32 {
    let d = v - o;
    if d < i32::MIN {
        i32::MIN
    } else if d > i32::MAX {
        i32::MAX
    } else {
        d as i32
    }
}

/// A coordinate relative to origin `o`, held to the range of `i32`.
pub fn local(v: i32, o: i32) -> (r: i32)
    ensures
        r == spec_local(v, o),
{
    let d: i64 = v as i64 - o as i64;
    if d < i32::MIN as i64 {
        i32::MIN
    } else if d > i32::MAX as i64 {
        i32::MAX
    } else {
        d as i32
    }
}

/// `e` with its pointer coordinates moved to an area whose origin is
/// `(ox, oy)`; events without a pointer position are unchanged.
pub open spec fn spec_to_local(e: SDLEventEnum, ox: i32, oy: i32) -> SDLEventEnum {
    match e {
        SDLEventEnum::MouseMotion(m) => SDLEventEnum::MouseMotion(
            SdlMouseMotionEvent { x: spec_local(m.x, ox), y: spec_local(m.y, oy), ..m },
        ),
        SDLEventEnum::MouseButtonDown(b) => SDLEventEnum::MouseButtonDown(
            SdlMouseButtonEvent { x: spec_local(b.x, ox), y: spec_local(b.y, oy), ..b },
        ),
        SDLEventEnum::MouseButtonUp(b) => SDLEventEnum::MouseButtonUp(
            SdlMouseButtonEvent { x: spec_local(b.x, ox), y: spec_local(b.y, oy), ..b },
        ),
        SDLEventEnum::MouseWheel(w) => SDLEventEnum::MouseWheel(
            SdlMouseWheelEvent {
                mouse_x: spec_local(w.mouse_x, ox),
                mouse_y: spec_local(w.mouse_y, oy),
                ..w
            },
        ),
        _ => e,
    }
}

impl SDLEventEnum {
    /// This event in coordinates relative to the origin `(ox, oy)`.
    pub fn to_local(self, ox: i32, oy: i32) -> (r: SDLEventEnum)
        ensures
            r == spec_to_local(self, ox, oy),
    {
        match self {
            SDLEventEnum::MouseMotion(m) => SDLEventEnum::MouseMotion(
                SdlMouseMotionEvent { x: local(m.x, ox), y: local(m.y, oy), ..m },
            ),
            SDLEventEnum::MouseButtonDown(b) => SDLEventEnum::MouseButtonDown(
                SdlMouseButtonEvent { x: local(b.x, ox), y: local(b.y, oy), ..b },
            ),
            SDLEventEnum::MouseButtonUp(b) => SDLEventEnum::MouseButtonUp(
                SdlMouseButtonEvent { x: local(b.x, ox), y: local(b.y, oy), ..b },
            ),
            SDLEventEnum::MouseWheel(w) => SDLEventEnum::MouseWheel(
                SdlMouseWheelEvent {
                    mouse_x: local(w.mouse_x, ox),
                    mouse_y: local(w.mouse_y, oy),
                    ..w
                },
            ),
            _ => self,
        }
    }

    pub open spec fn is_size_change_spec(&self) -> bool {
        *self matches SDLEventEnum::WindowEvent(w) && w.event == SDL_WINDOWEVENT_SIZE_CHANGED
    }

    /// Whether this event reports that the window's size changed.
    #[verifier::when_used_as_spec(is_size_change_spec)]
    pub fn is_size_change(&self) -> (r: bool)
        ensures
            r == self.is_size_change_spec(),
    {
        match self {
            SDLEventEnum::WindowEvent(w) => w.event == SDL_WINDOWEVENT_SIZE_CHANGED,
            _ => false,
        }
    }
}

/// The button mask of button number `button` (1 to 32).
pub fn sdl_button_mask(button: u32) -> (r: u32)
    requires
        1 <= button <= 32,
    ensures
        r == 1u32 << ((button - 1) as u32),
{
    1u32 << (button - 1)
}

} // verus!
