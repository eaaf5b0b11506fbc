//! SDL3 event records and constants, as the client delivers them to the
//! plugin. Every record starts with the event type; the type decides which
//! record a raw event holds.

use vstd::prelude::*;

verus! {

/// Header shared by every event record.
#[allow(non_camel_case_types)]
#[derive(Clone, Copy)]
pub struct SDL_CommonEvent {
    pub event_type: u32,
    pub reserved: u32,
    pub timestamp: u64,
}

/// A window event (shown, moved, resized, focus changes, ...).
#[allow(non_camel_case_types)]
#[derive(Clone, Copy)]
pub struct SDL_WindowEvent {
    pub event_type: u32,
    pub reserved: u32,
    pub timestamp: u64,
    pub window_id: u32,
    pub data1: i32,
    pub data2: i32,
}

/// A keyboard event. `scancode` is the physical key position (an
/// `SDL_Scancode`), `mod_` the active modifiers (an `SDL_Keymod`); `down`
/// and `repeat_` are SDL booleans (0 or 1).
#[allow(non_camel_case_types)]
#[derive(Clone, Copy)]
pub struct SDL_KeyboardEvent {
    pub event_type: u32,
    pub reserved: u32,
    pub timestamp: u64,
    pub window_id: u32,
    pub which: u32,
    pub scancode: u32,
    pub key: u32,
    pub mod_: u16,
    pub raw: u16,
    pub down: u8,
    pub repeat_: u8,
}

/// The quit request event.
#[allow(non_camel_case_types)]
#[derive(Clone, Copy)]
pub struct SDL_QuitEvent {
    pub event_type: u32,
    pub reserved: u32,
    pub timestamp: u64,
}

pub const SDL_EVENT_QUIT: u32 = 256;
pub const SDL_EVENT_WINDOW_SHOWN: u32 = 514;
pub const SDL_EVENT_WINDOW_HIDDEN: u32 = 515;
pub const SDL_EVENT_WINDOW_EXPOSED: u32 = 516;
pub const SDL_EVENT_WINDOW_MOVED: u32 = 517;
pub const SDL_EVENT_WINDOW_RESIZED: u32 = 518;
pub const SDL_EVENT_WINDOW_MINIMIZED: u32 = 521;
pub const SDL_EVENT_WINDOW_MAXIMIZED: u32 = 522;
pub const SDL_EVENT_WINDOW_RESTORED: u32 = 523;
pub const SDL_EVENT_WINDOW_MOUSE_ENTER: u32 = 524;
pub const SDL_EVENT_WINDOW_MOUSE_LEAVE: u32 = 525;
pub const SDL_EVENT_WINDOW_FOCUS_GAINED: u32 = 526;
pub const SDL_EVENT_WINDOW_FOCUS_LOST: u32 = 527;
pub const SDL_EVENT_WINDOW_CLOSE_REQUESTED: u32 = 528;
pub const SDL_EVENT_KEY_DOWN: u32 = 768;
pub const SDL_EVENT_KEY_UP: u32 = 769;
pub const SDL_EVENT_TEXT_INPUT: u32 = 771;
pub const SDL_EVENT_MOUSE_MOTION: u32 = 1024;
pub const SDL_EVENT_MOUSE_BUTTON_DOWN: u32 = 1025;
pub const SDL_EVENT_MOUSE_BUTTON_UP: u32 = 1026;
pub const SDL_EVENT_MOUSE_WHEEL: u32 = 1027;

/// Scancode of the letter key A; the letters A to Z are contiguous.
pub const SDL_SCANCODE_A: u32 = 4;
/// Scancode of the letter key Z.
pub const SDL_SCANCODE_Z: u32 = 29;
/// Scancode of the main Enter key (layout-independent).
pub const SDL_SCANCODE_RETURN: u32 = 40;
/// Scancode of the keypad Enter key.
pub const SDL_SCANCODE_KP_ENTER: u32 = 88;

} // verus!
