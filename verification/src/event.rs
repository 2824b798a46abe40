//! Input and window events, reduced to what the scene reacts to.
//!
//! Amounts that the platform reports as floating-point numbers are carried
//! as their IEEE 754 bit patterns.

use vstd::prelude::*;

verus! {

/// Size of a surface in physical pixels.
#[derive(Clone, Copy, Debug, PartialEq, Eq)]
pub struct PhysicalSize {
    pub width: u32,
    pub height: u32,
}

/// Whether a key or button went down or up.
#[derive(Clone, Copy, Debug, PartialEq, Eq)]
pub enum ElementState {
    Pressed,
    Released,
}

/// The keys that the viewer knows; every other key is `Other`.
#[derive(Clone, Copy, Debug, PartialEq, Eq)]
pub enum VirtualKeyCode {
    A,
    D,
    E,
    Q,
    S,
    W,
    LShift,
    Numpad1,
    Numpad2,
    Numpad3,
    Numpad4,
    Numpad6,
    Numpad7,
    Numpad8,
    Escape,
    Other,
}

/// A mouse button.
#[derive(Clone, Copy, Debug, PartialEq, Eq)]
pub enum MouseButton {
    Left,
    Right,
    Middle,
    Other,
}

/// How far the wheel was turned.
#[derive(Clone, Copy, Debug, PartialEq, Eq)]
pub enum MouseScrollDelta {
    /// In lines; both amounts are single-precision bit patterns.
    LineDelta { horizontal: u32, vertical: u32 },
    /// In pixels.
    PixelDelta,
}

/// An event of the window.
#[derive(Clone, Copy, Debug, PartialEq, Eq)]
pub enum WindowEvent {
    KeyboardInput { state: ElementState, virtual_keycode: Option<VirtualKeyCode> },
    MouseWheel { delta: MouseScrollDelta },
    /// The cursor is at (`x`, `y`); both are double-precision bit patterns.
    CursorMoved { x: u64, y: u64 },
    MouseInput { state: ElementState, button: MouseButton },
    CloseRequested,
    Resized(PhysicalSize),
    ScaleFactorChanged { new_inner_size: PhysicalSize },
    Other,
}

/// An event of the event loop.
#[derive(Clone, Copy, Debug, PartialEq, Eq)]
pub enum Event {
    /// The window asks to be drawn.
    RedrawRequested,
    /// All redraws of this turn of the loop are done.
    RedrawEventsCleared,
    /// All input of this turn of the loop was delivered.
    MainEventsCleared,
    /// An event of a window; `own_window` says whether it is the viewer's.
    WindowEvent { event: WindowEvent, own_window: bool },
    Other,
}

} // verus!
