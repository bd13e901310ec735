//! The input that reaches the scene, as plain values.

use vstd::prelude::*;

verus! {

/// The keys that the scene tells apart. Every other key is `Other`.
#[derive(Clone, Copy, Debug, PartialEq, Eq, Structural)]
pub enum VirtualKeyCode {
    W,
    A,
    S,
    D,
    Up,
    Down,
    Left,
    Right,
    Space,
    LShift,
    B,
    M,
    H,
    N,
    J,
    K,
    Escape,
    Other,
}

/// Whether a key or a button went down or came up.
#[derive(Clone, Copy, Debug, PartialEq, Eq, Structural)]
pub enum ElementState {
    Pressed,
    Released,
}

/// The buttons of the mouse.
#[derive(Clone, Copy, Debug, PartialEq, Eq, Structural)]
pub enum MouseButton {
    Left,
    Right,
    Middle,
    Other,
}

/// How far the wheel was turned: in lines, or in pixels for devices that
/// scroll smoothly. Each has a horizontal part first and a vertical part
/// second.
#[derive(Clone, Copy, Debug)]
pub enum MouseScrollDelta<S> {
    LineDelta(S, S),
    PixelDelta(S, S),
}

/// What happened to the window.
#[derive(Clone, Copy, Debug)]
pub enum WindowEvent<S> {
    KeyboardInput { virtual_keycode: Option<VirtualKeyCode>, state: ElementState },
    MouseWheel { delta: MouseScrollDelta<S> },
    MouseInput { button: MouseButton, state: ElementState },
    CloseRequested,
    Resized { width: u32, height: u32 },
    ScaleFactorChanged { width: u32, height: u32 },
    Other,
}

/// What the event loop hands over. `own_window` says whether the event is
/// for the window that the scene is drawn in.
#[derive(Clone, Copy, Debug)]
pub enum Event<S> {
    /// The mouse moved by `(dx, dy)`, as the device reports it.
    MouseMotion { dx: S, dy: S },
    Window { own_window: bool, event: WindowEvent<S> },
    RedrawRequested { own_window: bool },
    MainEventsCleared,
    Other,
}

} // verus!
