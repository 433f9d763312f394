//! The events the host framework hands to the adapter, and the draw
//! submissions the adapter issues against the shared graphics context.

use vstd::prelude::*;

verus! {

/// Identifies a mouse button as the host framework reports it.
#[derive(Clone, Copy, PartialEq, Eq, Structural, Debug)]
pub enum MouseButton {
    Left,
    Right,
    Middle,
    /// A button the host framework does not name.
    Unknown,
}

/// The modifier keys held while a key event fired.
#[derive(Clone, Copy, PartialEq, Eq, Structural, Debug)]
pub struct KeyMods {
    pub shift: bool,
    pub ctrl: bool,
    pub alt: bool,
    pub logo: bool,
}

/// One input event, with the fields the GUI toolkit's matching handler takes.
///
/// Pointer coordinates and wheel deltas are carried as the raw bit patterns
/// of the host framework's 32-bit values, so that forwarding them unchanged
/// can be stated bit for bit. Key codes are carried as the host's numeric
/// code for the key.
#[derive(Clone, Copy, PartialEq, Eq, Structural, Debug)]
pub enum Event {
    MouseMotion { x_bits: u32, y_bits: u32 },
    MouseWheel { dx_bits: u32, dy_bits: u32 },
    MouseButtonDown { button: MouseButton, x_bits: u32, y_bits: u32 },
    MouseButtonUp { button: MouseButton, x_bits: u32, y_bits: u32 },
    CharInput { character: char },
    KeyDown { keycode: u32, mods: KeyMods },
    KeyUp { keycode: u32, mods: KeyMods },
}

/// One submission of draw commands to the shared graphics context.
#[derive(Clone, Copy, PartialEq, Eq, Structural, Debug)]
pub enum Submission {
    /// The host framework's queued primitives are flushed.
    HostFlush,
    /// The GUI toolkit renders the primitives it accumulated this frame.
    ToolkitRender,
}

} // verus!
