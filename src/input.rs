//! Window events as the library sees them.
use vstd::prelude::*;

verus! {

/// The physical keys the viewer reacts to; every other key is `Other`.
#[derive(Clone, Copy, Debug, PartialEq, Eq, Structural)]
pub enum Key {
    W,
    S,
    A,
    D,
    E,
    Q,
    Escape,
    F1,
    F2,
    Other,
}

/// A window event, reduced to the plain values the viewer's logic reads.
#[derive(Clone, Copy, Debug, PartialEq, Eq, Structural)]
pub enum Event {
    /// The window was asked to close.
    CloseRequested,
    /// A key went down (`pressed`) or up.
    Key { key: Key, pressed: bool },
    /// The cursor moved to this position, in physical pixels of the window.
    CursorMoved { x: i32, y: i32 },
    /// The window gained (`true`) or lost focus.
    Focused(bool),
    /// The window's inner size changed, in physical pixels.
    Resized { width: u32, height: u32 },
    /// The window asks for a new frame.
    RedrawRequested,
    /// Any event the viewer does not act on itself.
    Other,
}

} // verus!
