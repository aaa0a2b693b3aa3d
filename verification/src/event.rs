use vstd::prelude::*;

verus! {

/// The keys the event vocabulary distinguishes by name. Any other key is
/// carried through as `Other` with its raw backend key code, so no key press
/// is lost to the caller.
#[derive(Clone, Copy, Debug, PartialEq, Eq, Structural)]
pub enum KeyCode {
    Escape,
    Return,
    Space,
    Left,
    Right,
    Up,
    Down,
    /// Any key not named above, identified by its backend key code.
    Other(u32),
}

/// One input occurrence, already translated out of the backend's native
/// representation. The set is closed: backend events that fit none of these
/// variants are dropped by the translation step before they reach this crate.
#[derive(Clone, Copy, Debug, PartialEq, Eq, Structural)]
pub enum Event {
    /// The window manager asked the application to close.
    Quit,
    /// A key changed state; `pressed` is true for a press, false for a release.
    Keyboard { key: KeyCode, pressed: bool },
    /// A recognised backend event kind that the vocabulary does not model
    /// further; reserved for future event kinds.
    Other,
}

} // verus!
