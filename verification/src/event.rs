use vstd::prelude::*;

verus! {

/// The hardware keys the dispatch loop distinguishes. Every other key is
/// `Other` and leaves the state untouched.
#[derive(Debug, Clone, Copy, PartialEq, Eq, Structural)]
pub enum Key {
    Prev,
    Next,
    Left,
    Right,
    Other,
}

impl Key {
    /// Keys that navigate to the previous page.
    pub open spec fn navigates_prev(self) -> bool {
        self == Key::Prev || self == Key::Left
    }

    /// Keys that navigate to the next page.
    pub open spec fn navigates_next(self) -> bool {
        self == Key::Next || self == Key::Right
    }
}

/// A hardware event as the dispatch loop reads it: the device SDK delivers a
/// richer stream, reduced at the process boundary to the variants the loop
/// reacts to. `Other` stands for every ignored event kind.
#[derive(Debug, Clone, Copy, PartialEq, Eq, Structural)]
pub enum Event {
    /// The device is ready: construct the drawable surface and run the
    /// one-time daemon start sequence.
    Init,
    /// The surface became visible.
    Show,
    /// The surface must be repainted.
    Repaint,
    /// A key was pressed.
    KeyDown { key: Key },
    /// The device asks the application to quit.
    Exit,
    /// Any event the loop ignores.
    Other,
}

} // verus!
