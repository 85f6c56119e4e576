//! The events the screen stack routes: key presses, the two transition
//! signals, and everything else (which the stack ignores).

use vstd::prelude::*;

verus! {

/// Key code of the one designated "advance" key the title and gameplay
/// screens react to.
pub const ADVANCE_KEY: u32 = 102;

/// A zero-payload marker requesting a stack transition. Signals are
/// registered once at startup and then published by screens; the owning loop
/// drains them and feeds them back into the stack as [`Event::User`] events.
#[derive(Clone, Copy, PartialEq, Eq, Debug)]
pub enum Signal {
    /// Request to push a fresh gameplay screen on top of the stack.
    PushGameplayScreen,
    /// Request to pop the current top screen off the stack.
    PopCurrentScreen,
}

/// One input or user event, as the stack sees it.
#[derive(Clone, Copy, PartialEq, Eq, Debug)]
pub enum Event {
    /// A native key-down event carrying its key code.
    KeyDown { key: u32 },
    /// A previously published signal, delivered back through the queue.
    User { signal: Signal },
    /// Any other native event; never consumed, never mutates the stack.
    Other,
}

/// Does this event press the designated advance key?
pub open spec fn is_advance_key(e: Event) -> bool {
    e matches Event::KeyDown { key } && key == ADVANCE_KEY
}

} // verus!
