//! A screen-stack state machine for a fixed-rate application loop.
//!
//! A *screen* is one mutually exclusive application state (title, gameplay,
//! pause). The [`stack::ScreenStack`] owns an ordered collection of screens;
//! only the top screen receives ticks and input events. Screens never mutate
//! the stack directly: they request transitions by publishing zero-payload
//! *signals* into a [`dispatch::Dispatch`] queue, which the owning loop drains
//! and feeds back into the stack.

pub mod dispatch;
pub mod event;
pub mod screen;
pub mod stack;
