//! The screen variants and the closed sum type over them.
//!
//! Each screen counts its own invocations (ticks received, events received),
//! saturating at the counter's maximum, so the stack's routing discipline —
//! only the top screen is ever invoked — is observable state, not just a
//! claim. A screen never mutates the stack it lives in: on its designated
//! key it publishes a transition signal and reports the event consumed.

use vstd::prelude::*;

use crate::dispatch::Dispatch;
use crate::event::{Event, Signal, is_advance_key};

verus! {

/// One more invocation, saturating at the counter's maximum.
pub open spec fn bump(n: u64) -> u64 {
    if n < u64::MAX {
        (n + 1) as u64
    } else {
        n
    }
}

/// The title screen: on the advance key it requests a gameplay screen.
#[derive(Clone, Copy, PartialEq, Eq, Debug)]
pub struct TitleScreen {
    /// How many ticks this screen has received.
    pub ticks: u64,
    /// How many events this screen has received.
    pub events: u64,
}

impl TitleScreen {
    /// A fresh title screen that has seen nothing yet.
    pub fn new() -> (s: Self)
        ensures
            s == (TitleScreen { ticks: 0, events: 0 }),
    {
        TitleScreen { ticks: 0, events: 0 }
    }

    /// One per-frame update: a diagnostic no-op, never consumed.
    pub fn run_tick(&mut self) -> (r: bool)
        ensures
            r == false,
            final(self).ticks == bump(old(self).ticks),
            final(self).events == old(self).events,
    {
        if self.ticks < u64::MAX {
            self.ticks = self.ticks + 1;
        }
        false
    }

    /// Inspect one event. On the advance key, publish a push-gameplay signal
    /// and report the event consumed; pass everything else through.
    pub fn process_event(&mut self, event: &Event, dispatch: &mut Dispatch) -> (r: bool)
        requires
            old(dispatch).registered(Signal::PushGameplayScreen),
        ensures
            r == is_advance_key(*event),
            final(self).events == bump(old(self).events),
            final(self).ticks == old(self).ticks,
            final(dispatch).queue@ == (if is_advance_key(*event) {
                old(dispatch).queue@.push(Signal::PushGameplayScreen)
            } else {
                old(dispatch).queue@
            }),
            final(dispatch).push_registered == old(dispatch).push_registered,
            final(dispatch).pop_registered == old(dispatch).pop_registered,
    {
        if self.events < u64::MAX {
            self.events = self.events + 1;
        }
        let advance: bool = match event {
            Event::KeyDown { key } => *key == crate::event::ADVANCE_KEY,
            _ => false,
        };
        if advance {
            let published = dispatch.push_custom_event(Signal::PushGameplayScreen);
            match published {
                Ok(()) => {},
                Err(_) => {
                    proof {
                        assert(false);
                    }
                },
            }
            true
        } else {
            false
        }
    }
}

/// The gameplay screen: on the advance key it requests its own removal.
#[derive(Clone, Copy, PartialEq, Eq, Debug)]
pub struct GameplayScreen {
    /// How many ticks this screen has received.
    pub ticks: u64,
    /// How many events this screen has received.
    pub events: u64,
}

impl GameplayScreen {
    /// A fresh gameplay screen that has seen nothing yet.
    pub fn new() -> (s: Self)
        ensures
            s == (GameplayScreen { ticks: 0, events: 0 }),
    {
        GameplayScreen { ticks: 0, events: 0 }
    }

    /// One per-frame update: a diagnostic no-op, never consumed.
    pub fn run_tick(&mut self) -> (r: bool)
        ensures
            r == false,
            final(self).ticks == bump(old(self).ticks),
            final(self).events == old(self).events,
    {
        if self.ticks < u64::MAX {
            self.ticks = self.ticks + 1;
        }
        false
    }

    /// Inspect one event. On the advance key, publish a pop-current signal
    /// and report the event consumed; pass everything else through.
    pub fn process_event(&mut self, event: &Event, dispatch: &mut Dispatch) -> (r: bool)
        requires
            old(dispatch).registered(Signal::PopCurrentScreen),
        ensures
            r == is_advance_key(*event),
            final(self).events == bump(old(self).events),
            final(self).ticks == old(self).ticks,
            final(dispatch).queue@ == (if is_advance_key(*event) {
                old(dispatch).queue@.push(Signal::PopCurrentScreen)
            } else {
                old(dispatch).queue@
            }),
            final(dispatch).push_registered == old(dispatch).push_registered,
            final(dispatch).pop_registered == old(dispatch).pop_registered,
    {
        if self.events < u64::MAX {
            self.events = self.events + 1;
        }
        let advance: bool = match event {
            Event::KeyDown { key } => *key == crate::event::ADVANCE_KEY,
            _ => false,
        };
        if advance {
            let published = dispatch.push_custom_event(Signal::PopCurrentScreen);
            match published {
                Ok(()) => {},
                Err(_) => {
                    proof {
                        assert(false);
                    }
                },
            }
            true
        } else {
            false
        }
    }
}

/// The pause screen: reserved scaffolding. It consumes nothing, publishes
/// nothing, and no transition creates it.
#[derive(Clone, Copy, PartialEq, Eq, Debug)]
pub struct PauseScreen {
    /// How many ticks this screen has received.
    pub ticks: u64,
    /// How many events this screen has received.
    pub events: u64,
}

impl PauseScreen {
    /// A fresh pause screen that has seen nothing yet.
    pub fn new() -> (s: Self)
        ensures
            s == (PauseScreen { ticks: 0, events: 0 }),
    {
        PauseScreen { ticks: 0, events: 0 }
    }

    /// One per-frame update: a diagnostic no-op, never consumed.
    pub fn run_tick(&mut self) -> (r: bool)
        ensures
            r == false,
            final(self).ticks == bump(old(self).ticks),
            final(self).events == old(self).events,
    {
        if self.ticks < u64::MAX {
            self.ticks = self.ticks + 1;
        }
        false
    }

    /// Inspect one event: always passes it through unconsumed.
    pub fn process_event(&mut self, _event: &Event) -> (r: bool)
        ensures
            r == false,
            final(self).events == bump(old(self).events),
            final(self).ticks == old(self).ticks,
    {
        if self.events < u64::MAX {
            self.events = self.events + 1;
        }
        false
    }
}

/// The closed sum of all screen kinds: the screen set is small, fixed and
/// known, so the stack matches on it exhaustively.
#[derive(Clone, Copy, PartialEq, Eq, Debug)]
pub enum Screens {
    Title(TitleScreen),
    Gameplay(GameplayScreen),
    Pause(PauseScreen),
}

/// Does this screen consume this event?
pub open spec fn screen_consumes(s: Screens, e: Event) -> bool {
    match s {
        Screens::Title(_) => is_advance_key(e),
        Screens::Gameplay(_) => is_advance_key(e),
        Screens::Pause(_) => false,
    }
}

/// The signals this screen publishes while handling this event, in order.
/// At most one per call.
pub open spec fn screen_emits(s: Screens, e: Event) -> Seq<Signal> {
    match s {
        Screens::Title(_) => if is_advance_key(e) {
            seq![Signal::PushGameplayScreen]
        } else {
            Seq::empty()
        },
        Screens::Gameplay(_) => if is_advance_key(e) {
            seq![Signal::PopCurrentScreen]
        } else {
            Seq::empty()
        },
        Screens::Pause(_) => Seq::empty(),
    }
}

/// The screen after receiving one event: its event counter bumped, nothing
/// else changed.
pub open spec fn screen_after_event(s: Screens) -> Screens {
    match s {
        Screens::Title(t) => Screens::Title(TitleScreen { ticks: t.ticks, events: bump(t.events) }),
        Screens::Gameplay(g) => Screens::Gameplay(
            GameplayScreen { ticks: g.ticks, events: bump(g.events) },
        ),
        Screens::Pause(p) => Screens::Pause(PauseScreen { ticks: p.ticks, events: bump(p.events) }),
    }
}

/// The screen after receiving one tick: its tick counter bumped, nothing
/// else changed.
pub open spec fn screen_after_tick(s: Screens) -> Screens {
    match s {
        Screens::Title(t) => Screens::Title(TitleScreen { ticks: bump(t.ticks), events: t.events }),
        Screens::Gameplay(g) => Screens::Gameplay(
            GameplayScreen { ticks: bump(g.ticks), events: g.events },
        ),
        Screens::Pause(p) => Screens::Pause(PauseScreen { ticks: bump(p.ticks), events: p.events }),
    }
}

impl Screens {
    /// One per-frame update, dispatched to the variant: a diagnostic no-op,
    /// never consumed.
    pub fn run_tick(&mut self) -> (r: bool)
        ensures
            r == false,
            *final(self) == screen_after_tick(*old(self)),
    {
        match self {
            Screens::Title(title) => title.run_tick(),
            Screens::Gameplay(gameplay) => gameplay.run_tick(),
            Screens::Pause(pause) => pause.run_tick(),
        }
    }

    /// Inspect one event, dispatched to the variant. Reports whether the
    /// variant consumed it; the variant may publish at most one signal.
    pub fn process_event(&mut self, event: &Event, dispatch: &mut Dispatch) -> (r: bool)
        requires
            old(dispatch).all_registered(),
        ensures
            r == screen_consumes(*old(self), *event),
            *final(self) == screen_after_event(*old(self)),
            final(dispatch).queue@ == old(dispatch).queue@ + screen_emits(*old(self), *event),
            final(dispatch).push_registered == old(dispatch).push_registered,
            final(dispatch).pop_registered == old(dispatch).pop_registered,
    {
        match self {
            Screens::Title(title) => title.process_event(event, dispatch),
            Screens::Gameplay(gameplay) => gameplay.process_event(event, dispatch),
            Screens::Pause(pause) => pause.process_event(event),
        }
    }
}

} // verus!
