//! The screen stack: an ordered collection of screens whose last element is
//! the one active screen. Events and ticks go to the top screen only; the
//! two transition signals, delivered back as user events, are interpreted by
//! the stack itself after the top screen has declined the event.

use vstd::prelude::*;

use crate::dispatch::Dispatch;
use crate::event::{Event, Signal};
use crate::screen::{
    GameplayScreen, Screens, TitleScreen, screen_after_event, screen_after_tick, screen_consumes,
    screen_emits,
};

verus! {

/// The stack's own routing step: how a declined (or undelivered) event
/// mutates the ordered collection. A push signal appends a fresh gameplay
/// screen; a pop signal removes the top element, a no-op when the stack is
/// already empty; anything else leaves the stack alone.
pub open spec fn route_signal(stack: Seq<Screens>, e: Event) -> Seq<Screens> {
    match e {
        Event::User { signal } => match signal {
            Signal::PushGameplayScreen => stack.push(
                Screens::Gameplay(GameplayScreen { ticks: 0, events: 0 }),
            ),
            Signal::PopCurrentScreen => if stack.len() > 0 {
                stack.drop_last()
            } else {
                stack
            },
        },
        _ => stack,
    }
}

/// The whole of one `process_event` call on the collection: the top screen,
/// if any, receives the event; if it declines (or there is no top screen),
/// the stack routes the event itself.
pub open spec fn stack_after_event(stack: Seq<Screens>, e: Event) -> Seq<Screens> {
    if stack.len() > 0 {
        let top = stack.last();
        let delivered = stack.update(stack.len() - 1, screen_after_event(top));
        if screen_consumes(top, e) {
            delivered
        } else {
            route_signal(delivered, e)
        }
    } else {
        route_signal(stack, e)
    }
}

/// The signals published during one `process_event` call on the collection:
/// whatever the top screen, if any, emits while handling the event.
pub open spec fn stack_emits(stack: Seq<Screens>, e: Event) -> Seq<Signal> {
    if stack.len() > 0 {
        screen_emits(stack.last(), e)
    } else {
        Seq::empty()
    }
}

/// One `run_tick` call on the collection: the top screen, if any, receives
/// the tick; an empty stack is left unchanged.
pub open spec fn stack_after_tick(stack: Seq<Screens>) -> Seq<Screens> {
    if stack.len() > 0 {
        stack.update(stack.len() - 1, screen_after_tick(stack.last()))
    } else {
        stack
    }
}

/// The stack after a whole sequence of queued transition signals is fed
/// back through its routing step, oldest first, each wrapped as a user
/// event.
pub open spec fn apply_signals(stack: Seq<Screens>, sigs: Seq<Signal>) -> Seq<Screens>
    decreases sigs.len(),
{
    if sigs.len() == 0 {
        stack
    } else {
        apply_signals(stack_after_event(stack, Event::User { signal: sigs[0] }), sigs.drop_first())
    }
}

/// How many push signals a sequence holds.
pub open spec fn count_pushes(sigs: Seq<Signal>) -> nat
    decreases sigs.len(),
{
    if sigs.len() == 0 {
        0
    } else {
        (if sigs[0] is PushGameplayScreen {
            1 as nat
        } else {
            0 as nat
        }) + count_pushes(sigs.drop_first())
    }
}

/// How many pop signals actually remove a screen when the sequence is
/// applied in order to a stack of the given starting size. A pop that finds
/// the stack empty is a defined no-op and is not counted.
pub open spec fn count_effective_pops(size: nat, sigs: Seq<Signal>) -> nat
    decreases sigs.len(),
{
    if sigs.len() == 0 {
        0
    } else {
        match sigs[0] {
            Signal::PushGameplayScreen => count_effective_pops(size + 1, sigs.drop_first()),
            Signal::PopCurrentScreen => if size > 0 {
                1 + count_effective_pops((size - 1) as nat, sigs.drop_first())
            } else {
                count_effective_pops(0, sigs.drop_first())
            },
        }
    }
}

/// Law: for every sequence of push/pop signals, the stack's size after
/// processing them all equals the starting size, plus the number of push
/// signals, minus the number of pop signals that found a non-empty stack.
pub proof fn lemma_size_after_signals(stack: Seq<Screens>, sigs: Seq<Signal>)
    ensures
        count_effective_pops(stack.len(), sigs) <= stack.len() + count_pushes(sigs),
        apply_signals(stack, sigs).len() == stack.len() + count_pushes(sigs)
            - count_effective_pops(stack.len(), sigs),
    decreases sigs.len(),
{
    if sigs.len() > 0 {
        let e = Event::User { signal: sigs[0] };
        let stepped = stack_after_event(stack, e);
        assert(stepped.len() == (match sigs[0] {
            Signal::PushGameplayScreen => stack.len() + 1,
            Signal::PopCurrentScreen => if stack.len() > 0 {
                (stack.len() - 1) as nat
            } else {
                stack.len()
            },
        }));
        lemma_size_after_signals(stepped, sigs.drop_first());
    }
}

/// Law: only the top screen is ever invoked. Every screen beneath the top
/// is identical after an event or a tick is processed — its counters, like
/// all its state, are untouched while it is suspended.
pub proof fn lemma_below_top_untouched(stack: Seq<Screens>, e: Event)
    ensures
        forall|i: int| 0 <= i < stack.len() - 1 ==> stack_after_event(stack, e)[i] == stack[i],
        forall|i: int| 0 <= i < stack.len() - 1 ==> stack_after_tick(stack)[i] == stack[i],
{
}

/// Law: a pop signal on a single-element stack yields the empty stack,
/// whatever the screen was. (On the empty stack both operations are then
/// defined no-ops: `run_tick` leaves it empty and reports false, and
/// `process_event` reports true and publishes nothing, as their contracts
/// state without excluding the empty stack.)
pub proof fn lemma_pop_to_empty(stack: Seq<Screens>)
    requires
        stack.len() == 1,
    ensures
        stack_after_event(stack, Event::User { signal: Signal::PopCurrentScreen }).len() == 0,
{
}

/// Law: the empty stack is inert. A tick leaves it empty, no signal is ever
/// published from it, and every event but a push signal leaves it empty.
pub proof fn lemma_empty_stack_inert(e: Event)
    ensures
        stack_after_tick(Seq::<Screens>::empty()) == Seq::<Screens>::empty(),
        stack_emits(Seq::<Screens>::empty(), e) == Seq::<Signal>::empty(),
        !(e matches Event::User { signal: Signal::PushGameplayScreen }) ==> stack_after_event(
            Seq::<Screens>::empty(),
            e,
        ) == Seq::<Screens>::empty(),
{
}

/// The LIFO collection of screens. The last element of `screens` is the top
/// of the stack: the sole active screen.
pub struct ScreenStack {
    pub screens: Vec<Screens>,
}

impl ScreenStack {
    /// A stack holding a single fresh title screen.
    pub fn new() -> (s: Self)
        ensures
            s.screens@ == seq![Screens::Title(TitleScreen { ticks: 0, events: 0 })],
    {
        let mut screens: Vec<Screens> = Vec::new();
        screens.push(Screens::Title(TitleScreen::new()));
        proof {
            assert(screens@ =~= seq![Screens::Title(TitleScreen { ticks: 0, events: 0 })]);
        }
        ScreenStack { screens }
    }

    /// Route one event. The top screen, if any, sees it first; if it is not
    /// consumed there, the stack interprets the two transition signals
    /// itself. Always reports true: the routing step itself completed,
    /// whether or not any state changed.
    pub fn process_event(&mut self, event: &Event, dispatch: &mut Dispatch) -> (r: bool)
        requires
            old(dispatch).all_registered(),
        ensures
            r == true,
            final(self).screens@ == stack_after_event(old(self).screens@, *event),
            final(dispatch).queue@ == old(dispatch).queue@ + stack_emits(
                old(self).screens@,
                *event,
            ),
            final(dispatch).push_registered == old(dispatch).push_registered,
            final(dispatch).pop_registered == old(dispatch).pop_registered,
    {
        let n = self.screens.len();
        let screen_did_process: bool = if n > 0 {
            let screen = &mut self.screens[n - 1];
            screen.process_event(event, dispatch)
        } else {
            proof {
                assert(old(dispatch).queue@ + stack_emits(old(self).screens@, *event)
                    =~= old(dispatch).queue@);
            }
            false
        };
        if !screen_did_process {
            match event {
                Event::User { signal } => match signal {
                    Signal::PushGameplayScreen => {
                        self.screens.push(Screens::Gameplay(GameplayScreen::new()));
                    },
                    Signal::PopCurrentScreen => {
                        if self.screens.len() > 0 {
                            let _ = self.screens.pop();
                        }
                    },
                },
                _ => {},
            }
        }
        true
    }

    /// One per-frame update: forwarded to the top screen, whose result is
    /// returned; reports false on an empty stack. No screen consumes its
    /// tick, so the result is always false.
    pub fn run_tick(&mut self) -> (r: bool)
        ensures
            r == false,
            final(self).screens@ == stack_after_tick(old(self).screens@),
    {
        let n = self.screens.len();
        if n > 0 {
            let screen = &mut self.screens[n - 1];
            screen.run_tick()
        } else {
            false
        }
    }
}

} // verus!
