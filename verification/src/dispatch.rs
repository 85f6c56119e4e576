//! The dispatch facility: at-most-once registration of each signal type, and
//! a FIFO queue of published signals, drained once per frame by the owning
//! loop. It is passed explicitly to whatever needs to publish, so a test can
//! observe every publish without a windowing backend.

use vstd::prelude::*;

use crate::event::Signal;

verus! {

/// The errors of the dispatch facility. Both are startup-invariant
/// violations: callers are expected to treat them as fatal.
#[derive(Clone, Copy, PartialEq, Eq, Debug)]
pub enum DispatchError {
    /// The signal type was already registered.
    AlreadyRegistered,
    /// The published signal type was never registered.
    NotRegistered,
}

/// The dispatch facility itself: which signal types are registered, and the
/// queue of published signals in publish order (front = oldest).
pub struct Dispatch {
    pub push_registered: bool,
    pub pop_registered: bool,
    pub queue: Vec<Signal>,
}

impl Dispatch {
    /// Is this signal type registered?
    pub open spec fn registered(self, signal: Signal) -> bool {
        match signal {
            Signal::PushGameplayScreen => self.push_registered,
            Signal::PopCurrentScreen => self.pop_registered,
        }
    }

    /// Are both signal types registered? Required before any screen may
    /// publish.
    pub open spec fn all_registered(self) -> bool {
        self.push_registered && self.pop_registered
    }

    /// A fresh facility: nothing registered, nothing queued.
    pub fn new() -> (d: Dispatch)
        ensures
            !d.push_registered,
            !d.pop_registered,
            d.queue@ == Seq::<Signal>::empty(),
    {
        Dispatch { push_registered: false, pop_registered: false, queue: Vec::new() }
    }

    /// Register a signal type. Succeeds exactly once per type; a second
    /// registration of the same type is rejected and leaves the facility
    /// unchanged.
    pub fn register_custom_event(&mut self, signal: Signal) -> (r: Result<(), DispatchError>)
        ensures
            r is Ok <==> !old(self).registered(signal),
            r is Err ==> r == Err::<(), DispatchError>(DispatchError::AlreadyRegistered),
            final(self).registered(signal),
            forall|s: Signal|
                s != signal ==> final(self).registered(s) == old(self).registered(s),
            final(self).queue@ == old(self).queue@,
    {
        match signal {
            Signal::PushGameplayScreen => {
                if self.push_registered {
                    Err(DispatchError::AlreadyRegistered)
                } else {
                    self.push_registered = true;
                    Ok(())
                }
            },
            Signal::PopCurrentScreen => {
                if self.pop_registered {
                    Err(DispatchError::AlreadyRegistered)
                } else {
                    self.pop_registered = true;
                    Ok(())
                }
            },
        }
    }

    /// Publish a signal: append it to the back of the queue. Publishing a
    /// signal type that was never registered is rejected and queues nothing.
    pub fn push_custom_event(&mut self, signal: Signal) -> (r: Result<(), DispatchError>)
        ensures
            r is Ok <==> old(self).registered(signal),
            r is Ok ==> final(self).queue@ == old(self).queue@.push(signal),
            r is Err ==> r == Err::<(), DispatchError>(DispatchError::NotRegistered),
            r is Err ==> final(self).queue@ == old(self).queue@,
            final(self).push_registered == old(self).push_registered,
            final(self).pop_registered == old(self).pop_registered,
    {
        let is_registered = match signal {
            Signal::PushGameplayScreen => self.push_registered,
            Signal::PopCurrentScreen => self.pop_registered,
        };
        if is_registered {
            self.queue.push(signal);
            Ok(())
        } else {
            Err(DispatchError::NotRegistered)
        }
    }

    /// Take the oldest queued signal, if any.
    pub fn poll(&mut self) -> (r: Option<Signal>)
        ensures
            old(self).queue@.len() == 0 ==> r is None && final(self).queue@ == old(self).queue@,
            old(self).queue@.len() > 0 ==> r == Some(old(self).queue@[0]) && final(self).queue@
                == old(self).queue@.drop_first(),
            final(self).push_registered == old(self).push_registered,
            final(self).pop_registered == old(self).pop_registered,
    {
        if self.queue.len() == 0 {
            None
        } else {
            let signal = self.queue.remove(0);
            proof {
                assert(self.queue@ =~= old(self).queue@.drop_first());
            }
            Some(signal)
        }
    }

    /// Exported registration check, so unverified callers can confirm the
    /// startup invariant before driving the stack.
    pub fn is_registered(&self, signal: Signal) -> (r: bool)
        ensures
            r == self.registered(signal),
    {
        match signal {
            Signal::PushGameplayScreen => self.push_registered,
            Signal::PopCurrentScreen => self.pop_registered,
        }
    }
}

} // verus!
