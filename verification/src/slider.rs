//! Control state of the slider streaming loop.
//!
//! The loop itself is a background thread run by the process glue: each
//! cycle it requests the latest slider state, folds the reply into the
//! device cache and hands the snapshot to the registered callback.  What
//! is verified here is the two-state machine that gates it: `start` moves
//! Idle to Active, stores the callback and is the only call that spawns
//! the loop; a `start` while already Active is an exact no-op that neither
//! spawns a second loop nor replaces the callback; `stop` clears the
//! Active flag that the loop re-reads at each cycle boundary.

use vstd::prelude::*;

verus! {

/// The activation flag and callback slot of the streaming loop, generic
/// over whatever the glue registers as its callback.
#[derive(Debug, Clone, PartialEq)]
pub struct SliderControl<C> {
    /// Whether the loop should keep running.
    pub active: bool,
    /// The callback handed to the last accepted `start`.
    pub callback: Option<C>,
}

impl<C> SliderControl<C> {
    /// The idle state: no loop running, no callback registered.
    pub open spec fn spec_idle() -> SliderControl<C> {
        SliderControl { active: false, callback: None }
    }

    /// Where `start` takes the control state: an Idle control becomes
    /// Active with the new callback; an Active one is left exactly as it
    /// is.
    pub open spec fn spec_start(self, callback: C) -> SliderControl<C> {
        if self.active {
            self
        } else {
            SliderControl { active: true, callback: Some(callback) }
        }
    }

    /// Whether a `start` on this control state spawns the loop.
    pub open spec fn spec_start_spawns(self) -> bool {
        !self.active
    }

    /// Where `stop` takes the control state: the flag is cleared, the
    /// callback slot is left as it is.
    pub open spec fn spec_stop(self) -> SliderControl<C> {
        SliderControl { active: false, callback: self.callback }
    }

    /// A fresh, idle control state.
    pub fn new() -> (s: SliderControl<C>)
        ensures
            s == SliderControl::<C>::spec_idle(),
    {
        SliderControl { active: false, callback: None }
    }

    /// Requests activation.  The result says whether the caller must now
    /// spawn the loop: true exactly on the Idle-to-Active transition.
    pub fn start(&mut self, callback: C) -> (spawn: bool)
        ensures
            *final(self) == old(self).spec_start(callback),
            spawn == old(self).spec_start_spawns(),
    {
        if self.active {
            return false;
        }
        self.callback = Some(callback);
        self.active = true;
        true
    }

    /// Requests deactivation; the loop observes it at its next cycle
    /// boundary.
    pub fn stop(&mut self)
        ensures
            *final(self) == old(self).spec_stop(),
    {
        self.active = false;
    }

    /// Whether the loop should run another cycle.
    pub fn is_active(&self) -> (b: bool)
        ensures
            b == self.active,
    {
        self.active
    }
}

/// Starting an already started stream is idempotent: after any `start`,
/// a second `start` — whatever callback it carries — changes nothing and
/// spawns no second loop.
pub proof fn lemma_start_idempotent<C>(s: SliderControl<C>, cb1: C, cb2: C)
    ensures
        s.spec_start(cb1).spec_start(cb2) == s.spec_start(cb1),
        !s.spec_start(cb1).spec_start_spawns(),
{
}

/// Stopping always idles the loop and keeps the registered callback.
pub proof fn lemma_stop_idles<C>(s: SliderControl<C>)
    ensures
        !s.spec_stop().active,
        s.spec_stop().callback == s.callback,
{
}

} // verus!
