//! A two-state timer for what blinks on the screen.

use vstd::prelude::*;

verus! {

/// A timer as plain values.
pub struct BlinkView {
    /// Whether the timer is switched on.
    pub state: bool,
    /// The number of tics up to the next switch, the switching tic counted in.
    pub count: usize,
    /// The number of tics between two switches.
    pub delay: usize,
}

impl BlinkView {
    /// The timer after one tic.
    pub open spec fn ticked(self) -> BlinkView {
        if self.count == 1 {
            BlinkView { state: !self.state, count: self.delay, delay: self.delay }
        } else {
            BlinkView { state: self.state, count: (self.count - 1) as usize, delay: self.delay }
        }
    }

    /// The timer switched on, with its count begun anew.
    pub open spec fn restarted(self) -> BlinkView {
        BlinkView { state: true, count: self.delay, delay: self.delay }
    }

    /// The count lies between one and the delay.
    pub open spec fn wf(self) -> bool {
        1 <= self.count <= self.delay
    }
}

/// A timer that switches between on and off every `delay` tics. It starts switched on.
pub struct Blink {
    state: bool,
    count: usize,
    delay: usize,
}

impl View for Blink {
    type V = BlinkView;

    closed spec fn view(&self) -> BlinkView {
        BlinkView { state: self.state, count: self.count, delay: self.delay }
    }
}

impl Blink {
    #[verifier::type_invariant]
    spec fn inv(self) -> bool {
        1 <= self.count <= self.delay
    }

    /// Whether the timer is switched on.
    pub open spec fn state(&self) -> bool {
        self@.state
    }

    /// The number of tics up to the next switch, the switching tic counted in.
    pub open spec fn count(&self) -> usize {
        self@.count
    }

    /// The number of tics between two switches.
    pub open spec fn delay(&self) -> usize {
        self@.delay
    }

    /// A timer that switches every `delay` tics.
    pub fn new(delay: usize) -> (r: Blink)
        requires
            delay >= 1,
        ensures
            r@ == (BlinkView { state: true, count: delay, delay }),
    {
        Blink { state: true, count: delay, delay }
    }

    /// Counts one tic and tells whether the timer is switched on after it.
    pub fn tic(&mut self) -> (r: bool)
        ensures
            final(self)@ == old(self)@.ticked(),
            r == final(self)@.state,
            old(self)@.wf(),
            final(self)@.wf(),
    {
        proof {
            use_type_invariant(&*self);
        }
        if self.count - 1 == 0 {
            *self = Blink { state: !self.state, count: self.delay, delay: self.delay };
        } else {
            self.count -= 1;
        }
        self.state
    }

    /// Switches the timer on and starts its count anew.
    pub fn reset(&mut self)
        ensures
            final(self)@ == old(self)@.restarted(),
            final(self)@.wf(),
    {
        proof {
            use_type_invariant(&*self);
        }
        *self = Blink { state: true, count: self.delay, delay: self.delay };
    }

    /// Whether the timer is switched on.
    pub fn is_on(&self) -> (r: bool)
        ensures
            r == self.state(),
    {
        self.state
    }
}

} // verus!
