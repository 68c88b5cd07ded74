use vstd::prelude::*;

verus! {

/// A countdown in microseconds. A repeating countdown starts over each time
/// it runs out, carrying the overshoot; a one-shot countdown stops at zero.
#[derive(Clone, Copy, Debug)]
pub struct Countdown {
    period_us: u64,
    remaining_us: u64,
    repeating: bool,
}

/// The state of a countdown, as a mathematical value.
pub struct CountdownView {
    pub period: nat,
    pub remaining: nat,
    pub repeating: bool,
}

impl View for Countdown {
    type V = CountdownView;

    closed spec fn view(&self) -> CountdownView {
        CountdownView {
            period: self.period_us as nat,
            remaining: self.remaining_us as nat,
            repeating: self.repeating,
        }
    }
}

impl CountdownView {
    pub open spec fn wf(self) -> bool {
        &&& 0 < self.period <= u64::MAX
        &&& self.remaining <= self.period
        &&& self.repeating ==> self.remaining > 0
    }

    /// Whether `dt` microseconds run the countdown out.
    pub open spec fn fires(self, dt: nat) -> bool {
        self.remaining > 0 && dt >= self.remaining
    }

    /// The time left after `dt` microseconds.
    pub open spec fn remaining_after(self, dt: nat) -> nat {
        if self.remaining == 0 {
            0
        } else if dt < self.remaining {
            (self.remaining - dt) as nat
        } else if self.repeating {
            (self.period - (dt - self.remaining) % (self.period as int)) as nat
        } else {
            0
        }
    }
}

impl Countdown {
    #[verifier::type_invariant]
    spec fn well_formed(self) -> bool {
        self@.wf()
    }

    /// A countdown that fires every `period_us` microseconds.
    pub fn repeating(period_us: u64) -> (r: Countdown)
        requires
            period_us > 0,
        ensures
            r@.wf(),
            r@ == (CountdownView { period: period_us as nat, remaining: period_us as nat, repeating: true }),
    {
        Countdown { period_us, remaining_us: period_us, repeating: true }
    }

    /// A countdown that fires once, `period_us` microseconds from now.
    pub fn once(period_us: u64) -> (r: Countdown)
        requires
            period_us > 0,
        ensures
            r@.wf(),
            r@ == (CountdownView { period: period_us as nat, remaining: period_us as nat, repeating: false }),
    {
        Countdown { period_us, remaining_us: period_us, repeating: false }
    }

    pub fn remaining_us(&self) -> (r: u64)
        ensures
            r == self@.remaining,
    {
        self.remaining_us
    }

    pub fn period_us(&self) -> (r: u64)
        ensures
            r == self@.period,
    {
        self.period_us
    }

    /// Whether a one-shot countdown has run out.
    pub fn finished(&self) -> (r: bool)
        ensures
            r == (self@.remaining == 0),
    {
        self.remaining_us == 0
    }

    /// Lets `dt_us` microseconds pass. Returns whether the countdown ran out
    /// during them.
    pub fn tick(&mut self, dt_us: u64) -> (fired: bool)
        ensures
            fired == old(self)@.fires(dt_us as nat),
            final(self)@.period == old(self)@.period,
            final(self)@.repeating == old(self)@.repeating,
            final(self)@.remaining == old(self)@.remaining_after(dt_us as nat),
    {
        proof {
            use_type_invariant(&*self);
        }
        if self.remaining_us == 0 {
            false
        } else if dt_us < self.remaining_us {
            self.remaining_us = self.remaining_us - dt_us;
            false
        } else {
            if self.repeating {
                let over = (dt_us - self.remaining_us) % self.period_us;
                self.remaining_us = self.period_us - over;
            } else {
                self.remaining_us = 0;
            }
            true
        }
    }
}

} // verus!
