//! Lifetimes: how long a toast has left, and the countdown that spends it.
//!
//! Time is counted in whole nanoseconds; a lifetime is a number of them, or
//! unbounded.

use vstd::prelude::*;

verus! {

/// A time to live, in nanoseconds.
#[derive(Debug, Copy, Clone, PartialEq, Eq, Structural)]
pub enum Ttl {
    Nanos(u128),
    /// Never runs out.
    Forever,
}

impl Ttl {
    /// Whether any time is left.
    pub open spec fn positive(self) -> bool {
        match self {
            Ttl::Nanos(n) => n > 0,
            Ttl::Forever => true,
        }
    }

    /// Whether this lifetime is a number.
    pub open spec fn finite(self) -> bool {
        self is Nanos
    }

    /// `self <= other`, with `Forever` above every number.
    pub open spec fn le(self, other: Ttl) -> bool {
        match (self, other) {
            (_, Ttl::Forever) => true,
            (Ttl::Nanos(a), Ttl::Nanos(b)) => a <= b,
            (Ttl::Forever, Ttl::Nanos(_)) => false,
        }
    }

    /// What is left of this lifetime once `dt` nanoseconds have passed:
    /// `dt` less, but never below zero. `Forever` stays `Forever`.
    pub open spec fn after(self, dt: nat) -> Ttl {
        match self {
            Ttl::Nanos(n) => if dt <= n {
                Ttl::Nanos((n - dt) as u128)
            } else {
                Ttl::Nanos(0)
            },
            Ttl::Forever => Ttl::Forever,
        }
    }

    /// Whether any time is left.
    #[verifier::when_used_as_spec(positive)]
    pub fn is_positive(self) -> (b: bool)
        ensures
            b == self.positive(),
    {
        match self {
            Ttl::Nanos(n) => n > 0,
            Ttl::Forever => true,
        }
    }

    /// Whether this lifetime is a number.
    #[verifier::when_used_as_spec(finite)]
    pub fn is_finite(self) -> (b: bool)
        ensures
            b == self.finite(),
    {
        match self {
            Ttl::Nanos(_) => true,
            Ttl::Forever => false,
        }
    }

    /// The lifetime `dt` nanoseconds later.
    pub fn elapse(self, dt: u128) -> (left: Ttl)
        ensures
            left == self.after(dt as nat),
    {
        match self {
            Ttl::Nanos(n) => Ttl::Nanos(n.saturating_sub(dt)),
            Ttl::Forever => Ttl::Forever,
        }
    }
}

/// A part of a whole: `numer / denom`, with `denom > 0` wherever the
/// library makes one.
#[derive(Debug, Copy, Clone, PartialEq, Eq, Structural)]
pub struct Fraction {
    pub numer: u128,
    pub denom: u128,
}

impl Fraction {
    /// Between zero and one.
    pub open spec fn in_unit(self) -> bool {
        self.denom > 0 && self.numer <= self.denom
    }

    /// Zero.
    pub open spec fn is_zero(self) -> bool {
        self.denom > 0 && self.numer == 0
    }

    /// `self < other` as numbers, for positive denominators.
    pub open spec fn lt(self, other: Fraction) -> bool {
        self.numer * other.denom < other.numer * self.denom
    }
}

/// The remaining and the initial lifetime of a toast. The remaining lifetime
/// never exceeds the initial one.
#[derive(Debug, Copy, Clone)]
pub struct Countdown {
    pub(crate) remaining: Ttl,
    pub(crate) initial: Ttl,
}

impl Countdown {
    #[verifier::type_invariant]
    spec fn inv(self) -> bool {
        self.remaining.le(self.initial)
    }

    /// The time left.
    pub open(crate) spec fn remaining(self) -> Ttl {
        self.remaining
    }

    /// The time the countdown started with.
    pub open(crate) spec fn initial(self) -> Ttl {
        self.initial
    }

    /// What every countdown that the library hands out satisfies.
    pub open spec fn wf(self) -> bool {
        self.remaining().le(self.initial())
    }

    /// A fresh countdown of `ttl`.
    pub open(crate) spec fn starting(ttl: Ttl) -> Countdown {
        Countdown { remaining: ttl, initial: ttl }
    }

    /// This countdown `dt` nanoseconds later.
    pub open(crate) spec fn ticked(self, dt: nat) -> Countdown {
        Countdown { remaining: self.remaining.after(dt), initial: self.initial }
    }

    /// This countdown cut short: nothing left, the initial lifetime kept.
    pub open(crate) spec fn closed(self) -> Countdown {
        Countdown { remaining: Ttl::Nanos(0), initial: self.initial }
    }

    /// Whether the toast is still to be shown.
    pub open spec fn alive(self) -> bool {
        self.remaining().positive()
    }

    /// The part of the initial lifetime that is left. Zero where the
    /// initial lifetime is unbounded or zero.
    pub open spec fn fraction_left(self) -> Fraction {
        match (self.remaining(), self.initial()) {
            (Ttl::Nanos(r), Ttl::Nanos(i)) if i > 0 => Fraction { numer: r, denom: i },
            _ => Fraction { numer: 0, denom: 1 },
        }
    }

    /// A countdown that starts at `ttl`.
    pub fn new(ttl: Ttl) -> (c: Countdown)
        ensures
            c == Countdown::starting(ttl),
            c.remaining() == ttl,
            c.initial() == ttl,
    {
        Countdown { remaining: ttl, initial: ttl }
    }

    /// The time left.
    pub fn remaining_ttl(&self) -> (ttl: Ttl)
        ensures
            ttl == self.remaining(),
    {
        self.remaining
    }

    /// The time the countdown started with, which is at least the time
    /// left.
    pub fn initial_ttl(&self) -> (ttl: Ttl)
        ensures
            ttl == self.initial(),
            self.remaining().le(ttl),
    {
        proof {
            use_type_invariant(self);
        }
        self.initial
    }

    /// Whether any time is left.
    #[verifier::when_used_as_spec(alive)]
    pub fn is_alive(self) -> (b: bool)
        ensures
            b == self.alive(),
    {
        self.remaining.is_positive()
    }

    /// Lets `dt` nanoseconds pass.
    pub fn tick(&mut self, dt: u128)
        ensures
            *final(self) == old(self).ticked(dt as nat),
            final(self).remaining() == old(self).remaining().after(dt as nat),
            final(self).initial() == old(self).initial(),
    {
        proof {
            use_type_invariant(&*self);
        }
        self.remaining = self.remaining.elapse(dt);
    }

    /// Ends the countdown at once.
    pub fn close(&mut self)
        ensures
            *final(self) == old(self).closed(),
            final(self).remaining() == Ttl::Nanos(0),
            final(self).initial() == old(self).initial(),
            !final(self).alive(),
    {
        self.remaining = Ttl::Nanos(0);
    }

    /// The part of the initial lifetime that is left, between zero and one.
    pub fn progress(&self) -> (p: Fraction)
        ensures
            p == self.fraction_left(),
            p.in_unit(),
            self.initial() is Forever || self.initial() == Ttl::Nanos(0) ==> p.is_zero(),
    {
        proof {
            use_type_invariant(self);
        }
        match (self.remaining, self.initial) {
            (Ttl::Nanos(r), Ttl::Nanos(i)) => {
                if i > 0 {
                    Fraction { numer: r, denom: i }
                } else {
                    Fraction { numer: 0, denom: 1 }
                }
            },
            _ => Fraction { numer: 0, denom: 1 },
        }
    }
}

} // verus!
