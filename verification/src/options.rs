//! What a toast shows and how long it lives.

use crate::ttl::{Countdown, Fraction, Ttl};
use vstd::prelude::*;

verus! {

/// Nanoseconds in a millisecond.
pub const NANOS_PER_MILLI: u128 = 1_000_000;

/// Nanoseconds in a second.
pub const NANOS_PER_SEC: u128 = 1_000_000_000;

/// The lifetime that a duration in nanoseconds stands for; no duration
/// stands for a toast that never expires.
pub open spec fn ttl_of(duration: Option<u128>) -> Ttl {
    match duration {
        Some(nanos) => Ttl::Nanos(nanos),
        None => Ttl::Forever,
    }
}

/// The options of one toast.
#[derive(Debug, Copy, Clone)]
pub struct ToastOptions {
    /// Whether the toast includes the icon of its kind.
    pub show_icon: bool,
    /// Whether the toast visualizes the time it has left.
    pub show_progress: bool,
    /// The toast is removed when this has run out.
    pub countdown: Countdown,
}

impl ToastOptions {
    /// The options of a toast that has none set: icon and progress shown,
    /// never expiring.
    pub open spec fn standard() -> ToastOptions {
        ToastOptions {
            show_icon: true,
            show_progress: true,
            countdown: Countdown::starting(Ttl::Forever),
        }
    }

    /// These options with a fresh countdown of `ttl`.
    pub open spec fn lasting(self, ttl: Ttl) -> ToastOptions {
        ToastOptions { countdown: Countdown::starting(ttl), ..self }
    }

    /// Standard options with the given duration in nanoseconds; `None`
    /// means that the toast never expires.
    pub fn with_duration(duration: Option<u128>) -> (options: ToastOptions)
        ensures
            options == ToastOptions::standard().lasting(ttl_of(duration)),
    {
        ToastOptions::default().duration(duration)
    }

    /// Standard options with the given duration in milliseconds.
    pub fn with_duration_in_millis(millis: u64) -> (options: ToastOptions)
        ensures
            options == ToastOptions::standard().lasting(Ttl::Nanos((millis * NANOS_PER_MILLI) as u128)),
    {
        ToastOptions::default().duration_in_millis(millis)
    }

    /// Standard options with the given duration in whole seconds.
    pub fn with_duration_in_seconds(secs: u64) -> (options: ToastOptions)
        ensures
            options == ToastOptions::standard().lasting(Ttl::Nanos((secs * NANOS_PER_SEC) as u128)),
    {
        ToastOptions::default().duration_in_seconds(secs)
    }

    /// Sets the duration of the toast, in nanoseconds, and starts its
    /// countdown afresh. `None` means that the toast never expires.
    pub fn duration(self, duration: Option<u128>) -> (options: ToastOptions)
        ensures
            options == self.lasting(ttl_of(duration)),
    {
        let ttl = match duration {
            Some(nanos) => Ttl::Nanos(nanos),
            None => Ttl::Forever,
        };
        ToastOptions { countdown: Countdown::new(ttl), ..self }
    }

    /// Sets the duration of the toast in milliseconds.
    pub fn duration_in_millis(self, millis: u64) -> (options: ToastOptions)
        ensures
            options == self.lasting(Ttl::Nanos((millis * NANOS_PER_MILLI) as u128)),
    {
        let wide: u128 = millis.into();
        self.duration(Some(wide * NANOS_PER_MILLI))
    }

    /// Sets the duration of the toast in whole seconds.
    pub fn duration_in_seconds(self, secs: u64) -> (options: ToastOptions)
        ensures
            options == self.lasting(Ttl::Nanos((secs * NANOS_PER_SEC) as u128)),
    {
        let wide: u128 = secs.into();
        self.duration(Some(wide * NANOS_PER_SEC))
    }

    /// Whether to visualize the remaining time with a progress bar.
    pub fn show_progress(self, show_progress: bool) -> (options: ToastOptions)
        ensures
            options == (ToastOptions { show_progress, ..self }),
    {
        ToastOptions { show_progress, ..self }
    }

    /// Whether to show the icon of the toast's kind.
    pub fn show_icon(self, show_icon: bool) -> (options: ToastOptions)
        ensures
            options == (ToastOptions { show_icon, ..self }),
    {
        ToastOptions { show_icon, ..self }
    }

    /// The part of the toast's lifetime that is left, from one down to
    /// zero. Zero for a toast that never expires or never had any time.
    pub fn progress(self) -> (p: Fraction)
        ensures
            p == self.countdown.fraction_left(),
            p.in_unit(),
            self.countdown.initial() is Forever || self.countdown.initial() == Ttl::Nanos(0)
                ==> p.is_zero(),
    {
        self.countdown.progress()
    }
}

impl Default for ToastOptions {
    fn default() -> (options: ToastOptions)
        ensures
            options == ToastOptions::standard(),
    {
        ToastOptions { show_icon: true, show_progress: true, countdown: Countdown::new(Ttl::Forever) }
    }
}

} // verus!
