//! A single notification.

use crate::kind::ToastKind;
use crate::options::ToastOptions;
use crate::style::ToastStyle;
use crate::text::{plain, plain_text};
use egui::WidgetText;
use vstd::prelude::*;

verus! {

/// A notification: its kind, its text, its options and its look.
pub struct Toast {
    pub kind: ToastKind,
    pub text: WidgetText,
    pub options: ToastOptions,
    pub style: ToastStyle,
}

impl Toast {
    /// The toast that `new` makes: an info toast with an empty text, the
    /// standard options and the standard style.
    pub open spec fn blank() -> Toast {
        Toast {
            kind: ToastKind::Info,
            text: plain_text(""@),
            options: ToastOptions::standard(),
            style: ToastStyle::standard(),
        }
    }

    /// A toast of the given kind, text and options in the standard style.
    pub open spec fn of_kind(kind: ToastKind, text: WidgetText, options: ToastOptions) -> Toast {
        Toast { kind, text, options, style: ToastStyle::standard() }
    }

    /// Whether the toast has time left, and so stays in the list.
    pub open spec fn alive(self) -> bool {
        self.options.countdown.alive()
    }

    /// This toast with its countdown ended.
    pub open spec fn closed(self) -> Toast {
        Toast {
            options: ToastOptions { countdown: self.options.countdown.closed(), ..self.options },
            ..self
        }
    }

    /// This toast after a frame of `dt` nanoseconds: that much older,
    /// unless the pointer was over it.
    pub open spec fn aged(self, hovered: bool, dt: nat) -> Toast {
        if hovered {
            self
        } else {
            Toast {
                options: ToastOptions {
                    countdown: self.options.countdown.ticked(dt),
                    ..self.options
                },
                ..self
            }
        }
    }

    /// This toast after the given frames, each with whether the pointer was
    /// over the toast and the nanoseconds that passed.
    pub open spec fn aged_through(self, frames: Seq<(bool, u128)>) -> Toast
        decreases frames.len(),
    {
        if frames.len() == 0 {
            self
        } else {
            self.aged_through(frames.drop_last()).aged(frames.last().0, frames.last().1 as nat)
        }
    }

    /// An info toast with an empty text, the standard options and the
    /// standard style.
    pub fn new() -> (toast: Toast)
        ensures
            toast == Toast::blank(),
    {
        Toast::default()
    }

    /// Sets the kind.
    pub fn kind(self, kind: ToastKind) -> (toast: Toast)
        ensures
            toast == (Toast { kind, ..self }),
    {
        Toast { kind, ..self }
    }

    /// Sets the text.
    pub fn text(self, text: WidgetText) -> (toast: Toast)
        ensures
            toast == (Toast { text, ..self }),
    {
        Toast { text, ..self }
    }

    /// Sets the options, and with them the time the toast has left.
    pub fn options(self, options: ToastOptions) -> (toast: Toast)
        ensures
            toast == (Toast { options, ..self }),
    {
        Toast { options, ..self }
    }

    /// Sets the look.
    pub fn style(self, style: ToastStyle) -> (toast: Toast)
        ensures
            toast == (Toast { style, ..self }),
    {
        Toast { style, ..self }
    }

    /// Whether the toast has time left.
    pub fn is_alive(&self) -> (b: bool)
        ensures
            b == self.alive(),
    {
        self.options.countdown.is_alive()
    }

    /// Closes the toast at once: it is gone from the next frame on.
    pub fn close(&mut self)
        ensures
            *final(self) == old(self).closed(),
            !final(self).alive(),
    {
        self.options.countdown.close();
    }
}

/// The time that passed in the frames in which the pointer was not over the
/// toast.
pub open spec fn counted(frames: Seq<(bool, u128)>) -> nat
    decreases frames.len(),
{
    if frames.len() == 0 {
        0
    } else if frames.last().0 {
        counted(frames.drop_last())
    } else {
        counted(frames.drop_last()) + frames.last().1 as nat
    }
}

impl Clone for Toast {
    fn clone(&self) -> (copy: Toast)
        ensures
            copy == *self,
    {
        Toast {
            kind: self.kind,
            text: self.text.clone(),
            options: self.options,
            style: self.style.clone(),
        }
    }
}

impl Default for Toast {
    fn default() -> (toast: Toast)
        ensures
            toast == Toast::blank(),
    {
        Toast {
            kind: ToastKind::Info,
            text: plain(""),
            options: ToastOptions::default(),
            style: ToastStyle::default(),
        }
    }
}

} // verus!
