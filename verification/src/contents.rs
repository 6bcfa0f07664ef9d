//! What a toast shows when the application has registered nothing for its
//! kind: the pieces, their order, and the progress to draw under them.

use crate::kind::ToastKind;
use crate::toast::Toast;
use crate::ttl::Fraction;
use egui::WidgetText;
use vstd::prelude::*;

verus! {

/// One piece of a toast's default contents.
pub enum Part {
    /// The icon of the toast's kind.
    Icon(WidgetText),
    /// The toast's text.
    Text(WidgetText),
    /// The button that closes the toast, with its label.
    CloseButton(WidgetText),
}

impl Clone for Part {
    fn clone(&self) -> (copy: Part)
        ensures
            copy == *self,
    {
        match self {
            Part::Icon(icon) => Part::Icon(icon.clone()),
            Part::Text(text) => Part::Text(text.clone()),
            Part::CloseButton(label) => Part::CloseButton(label.clone()),
        }
    }
}

/// The default contents of a toast.
pub struct Contents {
    /// The pieces, in the order in which they are laid out.
    pub parts: Vec<Part>,
    /// The part of the toast's lifetime to show as left, if the toast
    /// shows its progress.
    pub progress: Option<Fraction>,
}

impl Toast {
    /// The icon of the toast's kind, taken from its style. Custom kinds
    /// have the info icon.
    pub open spec fn icon(self) -> WidgetText {
        match self.kind {
            ToastKind::Warning => self.style.warning_icon,
            ToastKind::Error => self.style.error_icon,
            ToastKind::Success => self.style.success_icon,
            _ => self.style.info_icon,
        }
    }

    /// The pieces of the default contents, as read from left to right:
    /// the icon if it is shown, the text, the close button.
    pub open spec fn parts_left_to_right(self) -> Seq<Part> {
        let icon = if self.options.show_icon {
            seq![Part::Icon(self.icon())]
        } else {
            Seq::<Part>::empty()
        };
        icon + seq![Part::Text(self.text), Part::CloseButton(self.style.close_button_text)]
    }

    /// The pieces in the order in which they are laid out: on a
    /// right-to-left layout the close button is laid out first and the icon
    /// last, so that the toast looks the same.
    pub open spec fn parts(self, right_to_left: bool) -> Seq<Part> {
        if right_to_left {
            self.parts_left_to_right().reverse()
        } else {
            self.parts_left_to_right()
        }
    }

    /// The progress that the default contents show: the part of the
    /// lifetime that is left, if the toast shows its progress.
    pub open spec fn shown_progress(self) -> Option<Fraction> {
        if self.options.show_progress {
            Some(self.options.countdown.fraction_left())
        } else {
            None
        }
    }
}

/// The default contents of `toast`, for a layout that places its pieces
/// from the left or, with `right_to_left`, from the right.
pub fn default_toast_contents(toast: &Toast, right_to_left: bool) -> (contents: Contents)
    ensures
        contents.parts@ == toast.parts(right_to_left),
        contents.progress == toast.shown_progress(),
{
    let icon = match toast.kind {
        ToastKind::Warning => toast.style.warning_icon.clone(),
        ToastKind::Error => toast.style.error_icon.clone(),
        ToastKind::Success => toast.style.success_icon.clone(),
        _ => toast.style.info_icon.clone(),
    };
    let text = Part::Text(toast.text.clone());
    let close = Part::CloseButton(toast.style.close_button_text.clone());
    let mut parts: Vec<Part> = Vec::new();
    if right_to_left {
        parts.push(close);
        parts.push(text);
        if toast.options.show_icon {
            parts.push(Part::Icon(icon));
        }
    } else {
        if toast.options.show_icon {
            parts.push(Part::Icon(icon));
        }
        parts.push(text);
        parts.push(close);
    }
    let progress = if toast.options.show_progress {
        Some(toast.options.progress())
    } else {
        None
    };
    assert(parts@ =~= toast.parts(right_to_left));
    Contents { parts, progress }
}

} // verus!
