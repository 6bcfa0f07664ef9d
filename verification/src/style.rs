//! The look of a toast, apart from what it does.

use crate::text::{colored, colored_text, plain, plain_text};
use egui::WidgetText;
use vstd::prelude::*;

verus! {

/// The icons of the built-in kinds and the label of the close button.
pub struct ToastStyle {
    pub info_icon: WidgetText,
    pub warning_icon: WidgetText,
    pub error_icon: WidgetText,
    pub success_icon: WidgetText,
    pub close_button_text: WidgetText,
}

impl ToastStyle {
    /// The style that toasts have unless they are given another.
    pub open spec fn standard() -> ToastStyle {
        ToastStyle {
            info_icon: colored_text("ℹ"@, 0, 155, 255),
            warning_icon: colored_text("⚠"@, 255, 212, 0),
            error_icon: colored_text("❗"@, 255, 32, 0),
            success_icon: colored_text("✔"@, 0, 255, 32),
            close_button_text: plain_text("🗙"@),
        }
    }
}

impl Clone for ToastStyle {
    fn clone(&self) -> (copy: ToastStyle)
        ensures
            copy == *self,
    {
        ToastStyle {
            info_icon: self.info_icon.clone(),
            warning_icon: self.warning_icon.clone(),
            error_icon: self.error_icon.clone(),
            success_icon: self.success_icon.clone(),
            close_button_text: self.close_button_text.clone(),
        }
    }
}

impl Default for ToastStyle {
    fn default() -> (style: ToastStyle)
        ensures
            style == ToastStyle::standard(),
    {
        ToastStyle {
            info_icon: colored("ℹ", 0, 155, 255),
            warning_icon: colored("⚠", 255, 212, 0),
            error_icon: colored("❗", 255, 32, 0),
            success_icon: colored("✔", 0, 255, 32),
            close_button_text: plain("🗙"),
        }
    }
}

} // verus!
