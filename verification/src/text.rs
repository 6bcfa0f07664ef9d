//! The texts that a toast carries.
//!
//! A text is an `egui::WidgetText`. The library hands texts on and never
//! looks inside one; the few that it makes itself come from egui, through
//! the functions of this module.

use vstd::prelude::*;

verus! {

/// egui's `WidgetText`. The verifier knows the type and nothing of what a
/// value of it holds.
#[verifier::external_type_specification]
#[verifier::external_body]
pub struct ExWidgetText(egui::WidgetText);

/// `WidgetText::clone`, which egui derives: the copy equals the text it was
/// made of.
pub assume_specification[ <egui::WidgetText as Clone>::clone ](text: &egui::WidgetText) -> (copy:
    egui::WidgetText)
    ensures
        copy == *text,
;

/// The text that egui makes of a plain string.
pub uninterp spec fn plain_text(content: Seq<char>) -> egui::WidgetText;

/// The text that egui makes of a plain string and a colour for it, given
/// as red, green and blue.
pub uninterp spec fn colored_text(content: Seq<char>, red: u8, green: u8, blue: u8) -> egui::WidgetText;

/// `WidgetText::from(&str)`: the text is what egui makes of the string, and
/// depends on nothing else.
#[verifier::external_body]
pub(crate) fn plain(content: &str) -> (text: egui::WidgetText)
    ensures
        text == plain_text(content@),
{
    egui::WidgetText::from(content)
}

/// `WidgetText::color`, called on `WidgetText::from(content)` with the
/// colour `Color32::from_rgb(red, green, blue)`: the text is what egui makes
/// of the string and the three channels, and depends on nothing else.
#[verifier::external_body]
pub(crate) fn colored(content: &str, red: u8, green: u8, blue: u8) -> (text: egui::WidgetText)
    ensures
        text == colored_text(content@, red, green, blue),
{
    egui::WidgetText::from(content).color(egui::Color32::from_rgb(red, green, blue))
}

} // verus!
