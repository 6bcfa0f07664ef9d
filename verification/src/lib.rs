//! Toast notifications for egui: the countdown, eviction and stacking rules
//! behind a toast overlay, with their contracts.
//!
//! The host draws and keeps the list of live toasts. Once per frame it
//! hands the list to [`Toasts::begin_frame`], which adds what was queued;
//! draws each toast at the offset it is given and reports what it measured
//! to [`Toasts::settle`], which ages the toast and says where the next one
//! goes; and hands the list to [`Toasts::end_frame`], which drops the toasts
//! whose time has run out.

pub mod contents;
pub mod kind;
pub mod laws;
pub mod layout;
pub mod options;
pub mod style;
pub mod text;
pub mod toast;
pub mod toasts;
pub mod ttl;

pub use contents::{default_toast_contents, Contents, Part};
pub use kind::ToastKind;
pub use layout::{Align, Align2, Direction, Measured, Pos, GAP};
pub use options::ToastOptions;
pub use style::ToastStyle;
pub use toast::Toast;
pub use toasts::{Step, Toasts};
pub use ttl::{Countdown, Fraction, Ttl};
