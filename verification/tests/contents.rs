use egui::WidgetText;
use egui_toast::{
    default_toast_contents, Fraction, Part, Toast, ToastKind, ToastOptions, ToastStyle, Toasts,
};

fn describe(parts: &[Part]) -> Vec<String> {
    parts
        .iter()
        .map(|part| match part {
            Part::Icon(icon) => format!("icon {}", icon.text()),
            Part::Text(text) => format!("text {}", text.text()),
            Part::CloseButton(label) => format!("close {}", label.text()),
        })
        .collect()
}

fn of_kind(kind: ToastKind) -> Toast {
    Toast::new().kind(kind).text(WidgetText::from("hi"))
}

#[test]
fn default_contents_are_icon_text_and_close_button() {
    let contents = default_toast_contents(&of_kind(ToastKind::Info), false);
    assert_eq!(describe(&contents.parts), vec!["icon ℹ", "text hi", "close 🗙"]);
}

#[test]
fn right_to_left_layouts_get_the_pieces_in_reverse() {
    let contents = default_toast_contents(&of_kind(ToastKind::Info), true);
    assert_eq!(describe(&contents.parts), vec!["close 🗙", "text hi", "icon ℹ"]);
}

#[test]
fn each_kind_has_its_icon() {
    let icon = |kind| describe(&default_toast_contents(&of_kind(kind), false).parts)[0].clone();
    assert_eq!(icon(ToastKind::Info), "icon ℹ");
    assert_eq!(icon(ToastKind::Warning), "icon ⚠");
    assert_eq!(icon(ToastKind::Error), "icon ❗");
    assert_eq!(icon(ToastKind::Success), "icon ✔");
    assert_eq!(icon(ToastKind::Custom(9)), "icon ℹ");
}

#[test]
fn the_icon_can_be_hidden() {
    let toast = of_kind(ToastKind::Error).options(ToastOptions::default().show_icon(false));
    assert_eq!(
        describe(&default_toast_contents(&toast, false).parts),
        vec!["text hi", "close 🗙"]
    );
    assert_eq!(
        describe(&default_toast_contents(&toast, true).parts),
        vec!["close 🗙", "text hi"]
    );
}

#[test]
fn the_icons_come_from_the_style_of_the_toast() {
    let style = ToastStyle {
        warning_icon: WidgetText::from("!"),
        close_button_text: WidgetText::from("x"),
        ..ToastStyle::default()
    };
    let toast = of_kind(ToastKind::Warning).style(style);
    assert_eq!(
        describe(&default_toast_contents(&toast, false).parts),
        vec!["icon !", "text hi", "close x"]
    );
}

#[test]
fn progress_is_shown_only_where_it_is_asked_for() {
    let mut toast = of_kind(ToastKind::Info).options(ToastOptions::with_duration(Some(400)));
    toast.options.countdown.tick(100);
    assert_eq!(
        default_toast_contents(&toast, false).progress,
        Some(Fraction { numer: 300, denom: 400 })
    );
    let hidden = toast.clone().options(toast.options.show_progress(false));
    assert_eq!(default_toast_contents(&hidden, false).progress, None);
    let forever = of_kind(ToastKind::Info);
    assert_eq!(
        default_toast_contents(&forever, false).progress,
        Some(Fraction { numer: 0, denom: 1 })
    );
}

#[test]
fn custom_contents_override_one_kind_only() {
    let toasts: Toasts<&str> = Toasts::new().custom_contents(ToastKind::Custom(0), "mine");
    assert_eq!(toasts.contents_for(ToastKind::Custom(0)), Some(&"mine"));
    assert_eq!(toasts.contents_for(ToastKind::Custom(1)), None);
    assert_eq!(toasts.contents_for(ToastKind::Info), None);
    assert_eq!(toasts.contents_for(ToastKind::Warning), None);
    assert_eq!(toasts.contents_for(ToastKind::Error), None);
    assert_eq!(toasts.contents_for(ToastKind::Success), None);
}

#[test]
fn a_later_registration_replaces_an_earlier_one() {
    let toasts: Toasts<&str> = Toasts::new()
        .custom_contents(ToastKind::Info, "first")
        .custom_contents(ToastKind::from(7), "seven")
        .custom_contents(ToastKind::Info, "second");
    assert_eq!(toasts.contents_for(ToastKind::Info), Some(&"second"));
    assert_eq!(toasts.contents_for(ToastKind::Custom(7)), Some(&"seven"));
    assert_eq!(toasts.contents_for(ToastKind::Custom(3)), None);
}

#[test]
fn nothing_is_registered_at_first() {
    let toasts: Toasts<&str> = Toasts::new();
    assert_eq!(toasts.contents_for(ToastKind::Info), None);
    assert_eq!(toasts.contents_for(ToastKind::Custom(u32::MAX)), None);
}

#[test]
fn registered_contents_can_be_called() {
    let shout: fn(&Toast) -> String = |toast| toast.text.text().to_uppercase();
    let toasts: Toasts<fn(&Toast) -> String> =
        Toasts::new().custom_contents(ToastKind::Custom(2), shout);
    let toast = of_kind(ToastKind::Custom(2));
    let drawn = match toasts.contents_for(toast.kind) {
        Some(add_contents) => add_contents(&toast),
        None => String::from("default"),
    };
    assert_eq!(drawn, "HI");
    let other = of_kind(ToastKind::Success);
    assert!(toasts.contents_for(other.kind).is_none());
}

#[test]
fn the_convenience_methods_queue_a_toast_of_their_kind() {
    let mut toasts: Toasts<&str> = Toasts::new();
    toasts
        .info(WidgetText::from("i"), ToastOptions::with_duration_in_seconds(2))
        .warning(WidgetText::from("w"), ToastOptions::with_duration_in_seconds(5))
        .error(WidgetText::from("e"), ToastOptions::default())
        .success(WidgetText::from("s"), ToastOptions::with_duration_in_seconds(2));
    let mut live = Vec::new();
    toasts.begin_frame(&mut live);
    let seen: Vec<(ToastKind, &str)> =
        live.iter().map(|toast| (toast.kind, toast.text.text())).collect();
    assert_eq!(
        seen,
        vec![
            (ToastKind::Info, "i"),
            (ToastKind::Warning, "w"),
            (ToastKind::Error, "e"),
            (ToastKind::Success, "s"),
        ]
    );
    assert_eq!(live[0].options.progress(), Fraction { numer: 2_000_000_000, denom: 2_000_000_000 });
    assert_eq!(live[2].options.progress(), Fraction { numer: 0, denom: 1 });
    assert_eq!(live[1].style.warning_icon.text(), "⚠");
}
