use here::cli::TransformFlags;
use here::colorize_ext::Tint;
use here::dispatch::{output_plan, Sink};
use here::report::Notice;

const SALMON: Tint = Tint::TrueColor { r: 250, g: 128, b: 128 };

fn echo(text: &str, tint: Option<Tint>) -> Sink {
    Sink::Echo { text: text.to_owned(), tint }
}

#[test]
fn by_default_the_text_is_copied_and_echoed_in_colour() {
    let flags = TransformFlags::default();
    assert_eq!(
        output_plan(&flags, "/home/me", "/home/me"),
        vec![Sink::Copy("/home/me".to_owned()), echo("/home/me", Some(SALMON))]
    );
}

#[test]
fn no_copy_skips_the_clipboard_and_echoes_once() {
    let flags = TransformFlags { no_copy: true, ..TransformFlags::default() };
    let sinks = output_plan(&flags, "/home/me", "/home/me");
    assert_eq!(sinks, vec![echo("/home/me", Some(SALMON))]);
    assert!(!sinks.iter().any(|sink| matches!(sink, Sink::Copy(_))));
    assert_eq!(sinks.iter().filter(|sink| matches!(sink, Sink::Echo { .. })).count(), 1);
}

#[test]
fn no_color_echoes_plain() {
    let flags = TransformFlags { no_color: true, ..TransformFlags::default() };
    assert_eq!(
        output_plan(&flags, "x", "x"),
        vec![Sink::Copy("x".to_owned()), echo("x", None)]
    );
}

#[test]
fn change_directory_types_the_path_and_submits() {
    let flags = TransformFlags { change_directory: true, ..TransformFlags::default() };
    assert_eq!(
        output_plan(&flags, "\"C:\\\\a\"", "C:\\a"),
        vec![
            Sink::Copy("\"C:\\\\a\"".to_owned()),
            echo("\"C:\\\\a\"", Some(SALMON)),
            Sink::Type("cd \"C:\\a\"".to_owned()),
            Sink::Submit,
        ]
    );
}

#[test]
fn every_plan_echoes_exactly_once() {
    for bits in 0..8u8 {
        let flags = TransformFlags {
            no_copy: bits & 1 != 0,
            no_color: bits & 2 != 0,
            change_directory: bits & 4 != 0,
            ..TransformFlags::default()
        };
        let sinks = output_plan(&flags, "shown", "path");
        let echoes = sinks.iter().filter(|sink| matches!(sink, Sink::Echo { .. })).count();
        let copies = sinks.iter().filter(|sink| matches!(sink, Sink::Copy(_))).count();
        assert_eq!(echoes, 1);
        assert_eq!(copies, if flags.no_copy { 0 } else { 1 });
    }
}

#[test]
fn sinks_come_in_the_order_clipboard_terminal_keyboard() {
    let flags = TransformFlags { change_directory: true, no_color: true, ..TransformFlags::default() };
    let sinks = output_plan(&flags, "shown", "path");
    assert_eq!(sinks.len(), 4);
    assert!(matches!(sinks[0], Sink::Copy(_)));
    assert!(matches!(sinks[1], Sink::Echo { .. }));
    assert!(matches!(sinks[2], Sink::Type(_)));
    assert!(matches!(sinks[3], Sink::Submit));
}

#[test]
fn text_flags_do_not_change_the_plan() {
    let flags = TransformFlags {
        wrap_quote: true,
        escape_backslash: true,
        posix_style: true,
        folder_component: true,
        ..TransformFlags::default()
    };
    assert_eq!(
        output_plan(&flags, "shown", "path"),
        vec![Sink::Copy("shown".to_owned()), echo("shown", Some(SALMON))]
    );
}

#[test]
fn only_a_failed_copy_is_reported() {
    assert_eq!(
        Sink::Copy("x".to_owned()).failure_notice(),
        Some(Notice::ClipboardUnavailable)
    );
    assert_eq!(echo("x", None).failure_notice(), None);
    assert_eq!(Sink::Type("cd \"x\"".to_owned()).failure_notice(), None);
    assert_eq!(Sink::Submit.failure_notice(), None);
}
