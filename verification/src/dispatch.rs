//! Output dispatch: what is handed to the clipboard, the terminal and the
//! keyboard once a path is resolved and transformed, and in which order.

use crate::cli::TransformFlags;
use crate::colorize_ext::{salmon_tint, Tint};
use crate::report::{Notice, NoticeView, notice_of};
use crate::text::{quote, quoted};
use vstd::prelude::*;

verus! {

/// One thing to hand to an output sink.
#[derive(Debug, PartialEq, Eq)]
pub enum Sink {
    /// Put the text in the clipboard.
    Copy(String),
    /// Print the text as a line on the terminal, in the colour if there is one.
    Echo { text: String, tint: Option<Tint> },
    /// Type the text on the keyboard.
    Type(String),
    /// Press the return key.
    Submit,
}

/// The mathematical value of a [`Sink`].
pub enum SinkView {
    Copy(Seq<char>),
    Echo { text: Seq<char>, tint: Option<Tint> },
    Type(Seq<char>),
    Submit,
}

impl View for Sink {
    type V = SinkView;

    open spec fn view(&self) -> SinkView {
        match self {
            Sink::Copy(text) => SinkView::Copy(text@),
            Sink::Echo { text, tint } => SinkView::Echo { text: text@, tint: *tint },
            Sink::Type(text) => SinkView::Type(text@),
            Sink::Submit => SinkView::Submit,
        }
    }
}

/// The views of the sinks of `v`, in order.
pub open spec fn sink_views(v: Seq<Sink>) -> Seq<SinkView> {
    Seq::new(v.len(), |i: int| v[i]@)
}

/// The shell command that changes the directory to `path`.
pub open spec fn cd_command(path: Seq<char>) -> Seq<char> {
    "cd "@ + quoted(path)
}

/// What goes to the clipboard: the text shown, unless `no_copy` is set.
pub open spec fn clipboard_part(flags: TransformFlags, display: Seq<char>) -> Seq<SinkView> {
    if flags.no_copy {
        Seq::<SinkView>::empty()
    } else {
        seq![SinkView::Copy(display)]
    }
}

/// What goes to the terminal: the text shown, always, in the accent colour
/// unless `no_color` is set.
pub open spec fn terminal_part(flags: TransformFlags, display: Seq<char>) -> Seq<SinkView> {
    seq![
        SinkView::Echo {
            text: display,
            tint: if flags.no_color {
                None
            } else {
                Some(salmon_tint())
            },
        },
    ]
}

/// What goes to the keyboard where `change_directory` is set: the command
/// that changes to the path, not to the text shown, and the return key.
pub open spec fn keyboard_part(flags: TransformFlags, path: Seq<char>) -> Seq<SinkView> {
    if flags.change_directory {
        seq![SinkView::Type(cd_command(path)), SinkView::Submit]
    } else {
        Seq::<SinkView>::empty()
    }
}

/// Everything that is delivered, in order: clipboard, terminal, keyboard.
pub open spec fn plan(flags: TransformFlags, display: Seq<char>, path: Seq<char>) -> Seq<
    SinkView,
> {
    clipboard_part(flags, display) + terminal_part(flags, display) + keyboard_part(flags, path)
}

/// How many of the sinks are echoes to the terminal.
pub open spec fn echoes(sinks: Seq<SinkView>) -> nat
    decreases sinks.len(),
{
    if sinks.len() == 0 {
        0
    } else if sinks.last() is Echo {
        echoes(sinks.drop_last()) + 1
    } else {
        echoes(sinks.drop_last())
    }
}

/// How many of the sinks write to the clipboard.
pub open spec fn copies(sinks: Seq<SinkView>) -> nat
    decreases sinks.len(),
{
    if sinks.len() == 0 {
        0
    } else if sinks.last() is Copy {
        copies(sinks.drop_last()) + 1
    } else {
        copies(sinks.drop_last())
    }
}

impl SinkView {
    /// What to tell the user when the sink fails: a warning for the
    /// clipboard, nothing for the others.
    pub open spec fn failure_notice(self) -> Option<NoticeView> {
        if self is Copy {
            Some(NoticeView::ClipboardUnavailable)
        } else {
            None
        }
    }
}

impl Sink {
    /// What to tell the user when the sink fails. No failure of a sink is
    /// fatal: the sinks after it are served all the same.
    pub fn failure_notice(&self) -> (notice: Option<Notice>)
        ensures
            notice_of(notice) == self@.failure_notice(),
            notice matches Some(n) ==> !n@.is_fatal(),
    {
        match self {
            Sink::Copy(_) => Some(Notice::ClipboardUnavailable),
            _ => None,
        }
    }
}

/// Everything that is delivered for the text `display` and the path `path`,
/// in order.
pub fn output_plan(flags: &TransformFlags, display: &str, path: &str) -> (sinks: Vec<Sink>)
    ensures
        sink_views(sinks@) == plan(*flags, display@, path@),
{
    let mut sinks: Vec<Sink> = Vec::new();
    if !flags.no_copy {
        sinks.push(Sink::Copy(display.to_owned()));
    }
    let tint = if flags.no_color {
        None
    } else {
        Some(Tint::TrueColor { r: 250, g: 128, b: 128 })
    };
    sinks.push(Sink::Echo { text: display.to_owned(), tint });
    if flags.change_directory {
        let mut command = "cd ".to_owned();
        let target = quote(path);
        command.append(target.as_str());
        sinks.push(Sink::Type(command));
        sinks.push(Sink::Submit);
    }
    assert(sink_views(sinks@) == plan(*flags, display@, path@));
    sinks
}

/// The terminal is served exactly once whatever the flags are, and the
/// clipboard once or, with `no_copy` set, not at all.
pub proof fn lemma_one_echo(flags: TransformFlags, display: Seq<char>, path: Seq<char>)
    ensures
        echoes(plan(flags, display, path)) == 1,
        flags.no_copy ==> copies(plan(flags, display, path)) == 0,
        !flags.no_copy ==> copies(plan(flags, display, path)) == 1,
        flags.no_copy ==> forall|i: int|
            0 <= i < plan(flags, display, path).len() ==> !(#[trigger] plan(flags, display, path)[i]
                is Copy),
{
    let p = plan(flags, display, path);
    let echo = terminal_part(flags, display)[0];
    let copy = SinkView::Copy(display);
    let typed = SinkView::Type(cd_command(path));
    let e = Seq::<SinkView>::empty();
    reveal_with_fuel(echoes, 5);
    reveal_with_fuel(copies, 5);
    if flags.no_copy {
        if flags.change_directory {
            assert(p == seq![echo, typed, SinkView::Submit]);
            assert(p.drop_last() == seq![echo, typed]);
            assert(p.drop_last().drop_last() == seq![echo]);
            assert(seq![echo].drop_last() == e);
        } else {
            assert(p == seq![echo]);
            assert(p.drop_last() == e);
        }
    } else {
        if flags.change_directory {
            assert(p == seq![copy, echo, typed, SinkView::Submit]);
            assert(p.drop_last() == seq![copy, echo, typed]);
            assert(p.drop_last().drop_last() == seq![copy, echo]);
            assert(seq![copy, echo].drop_last() == seq![copy]);
            assert(seq![copy].drop_last() == e);
        } else {
            assert(p == seq![copy, echo]);
            assert(p.drop_last() == seq![copy]);
            assert(seq![copy].drop_last() == e);
        }
    }
}

/// The command that is typed names the path and nothing of the text shown:
/// the flags that shape the text do not reach it.
pub proof fn lemma_command_ignores_the_text(
    flags: TransformFlags,
    other: TransformFlags,
    display: Seq<char>,
    path: Seq<char>,
)
    requires
        other.change_directory == flags.change_directory,
    ensures
        keyboard_part(other, path) == keyboard_part(flags, path),
        plan(flags, display, path).subrange(
            plan(flags, display, path).len() - keyboard_part(flags, path).len(),
            plan(flags, display, path).len() as int,
        ) == keyboard_part(flags, path),
        flags.change_directory ==> plan(flags, display, path).last() == SinkView::Submit && plan(
            flags,
            display,
            path,
        )[plan(flags, display, path).len() - 2] == SinkView::Type(cd_command(path)),
{
}

} // verus!
