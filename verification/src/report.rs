//! What the program tells the user when something goes wrong: fatal errors
//! and warnings, as coloured words and as plain text.

use crate::colorize_ext::{
    crimson_tint, gray_tint, orange_tint, paint, painted_views, ColorizeExt, Painted,
    PaintedView, Tint,
};
use crate::text::{joined, quote, quoted};
use vstd::prelude::*;

verus! {

/// Something to tell the user.
#[derive(Debug, PartialEq, Eq)]
pub enum Notice {
    /// A search was asked for without a term that can be searched for.
    SearchTermRequired,
    /// The locate facility reported no candidate for the term.
    NotFound { term: String },
    /// Nobody chose among several candidates.
    Aborted,
    /// The working directory could not be read.
    NoWorkingDirectory,
    /// The path was to be resolved as a symlink and is none.
    NotSymlink { path: String },
    /// The path was to be resolved as a symlink and does not exist.
    MissingLink { path: String },
    /// The clipboard did not take the text.
    ClipboardUnavailable,
}

/// The mathematical value of a [`Notice`].
pub enum NoticeView {
    SearchTermRequired,
    NotFound { term: Seq<char> },
    Aborted,
    NoWorkingDirectory,
    NotSymlink { path: Seq<char> },
    MissingLink { path: Seq<char> },
    ClipboardUnavailable,
}

impl View for Notice {
    type V = NoticeView;

    open spec fn view(&self) -> NoticeView {
        match self {
            Notice::SearchTermRequired => NoticeView::SearchTermRequired,
            Notice::NotFound { term } => NoticeView::NotFound { term: term@ },
            Notice::Aborted => NoticeView::Aborted,
            Notice::NoWorkingDirectory => NoticeView::NoWorkingDirectory,
            Notice::NotSymlink { path } => NoticeView::NotSymlink { path: path@ },
            Notice::MissingLink { path } => NoticeView::MissingLink { path: path@ },
            Notice::ClipboardUnavailable => NoticeView::ClipboardUnavailable,
        }
    }
}

/// The view of an optional notice.
pub open spec fn notice_of(notice: Option<Notice>) -> Option<NoticeView> {
    match notice {
        Some(notice) => Some(notice@),
        None => None,
    }
}

/// One piece of a line to print: text, and the colour to print it in, if
/// it has one.
#[derive(Debug, PartialEq, Eq)]
pub struct Piece {
    pub text: String,
    pub tint: Option<Tint>,
}

/// The mathematical value of a [`Piece`].
pub struct PieceView {
    pub text: Seq<char>,
    pub tint: Option<Tint>,
}

impl View for Piece {
    type V = PieceView;

    open spec fn view(&self) -> PieceView {
        PieceView { text: self.text@, tint: self.tint }
    }
}

/// The views of the pieces of `v`, in order.
pub open spec fn piece_views(v: Seq<Piece>) -> Seq<PieceView> {
    Seq::new(v.len(), |i: int| v[i]@)
}

/// The painted pieces as pieces to print, each in its colour.
pub open spec fn tinted(words: Seq<PaintedView>) -> Seq<PieceView> {
    Seq::new(words.len(), |i: int| PieceView { text: words[i].text, tint: Some(words[i].tint) })
}

/// The texts of the painted pieces, in order.
pub open spec fn texts(pieces: Seq<PaintedView>) -> Seq<Seq<char>> {
    Seq::new(pieces.len(), |i: int| pieces[i].text)
}

impl NoticeView {
    /// Whether the notice ends the run: errors do, warnings do not.
    pub open spec fn is_fatal(self) -> bool {
        match self {
            NoticeView::SearchTermRequired => true,
            NoticeView::NotFound { .. } => true,
            NoticeView::Aborted => true,
            NoticeView::NoWorkingDirectory => true,
            NoticeView::NotSymlink { .. } => false,
            NoticeView::MissingLink { .. } => false,
            NoticeView::ClipboardUnavailable => false,
        }
    }

    /// The label that the notice begins with.
    pub open spec fn label(self) -> PaintedView {
        if self.is_fatal() {
            PaintedView { text: "[Error]"@, tint: crimson_tint() }
        } else {
            PaintedView { text: "[Warning]"@, tint: orange_tint() }
        }
    }

    /// The coloured words of the notice, the label first.
    pub open spec fn words(self) -> Seq<PaintedView> {
        let gray = gray_tint();
        match self {
            NoticeView::SearchTermRequired => seq![
                self.label(),
                PaintedView { text: "Argument"@, tint: gray },
                PaintedView { text: "[PROGRAM SEARCH]"@, tint: Tint::White },
                PaintedView { text: "is"@, tint: gray },
                PaintedView { text: "required"@, tint: Tint::White },
            ],
            NoticeView::NotFound { term } => seq![
                self.label(),
                PaintedView { text: "Could not find"@, tint: gray },
                PaintedView { text: quoted(term), tint: Tint::White },
            ],
            NoticeView::Aborted => seq![
                self.label(),
                PaintedView { text: "Selection"@, tint: gray },
                PaintedView { text: "aborted"@, tint: Tint::White },
            ],
            NoticeView::NoWorkingDirectory => seq![
                self.label(),
                PaintedView { text: "Could not read"@, tint: gray },
                PaintedView { text: "current working directory"@, tint: Tint::White },
            ],
            NoticeView::NotSymlink { path } => seq![
                self.label(),
                PaintedView { text: "Path"@, tint: gray },
                PaintedView { text: path, tint: Tint::BrightWhite },
                PaintedView { text: "is"@, tint: gray },
                PaintedView { text: "not a symlink"@, tint: Tint::Cyan },
            ],
            NoticeView::MissingLink { path } => seq![
                self.label(),
                PaintedView { text: "Symlink"@, tint: gray },
                PaintedView { text: path, tint: Tint::BrightWhite },
                PaintedView { text: "does"@, tint: gray },
                PaintedView { text: "not exist"@, tint: Tint::Cyan },
            ],
            NoticeView::ClipboardUnavailable => seq![
                self.label(),
                PaintedView { text: "Could not copy"@, tint: gray },
                PaintedView { text: "to clipboard"@, tint: Tint::Cyan },
            ],
        }
    }

    /// The notice without colour: its words with one space between each two.
    pub open spec fn plain(self) -> Seq<char> {
        joined(texts(self.words()), ' ')
    }

    /// The line that is printed for the notice, as pieces that go out with
    /// one space between each two: the plain text in one piece where
    /// `no_color` is set, else the words, each in its colour.
    pub open spec fn printed(self, no_color: bool) -> Seq<PieceView> {
        if no_color {
            seq![PieceView { text: self.plain(), tint: None }]
        } else {
            tinted(self.words())
        }
    }
}

impl Notice {
    /// Whether the notice ends the run.
    pub fn is_fatal(&self) -> (fatal: bool)
        ensures
            fatal == self@.is_fatal(),
    {
        match self {
            Notice::SearchTermRequired => true,
            Notice::NotFound { .. } => true,
            Notice::Aborted => true,
            Notice::NoWorkingDirectory => true,
            Notice::NotSymlink { .. } => false,
            Notice::MissingLink { .. } => false,
            Notice::ClipboardUnavailable => false,
        }
    }

    /// The coloured words of the notice, the label first.
    pub fn spans(&self) -> (spans: Vec<Painted>)
        ensures
            painted_views(spans@) == self@.words(),
    {
        let mut spans: Vec<Painted> = Vec::new();
        if self.is_fatal() {
            spans.push("[Error]".crimson());
        } else {
            spans.push("[Warning]".orange());
        }
        match self {
            Notice::SearchTermRequired => {
                spans.push("Argument".gray());
                spans.push(paint("[PROGRAM SEARCH]", Tint::White));
                spans.push("is".gray());
                spans.push(paint("required", Tint::White));
            },
            Notice::NotFound { term } => {
                spans.push("Could not find".gray());
                let name = quote(term.as_str());
                spans.push(paint(name.as_str(), Tint::White));
            },
            Notice::Aborted => {
                spans.push("Selection".gray());
                spans.push(paint("aborted", Tint::White));
            },
            Notice::NoWorkingDirectory => {
                spans.push("Could not read".gray());
                spans.push(paint("current working directory", Tint::White));
            },
            Notice::NotSymlink { path } => {
                spans.push("Path".gray());
                spans.push(paint(path.as_str(), Tint::BrightWhite));
                spans.push("is".gray());
                spans.push(paint("not a symlink", Tint::Cyan));
            },
            Notice::MissingLink { path } => {
                spans.push("Symlink".gray());
                spans.push(paint(path.as_str(), Tint::BrightWhite));
                spans.push("does".gray());
                spans.push(paint("not exist", Tint::Cyan));
            },
            Notice::ClipboardUnavailable => {
                spans.push("Could not copy".gray());
                spans.push(paint("to clipboard", Tint::Cyan));
            },
        }
        assert(painted_views(spans@) == self@.words());
        spans
    }

    /// The notice without colour.
    pub fn plain(&self) -> (line: String)
        ensures
            line@ == self@.plain(),
    {
        let spans = self.spans();
        let ghost pieces = texts(painted_views(spans@));
        let mut line = String::new();
        let mut i: usize = 0;
        while i < spans.len()
            invariant
                i <= spans.len(),
                pieces == texts(painted_views(spans@)),
                line@ == joined(pieces.take(i as int), ' '),
            decreases spans.len() - i,
        {
            proof {
                assert(pieces.take(i + 1).drop_last() == pieces.take(i as int));
                assert(pieces.take(i + 1).last() == spans@[i as int].text@);
            }
            if i > 0 {
                line.push(' ');
            }
            line.append(spans[i].text.as_str());
            i = i + 1;
        }
        proof {
            assert(pieces.take(spans.len() as int) == pieces);
        }
        line
    }

    /// The line that is printed for the notice, in colour or plain.
    pub fn printed(&self, no_color: bool) -> (pieces: Vec<Piece>)
        ensures
            piece_views(pieces@) == self@.printed(no_color),
    {
        let mut pieces: Vec<Piece> = Vec::new();
        if no_color {
            pieces.push(Piece { text: self.plain(), tint: None });
            assert(piece_views(pieces@) == self@.printed(no_color));
            return pieces;
        }
        let spans = self.spans();
        let mut i: usize = 0;
        while i < spans.len()
            invariant
                i <= spans.len(),
                piece_views(pieces@) == tinted(painted_views(spans@)).take(i as int),
            decreases spans.len() - i,
        {
            let ghost before = piece_views(pieces@);
            let text = spans[i].text.clone();
            let tint = spans[i].tint;
            pieces.push(Piece { text, tint: Some(tint) });
            proof {
                let all = tinted(painted_views(spans@));
                assert(all[i as int] == (PieceView { text: spans@[i as int].text@, tint: Some(tint) }));
                assert(piece_views(pieces@) == before.push(all[i as int]));
                assert(all.take(i + 1) == all.take(i as int).push(all[i as int]));
            }
            i = i + 1;
        }
        assert(tinted(painted_views(spans@)).take(spans.len() as int) == tinted(
            painted_views(spans@),
        ));
        pieces
    }
}

} // verus!
