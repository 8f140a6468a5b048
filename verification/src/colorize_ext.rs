//! Colours for the terminal: which ones the program uses, and text that
//! carries one.

use vstd::prelude::*;

verus! {

/// A foreground colour: one given by its red, green and blue parts, or one of
/// the terminal's own.
#[derive(Clone, Copy, Debug, PartialEq, Eq, Structural)]
pub enum Tint {
    TrueColor { r: u8, g: u8, b: u8 },
    White,
    BrightWhite,
    Cyan,
}

/// The red of error labels.
pub open spec fn crimson_tint() -> Tint {
    Tint::TrueColor { r: 220, g: 20, b: 60 }
}

/// The accent colour that a result is shown in.
pub open spec fn salmon_tint() -> Tint {
    Tint::TrueColor { r: 250, g: 128, b: 128 }
}

/// The colour of the connecting words of a message.
pub open spec fn gray_tint() -> Tint {
    Tint::TrueColor { r: 128, g: 128, b: 128 }
}

/// The colour of warning labels.
pub open spec fn orange_tint() -> Tint {
    Tint::TrueColor { r: 255, g: 165, b: 0 }
}

/// A piece of text and the colour to show it in.
#[derive(Debug, PartialEq, Eq)]
pub struct Painted {
    pub text: String,
    pub tint: Tint,
}

/// The mathematical value of a [`Painted`].
pub struct PaintedView {
    pub text: Seq<char>,
    pub tint: Tint,
}

impl View for Painted {
    type V = PaintedView;

    open spec fn view(&self) -> PaintedView {
        PaintedView { text: self.text@, tint: self.tint }
    }
}

/// The views of the painted pieces of `v`, in order.
pub open spec fn painted_views(v: Seq<Painted>) -> Seq<PaintedView> {
    Seq::new(v.len(), |i: int| v[i]@)
}

/// `text` in the colour `tint`.
pub fn paint(text: &str, tint: Tint) -> (painted: Painted)
    ensures
        painted@ == (PaintedView { text: text@, tint }),
{
    Painted { text: text.to_owned(), tint }
}

/// The program's own colours, as methods on text.
pub trait ColorizeExt {
    fn crimson(self) -> Painted;

    fn salmon(self) -> Painted;

    fn gray(self) -> Painted;

    fn orange(self) -> Painted;
}

impl<'a> ColorizeExt for &'a str {
    fn crimson(self) -> (painted: Painted)
        ensures
            painted@ == (PaintedView { text: self@, tint: crimson_tint() }),
    {
        paint(self, Tint::TrueColor { r: 220, g: 20, b: 60 })
    }

    fn salmon(self) -> (painted: Painted)
        ensures
            painted@ == (PaintedView { text: self@, tint: salmon_tint() }),
    {
        paint(self, Tint::TrueColor { r: 250, g: 128, b: 128 })
    }

    fn gray(self) -> (painted: Painted)
        ensures
            painted@ == (PaintedView { text: self@, tint: gray_tint() }),
    {
        paint(self, Tint::TrueColor { r: 128, g: 128, b: 128 })
    }

    fn orange(self) -> (painted: Painted)
        ensures
            painted@ == (PaintedView { text: self@, tint: orange_tint() }),
    {
        paint(self, Tint::TrueColor { r: 255, g: 165, b: 0 })
    }
}

} // verus!
