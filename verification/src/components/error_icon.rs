//! The glyph shown in place of a widget that could not be made.

use vstd::prelude::*;
use vstd::string::*;
use crate::style::{plain, single, Span};

verus! {

/// The widget that stands in for a name that no widget answers to.
#[derive(Debug, Default, Clone)]
pub struct ErrorIcon;

/// The text of the error widget.
pub open spec fn error_glyph() -> Seq<char> {
    " \u{ef}\u{b1} "@
}

impl ErrorIcon {
    pub fn new() -> (s: Self) {
        ErrorIcon
    }

    /// The widget's text: the error glyph.
    pub fn render(&self) -> (r: String)
        ensures
            r@ == error_glyph(),
    {
        String::from_str(" \u{ef}\u{b1} ")
    }

    /// The widget as one unstyled run.
    pub fn render_as_spans(&self) -> (r: Vec<Span>)
        ensures
            r.deep_view() == seq![plain(error_glyph())],
    {
        single(Span::raw(self.render()))
    }
}

} // verus!
