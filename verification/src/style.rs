//! Colours and styled runs of text: what a widget hands to whoever draws the bar.

use vstd::prelude::*;

verus! {

/// A terminal colour. The named colours are the sixteen-colour palette entries
/// that the widgets use; `Rgb` is a true-colour value.
#[derive(Debug, Clone, Copy, PartialEq, Eq, Structural)]
pub enum Color {
    Black,
    Red,
    Green,
    Yellow,
    Blue,
    Magenta,
    Cyan,
    Gray,
    DarkGray,
    LightRed,
    LightGreen,
    White,
    Rgb(u8, u8, u8),
}

/// A run of text with an optional foreground and background colour.
#[derive(Debug, Clone, PartialEq, Eq)]
pub struct Span {
    pub content: String,
    pub fg: Option<Color>,
    pub bg: Option<Color>,
}

/// The mathematical value of a [`Span`].
pub struct SpanView {
    pub content: Seq<char>,
    pub fg: Option<Color>,
    pub bg: Option<Color>,
}

impl View for Span {
    type V = SpanView;

    open spec fn view(&self) -> SpanView {
        SpanView { content: self.content@, fg: self.fg, bg: self.bg }
    }
}

impl DeepView for Span {
    type V = SpanView;

    open spec fn deep_view(&self) -> SpanView {
        self@
    }
}

/// An unstyled run.
pub open spec fn plain(content: Seq<char>) -> SpanView {
    SpanView { content, fg: None, bg: None }
}

/// A run with a foreground colour only.
pub open spec fn colored(content: Seq<char>, fg: Color) -> SpanView {
    SpanView { content, fg: Some(fg), bg: None }
}

/// A run with both colours set.
pub open spec fn boxed(content: Seq<char>, bg: Color, fg: Color) -> SpanView {
    SpanView { content, fg: Some(fg), bg: Some(bg) }
}

/// A run coloured with `fg` when `colorize` is set, unstyled otherwise.
pub open spec fn tinted(content: Seq<char>, colorize: bool, fg: Color) -> SpanView {
    if colorize {
        colored(content, fg)
    } else {
        plain(content)
    }
}

/// The same runs with every foreground replaced by `fg`.
pub open spec fn recolored(spans: Seq<SpanView>, fg: Color) -> Seq<SpanView> {
    Seq::new(spans.len(), |i: int| SpanView { content: spans[i].content, fg: Some(fg), bg: spans[i].bg })
}

impl Span {
    /// An unstyled run holding `content`.
    pub fn raw(content: String) -> (s: Span)
        ensures
            s@ == plain(content@),
    {
        Span { content, fg: None, bg: None }
    }

    /// The same run with its foreground set to `color`.
    pub fn fg(self, color: Color) -> (s: Span)
        ensures
            s@ == (SpanView { content: self@.content, fg: Some(color), bg: self@.bg }),
    {
        Span { content: self.content, fg: Some(color), bg: self.bg }
    }

    /// The same run with its background set to `color`.
    pub fn bg(self, color: Color) -> (s: Span)
        ensures
            s@ == (SpanView { content: self@.content, fg: self@.fg, bg: Some(color) }),
    {
        Span { content: self.content, fg: self.fg, bg: Some(color) }
    }

    /// The same run with its background set to `bg`, or cleared.
    pub fn with_bg(self, bg: Option<Color>) -> (s: Span)
        ensures
            s@ == (SpanView { content: self@.content, fg: self@.fg, bg }),
    {
        Span { content: self.content, fg: self.fg, bg }
    }

    /// A run coloured with `color` when `colorize` is set, unstyled otherwise.
    pub fn tinted(content: String, colorize: bool, color: Color) -> (s: Span)
        ensures
            s@ == tinted(content@, colorize, color),
    {
        if colorize {
            Span::raw(content).fg(color)
        } else {
            Span::raw(content)
        }
    }
}

/// A one-element list of runs.
pub fn single(span: Span) -> (v: Vec<Span>)
    ensures
        v.deep_view() == seq![span@],
{
    let mut v: Vec<Span> = Vec::new();
    v.push(span);
    assert(v.deep_view() =~= seq![span@]);
    v
}

} // verus!
