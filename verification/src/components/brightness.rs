//! The screen's brightness.

use vstd::prelude::*;
use vstd::string::*;
use crate::readings::CommandOutput;
use crate::style::{single, tinted, Color, Span, SpanView};
use crate::text::concat;

verus! {

/// A widget that shows the brightness of the screen in percent.
#[derive(Debug)]
pub struct Brightness {
    pub level: String,
    pub cached_span_content: String,
}

/// What `regex` finds for a pattern in a text: `None` where it refuses the
/// pattern, else the text of the leftmost match, if there is one.
pub uninterp spec fn first_match(pattern: Seq<char>, text: Seq<char>) -> Option<Option<Seq<char>>>;

/// Compiles `pattern` with `Regex::new` of `regex` and searches `text` with
/// `Regex::find`: `None` where the pattern is refused, else the text of the
/// leftmost match, if there is one. The contract claims that this is a
/// function of pattern and text alone.
#[verifier::external_body]
fn find_first(pattern: &str, text: &str) -> (r: Option<Option<String>>)
    ensures
        r.deep_view() == first_match(pattern@, text@),
{
    match regex::Regex::new(pattern) {
        Ok(re) => Some(re.find(text).map(|m| m.as_str().to_string())),
        Err(_) => None,
    }
}

/// The pattern of a percentage: digits and a percent sign.
pub open spec fn percentage_pattern() -> Seq<char> {
    "\\d+%"@
}

/// The level that the brightness tool's output gives: the first percentage
/// that a successful run printed; empty where there is none.
pub open spec fn brightness_level(reading: Option<&CommandOutput>) -> Seq<char> {
    match reading {
        Some(output) => if output.success {
            match first_match(percentage_pattern(), output.stdout@) {
                Some(Some(level)) => level,
                _ => Seq::empty(),
            }
        } else {
            Seq::empty()
        },
        None => Seq::empty(),
    }
}

/// The widget's text for a level.
pub open spec fn brightness_text(level: Seq<char>) -> Seq<char> {
    "\u{f00e0} "@ + level
}

/// Reads the level out of the brightness tool's output.
pub fn get_system_brightness(reading: Option<&CommandOutput>) -> (r: Option<String>)
    ensures
        match r {
            Some(level) => level@ == brightness_level(reading),
            None => brightness_level(reading) == Seq::<char>::empty(),
        },
{
    match reading {
        Some(output) => if output.success {
            match find_first("\\d+%", output.stdout.as_str()) {
                Some(Some(level)) => Some(level),
                _ => None,
            }
        } else {
            None
        },
        None => None,
    }
}

impl Brightness {
    /// The cached text is the text of the level.
    pub open spec fn wf(self) -> bool {
        self.cached_span_content@ == brightness_text(self.level@)
    }

    /// The runs of the widget: its text, white where `colorize` is set.
    pub open spec fn spans(self, colorize: bool) -> Seq<SpanView> {
        seq![tinted(self.cached_span_content@, colorize, Color::White)]
    }

    /// Whether the widget shows what the brightness tool reported.
    pub open spec fn shows(self, reading: Option<&CommandOutput>) -> bool {
        self.wf() && self.level@ == brightness_level(reading)
    }

    /// A widget that shows `level`; nothing where there is none.
    pub fn with_level(level: Option<String>) -> (s: Self)
        ensures
            s.wf(),
            s.level@ == match level {
                Some(text) => text@,
                None => Seq::empty(),
            },
    {
        let level = match level {
            Some(text) => text,
            None => String::new(),
        };
        let cached_span_content = concat("\u{f00e0} ", level.as_str());
        Brightness { level, cached_span_content }
    }

    /// A widget that shows what the brightness tool reported.
    pub fn new(reading: Option<&CommandOutput>) -> (s: Self)
        ensures
            s.shows(reading),
    {
        Brightness::with_level(get_system_brightness(reading))
    }

    /// Takes in what the brightness tool reported.
    pub fn update(&mut self, reading: Option<&CommandOutput>)
        ensures
            final(self).shows(reading),
    {
        let fresh = Brightness::with_level(get_system_brightness(reading));
        self.level = fresh.level;
        self.cached_span_content = fresh.cached_span_content;
    }

    /// The widget's text: the icon and the level.
    pub fn render(&self) -> (r: String)
        ensures
            r@ == brightness_text(self.level@),
    {
        concat("\u{f00e0} ", self.level.as_str())
    }

    /// The widget as one run, white where `colorize` is set.
    pub fn render_as_spans(&self, colorize: bool) -> (r: Vec<Span>)
        ensures
            r.deep_view() == self.spans(colorize),
    {
        single(Span::tinted(self.cached_span_content.clone(), colorize, Color::White))
    }
}

} // verus!
