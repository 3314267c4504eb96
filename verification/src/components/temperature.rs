//! The processor's temperature.

use vstd::prelude::*;
use vstd::string::*;
use crate::components::interval::{color_of_gauge, due, gauge_color, is_due};
use crate::style::{single, tinted, Color, Span, SpanView};
use crate::text::concat3;

verus! {

/// A widget that shows a temperature in degrees Celsius.
#[derive(Debug)]
pub struct Temperature {
    pub value: String,
    pub cached_span_content: String,
    pub last_update: u64,
    pub update_interval: u64,
}

/// The widget's text: the icon, the degrees and the unit.
pub open spec fn temperature_text(value: Seq<char>) -> Seq<char> {
    "\u{f2c9} "@ + value + "\u{b0}C"@
}

impl Temperature {
    /// The cached text is the text of the value.
    pub open spec fn wf(self) -> bool {
        self.cached_span_content@ == temperature_text(self.value@)
    }

    /// Whether the widget is due for a reading at `now`.
    pub open spec fn due(self, now: u64) -> bool {
        due(now, self.last_update, self.update_interval)
    }

    /// Whether `next` is this widget after a pass at `now` with the reading
    /// `reading`: unchanged where it is not due; else the time is noted and
    /// the reading, where there is one, is shown.
    pub open spec fn steps_to(self, next: Temperature, reading: Option<String>, now: u64) -> bool {
        if !self.due(now) {
            next == self
        } else {
            &&& next.last_update == now
            &&& next.update_interval == self.update_interval
            &&& match reading {
                Some(degrees) => next.value@ == degrees@ && next.wf(),
                None => next.value == self.value && next.cached_span_content == self.cached_span_content,
            }
        }
    }

    /// The runs of the widget: its text, coloured by the degrees where `colorize` is set.
    pub open spec fn spans(self, colorize: bool) -> Seq<SpanView> {
        seq![tinted(self.cached_span_content@, colorize, gauge_color(self.value@, 80, Color::Red, Color::Yellow))]
    }

    /// Whether the widget is one that was just made at `now`.
    pub open spec fn fresh(self, now: u64) -> bool {
        &&& self.wf()
        &&& self.value@ == "0"@
        &&& self.last_update == now
        &&& self.update_interval == 5
    }

    /// A widget that shows zero degrees and samples every five seconds.
    pub fn new(now: u64) -> (s: Self)
        ensures
            s.fresh(now),
    {
        let value = String::from_str("0");
        let cached_span_content = concat3("\u{f2c9} ", value.as_str(), "\u{b0}C");
        Temperature { value, cached_span_content, last_update: now, update_interval: 5 }
    }

    /// One pass at `now`: takes the degrees `reading` in where the widget is due.
    pub fn update(&mut self, reading: &Option<String>, now: u64)
        ensures
            old(self).steps_to(*final(self), *reading, now),
            old(self).wf() ==> final(self).wf(),
    {
        if is_due(now, self.last_update, self.update_interval) {
            match reading {
                Some(degrees) => {
                    self.value = degrees.clone();
                    self.cached_span_content = concat3("\u{f2c9} ", self.value.as_str(), "\u{b0}C");
                },
                None => {},
            }
            self.last_update = now;
        }
    }

    /// The widget's text.
    pub fn render(&self) -> (r: String)
        ensures
            r@ == temperature_text(self.value@),
    {
        concat3("\u{f2c9} ", self.value.as_str(), "\u{b0}C")
    }

    /// The widget as one run: red from eighty degrees on, else yellow, where
    /// `colorize` is set.
    pub fn render_as_spans(&self, colorize: bool) -> (r: Vec<Span>)
        ensures
            r.deep_view() == self.spans(colorize),
    {
        let color = color_of_gauge(self.value.as_str(), 80, Color::Red, Color::Yellow);
        single(Span::tinted(self.cached_span_content.clone(), colorize, color))
    }
}

} // verus!
