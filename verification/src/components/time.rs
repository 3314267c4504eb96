//! The clock.

use vstd::prelude::*;
use vstd::string::*;
use crate::readings::ClockReading;
use crate::style::{single, tinted, Color, Span, SpanView};

verus! {

/// A widget that shows the local date and time.
#[derive(Debug, Default)]
pub struct Time {
    pub time_string: String,
    pub cached_span_content: String,
    /// The hour of the day at the last reading.
    pub hour: u32,
}

/// The clock's colour: yellow from six o'clock up to eighteen o'clock,
/// magenta through the night.
pub open spec fn hour_color(hour: u32) -> Color {
    if 6 <= hour && hour < 18 {
        Color::Yellow
    } else {
        Color::Magenta
    }
}

impl Time {
    /// Whether the widget shows exactly what `clock` says.
    pub open spec fn shows(self, clock: ClockReading) -> bool {
        &&& self.time_string@ == clock.text@
        &&& self.cached_span_content@ == clock.text@
        &&& self.hour == clock.hour
    }

    /// The runs of the widget: the time, coloured by the hour where `colorize` is set.
    pub open spec fn spans(self, colorize: bool) -> Seq<SpanView> {
        seq![tinted(self.cached_span_content@, colorize, hour_color(self.hour))]
    }

    /// A clock that shows the reading `clock`.
    pub fn at(clock: &ClockReading) -> (s: Self)
        ensures
            s.shows(*clock),
    {
        Time { time_string: clock.text.clone(), cached_span_content: clock.text.clone(), hour: clock.hour }
    }

    /// Sets the clock to the reading `clock`.
    pub fn set(&mut self, clock: &ClockReading)
        ensures
            final(self).shows(*clock),
    {
        self.time_string = clock.text.clone();
        self.cached_span_content = clock.text.clone();
        self.hour = clock.hour;
    }

    /// A clock that shows the time at which it is made.
    pub fn new() -> (s: Self)
        ensures
            s.cached_span_content@ == s.time_string@,
            s.hour < 24,
    {
        Time::at(&ClockReading::now())
    }

    /// Sets the clock to the time of the call.
    pub fn update(&mut self)
        ensures
            final(self).cached_span_content@ == final(self).time_string@,
            final(self).hour < 24,
    {
        let clock = ClockReading::now();
        self.set(&clock);
    }

    /// The widget as one run: the time, coloured by the hour where
    /// `colorize` is set.
    pub fn render_as_spans(&self, colorize: bool) -> (r: Vec<Span>)
        ensures
            r.deep_view() == self.spans(colorize),
    {
        let color = if 6 <= self.hour && self.hour < 18 {
            Color::Yellow
        } else {
            Color::Magenta
        };
        single(Span::tinted(self.cached_span_content.clone(), colorize, color))
    }
}

} // verus!
