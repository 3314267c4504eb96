//! The memory in use.

use vstd::prelude::*;
use vstd::string::*;
use crate::components::interval::{color_of_gauge, due, gauge_color, is_due};
use crate::components::cpu::{meter_text, meter_text_of};
use crate::components::sparkline::Sparkline;
use crate::style::{single, tinted, Color, Span, SpanView};
use crate::text::{concat, concat3, decimal, decimal_string};

verus! {

/// A widget that shows the share of memory in use in percent, or its trend.
#[derive(Debug)]
pub struct Ram {
    pub usage: String,
    pub cached_span_content: String,
    pub last_update: u64,
    pub update_interval: u64,
    pub sparkline: Sparkline,
}

/// The icon of the memory's meter.
pub open spec fn ram_icon() -> Seq<char> {
    "\u{f035b}"@
}

impl Ram {
    /// The cached text is the meter's text, and the sparkline's window is whole.
    pub open spec fn wf(self) -> bool {
        &&& self.sparkline.wf()
        &&& self.cached_span_content@ == meter_text(ram_icon(), self.usage@, self.sparkline)
    }

    /// Whether the widget is due for a reading at `now`.
    pub open spec fn due(self, now: u64) -> bool {
        due(now, self.last_update, self.update_interval)
    }

    /// Whether `next` is this widget after a pass at `now` with the reading
    /// `reading`. A widget that is not due stays as it is. One that is due
    /// notes the time; with a reading it shows the share and takes it into
    /// the trend, without one it keeps what it shows.
    pub open spec fn steps_to(self, next: Ram, reading: Option<u32>, now: u64) -> bool {
        if !self.due(now) {
            next == self
        } else {
            &&& next.last_update == now
            &&& next.update_interval == self.update_interval
            &&& match reading {
                Some(load) => {
                    &&& next.usage@ == decimal(load as nat)
                    &&& self.sparkline.steps_to(next.sparkline, load as u64)
                    &&& next.cached_span_content@ == meter_text(ram_icon(), next.usage@, next.sparkline)
                },
                None => {
                    &&& next.usage == self.usage
                    &&& next.sparkline == self.sparkline
                    &&& next.cached_span_content == self.cached_span_content
                },
            }
        }
    }

    /// The runs of the widget: its text, coloured by the reading where `colorize` is set.
    pub open spec fn spans(self, colorize: bool) -> Seq<SpanView> {
        seq![tinted(self.cached_span_content@, colorize, gauge_color(self.usage@, 90, Color::Red, Color::Green))]
    }

    /// Whether the widget is one that was just made with these settings at
    /// `now`: it shows no share, and its window holds zeros.
    pub open spec fn fresh(self, sparkline: bool, sparkline_length: usize, sparkline_update_freq: u64, now: u64) -> bool {
        &&& self.wf()
        &&& self.usage@ == "0"@
        &&& self.sparkline.enabled == sparkline
        &&& self.sparkline.length == sparkline_length
        &&& !self.sparkline.logarithmic
        &&& self.sparkline.data@ == Seq::new(sparkline_length as nat, |i: int| 0u64)
        &&& self.last_update == now
        &&& self.update_interval == sparkline_update_freq
    }

    /// A widget without a trend that samples every two seconds.
    pub fn new(now: u64) -> (s: Self)
        ensures
            s.fresh(false, 10, 2, now),
    {
        Ram::with_config(false, 10, 2, now)
    }

    /// A widget that shows no share yet. `sparkline` switches the trend on,
    /// `sparkline_length` is its width, `sparkline_update_freq` the seconds
    /// between two samples.
    pub fn with_config(sparkline: bool, sparkline_length: usize, sparkline_update_freq: u64, now: u64) -> (s: Self)
        ensures
            s.fresh(sparkline, sparkline_length, sparkline_update_freq, now),
    {
        let usage = String::from_str("0");
        let sparkline = Sparkline::new(sparkline, sparkline_length, false);
        let cached_span_content = meter_text_of("\u{f035b}", usage.as_str(), &sparkline);
        Ram { usage, cached_span_content, last_update: now, update_interval: sparkline_update_freq, sparkline }
    }

    /// One pass at `now`: takes the share `reading` in where the widget is due.
    pub fn update(&mut self, reading: Option<u32>, now: u64)
        ensures
            old(self).steps_to(*final(self), reading, now),
            old(self).wf() ==> final(self).wf(),
    {
        if is_due(now, self.last_update, self.update_interval) {
            match reading {
                Some(load) => {
                    self.usage = decimal_string(load as u64);
                    self.sparkline.update(load as u64);
                    self.cached_span_content = meter_text_of("\u{f035b}", self.usage.as_str(), &self.sparkline);
                },
                None => {},
            }
            self.last_update = now;
        }
    }

    /// The widget's text without a trend: the icon, the share, a percent sign.
    pub fn render(&self) -> (r: String)
        ensures
            r@ == ram_icon() + " "@ + self.usage@ + "%"@,
    {
        let mut r = concat3("\u{f035b}", " ", self.usage.as_str());
        r.append("%");
        r
    }

    /// The widget as one run: red from ninety percent on, else green, where
    /// `colorize` is set.
    pub fn render_as_spans(&self, colorize: bool) -> (r: Vec<Span>)
        ensures
            r.deep_view() == self.spans(colorize),
    {
        let color = color_of_gauge(self.usage.as_str(), 90, Color::Red, Color::Green);
        single(Span::tinted(self.cached_span_content.clone(), colorize, color))
    }
}

} // verus!
