//! The virtual private network.

use vstd::prelude::*;
use vstd::string::*;
use crate::components::interval::{due, is_due};
use crate::readings::VpnReading;
use crate::style::{single, tinted, Color, Span, SpanView};
use crate::text::{concat, str_eq};

verus! {

/// A widget that shows the country that the private network leaves through.
#[derive(Debug)]
pub struct Vpn {
    pub status: String,
    pub country: String,
    pub short: String,
    pub last_update: u64,
    pub update_interval: u64,
}

/// The widget's text: the icon and the country's short name.
pub open spec fn vpn_text(short: Seq<char>) -> Seq<char> {
    "\u{ef}\u{20ac}\u{a3} "@ + short
}

/// The widget's colour: dark gray while disconnected, else magenta.
pub open spec fn vpn_color(status: Seq<char>) -> Color {
    if status == "disconnected"@ {
        Color::DarkGray
    } else {
        Color::Magenta
    }
}

impl Vpn {
    /// Whether the widget shows exactly the reading `reading`.
    pub open spec fn shows(self, reading: VpnReading) -> bool {
        &&& self.status@ == reading.status@
        &&& self.country@ == reading.country@
        &&& self.short@ == reading.short@
    }

    /// Whether the widget shows a network that is not connected.
    pub open spec fn shows_disconnected(self) -> bool {
        &&& self.status@ == "disconnected"@
        &&& self.country@ == ""@
        &&& self.short@ == "--"@
    }

    /// Whether the widget is due for a reading at `now`.
    pub open spec fn due(self, now: u64) -> bool {
        due(now, self.last_update, self.update_interval)
    }

    /// Whether `next` is this widget after a pass at `now` with the reading
    /// `reading`: unchanged where it is not due; else the time is noted and
    /// the reading, where there is one, is shown.
    pub open spec fn steps_to(self, next: Vpn, reading: Option<&VpnReading>, now: u64) -> bool {
        if !self.due(now) {
            next == self
        } else {
            &&& next.last_update == now
            &&& next.update_interval == self.update_interval
            &&& match reading {
                Some(state) => next.shows(*state),
                None => next.status == self.status && next.country == self.country && next.short == self.short,
            }
        }
    }

    /// The runs of the widget: its text, coloured by the status where `colorize` is set.
    pub open spec fn spans(self, colorize: bool) -> Seq<SpanView> {
        seq![tinted(vpn_text(self.short@), colorize, vpn_color(self.status@))]
    }

    /// Whether the widget is one that was just made of the reading at `now`.
    pub open spec fn fresh(self, reading: Option<&VpnReading>, now: u64) -> bool {
        &&& match reading {
            Some(state) => self.shows(*state),
            None => self.shows_disconnected(),
        }
        &&& self.last_update == now
        &&& self.update_interval == 5
    }

    /// A widget that shows the reading, or a disconnected network where
    /// there is none, and samples every five seconds.
    pub fn new(reading: Option<&VpnReading>, now: u64) -> (s: Self)
        ensures
            s.fresh(reading, now),
    {
        match reading {
            Some(state) => Vpn {
                status: state.status.clone(),
                country: state.country.clone(),
                short: state.short.clone(),
                last_update: now,
                update_interval: 5,
            },
            None => Vpn {
                status: String::from_str("disconnected"),
                country: String::from_str(""),
                short: String::from_str("--"),
                last_update: now,
                update_interval: 5,
            },
        }
    }

    /// One pass at `now`: takes the reading in where the widget is due.
    pub fn update(&mut self, reading: Option<&VpnReading>, now: u64)
        ensures
            old(self).steps_to(*final(self), reading, now),
    {
        if is_due(now, self.last_update, self.update_interval) {
            match reading {
                Some(state) => {
                    self.status = state.status.clone();
                    self.country = state.country.clone();
                    self.short = state.short.clone();
                },
                None => {},
            }
            self.last_update = now;
        }
    }

    /// The widget's text.
    pub fn render(&self) -> (r: String)
        ensures
            r@ == vpn_text(self.short@),
    {
        concat("\u{ef}\u{20ac}\u{a3} ", self.short.as_str())
    }

    /// The widget as one run, coloured by the status where `colorize` is set.
    pub fn render_as_spans(&self, colorize: bool) -> (r: Vec<Span>)
        ensures
            r.deep_view() == self.spans(colorize),
    {
        let color = if str_eq(self.status.as_str(), "disconnected") {
            Color::DarkGray
        } else {
            Color::Magenta
        };
        single(Span::tinted(self.render(), colorize, color))
    }
}

} // verus!
