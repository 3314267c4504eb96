//! The wireless link.

use vstd::prelude::*;
use vstd::string::*;
use crate::components::interval::{due, is_due};
use crate::components::sparkline::Sparkline;
use crate::readings::WifiReading;
use crate::style::{single, tinted, Color, Span, SpanView};
use crate::text::{concat3, str_eq};

verus! {

/// A widget that shows the network that the wireless link is on, or the
/// trend of its traffic.
#[derive(Debug)]
pub struct Wifi {
    pub status: String,
    pub network: String,
    pub cached_span_content: String,
    pub last_update: u64,
    pub update_interval: u64,
    pub sparkline: Sparkline,
    pub last_bytes: Option<u64>,
}

/// The icon of a link with the status `status`.
pub open spec fn wifi_icon(status: Seq<char>) -> Seq<char> {
    if status == "connected"@ {
        "\u{f0928}"@
    } else {
        "\u{f092e}"@
    }
}

/// The name shown for a link: the network's where the link is connected
/// and the network has a name, else `Off`.
pub open spec fn network_text(status: Seq<char>, network: Seq<char>) -> Seq<char> {
    if status == "connected"@ && network.len() > 0 {
        network
    } else {
        "Off"@
    }
}

/// The widget's text without a trend: the icon and the name shown.
pub open spec fn wifi_text(status: Seq<char>, network: Seq<char>) -> Seq<char> {
    wifi_icon(status) + " "@ + network_text(status, network)
}

/// The widget's colour: red while disconnected, else blue.
pub open spec fn wifi_color(status: Seq<char>) -> Color {
    if status == "disconnected"@ {
        Color::Red
    } else {
        Color::Blue
    }
}

/// The traffic between two readings of the byte counter: what the counter
/// gained, nothing where it fell or where there was no reading before.
pub open spec fn traffic(last: Option<u64>, current: u64) -> u64 {
    match last {
        Some(before) => if current >= before {
            (current - before) as u64
        } else {
            0
        },
        None => 0,
    }
}

fn icon_of(status: &str) -> (r: &'static str)
    ensures
        r@ == wifi_icon(status@),
{
    if str_eq(status, "connected") {
        "\u{f0928}"
    } else {
        "\u{f092e}"
    }
}

fn text_of(status: &str, network: &str) -> (r: String)
    ensures
        r@ == wifi_text(status@, network@),
{
    let shown = if str_eq(status, "connected") && network.unicode_len() > 0 {
        network
    } else {
        "Off"
    };
    concat3(icon_of(status), " ", shown)
}

impl Wifi {
    /// Whether the widget is due for a reading at `now`.
    pub open spec fn due(self, now: u64) -> bool {
        due(now, self.last_update, self.update_interval)
    }

    /// Whether the widget shows the link `(status, network)`.
    pub open spec fn on_link(self, status: Seq<char>, network: Seq<char>) -> bool {
        self.status@ == status && self.network@ == network
    }

    /// Whether `next` is this widget after a pass at `now` with the reading
    /// `reading`.
    ///
    /// A widget that is not due stays as it is. One that is due notes the
    /// time. Where the reading holds a link, the widget shows it; with the
    /// trend switched on and a byte count read, the traffic since the last
    /// count goes into the trend and the count is kept. Without a link the
    /// widget keeps everything else.
    pub open spec fn steps_to(self, next: Wifi, reading: Option<&WifiReading>, now: u64) -> bool {
        if !self.due(now) {
            next == self
        } else {
            &&& next.last_update == now
            &&& next.update_interval == self.update_interval
            &&& match reading {
                Some(WifiReading { link: Some(link), bytes }) => {
                    &&& next.on_link(link.0@, link.1@)
                    &&& if self.sparkline.enabled {
                        match bytes {
                            Some(count) => {
                                &&& self.sparkline.steps_to(next.sparkline, traffic(self.last_bytes, *count))
                                &&& next.last_bytes == Some(*count)
                                &&& next.cached_span_content@ == wifi_icon(next.status@) + " "@
                                    + next.sparkline.spec_render()
                            },
                            None => {
                                &&& next.sparkline == self.sparkline
                                &&& next.last_bytes == self.last_bytes
                                &&& next.cached_span_content@ == wifi_icon(next.status@) + " "@
                                    + next.sparkline.spec_render_with_spaces()
                            },
                        }
                    } else {
                        &&& next.sparkline == self.sparkline
                        &&& next.last_bytes == self.last_bytes
                        &&& next.cached_span_content@ == wifi_text(next.status@, next.network@)
                    }
                },
                _ => {
                    &&& next.status == self.status
                    &&& next.network == self.network
                    &&& next.cached_span_content == self.cached_span_content
                    &&& next.sparkline == self.sparkline
                    &&& next.last_bytes == self.last_bytes
                },
            }
        }
    }

    /// The runs of the widget: its text, coloured by the status where `colorize` is set.
    pub open spec fn spans(self, colorize: bool) -> Seq<SpanView> {
        seq![tinted(self.cached_span_content@, colorize, wifi_color(self.status@))]
    }

    /// Whether the widget is one that was just made with these settings of
    /// the reading at `now`.
    pub open spec fn fresh(
        self,
        sparkline: bool,
        sparkline_length: usize,
        sparkline_update_freq: u64,
        sparkline_logarithmic: bool,
        reading: Option<&WifiReading>,
        now: u64,
    ) -> bool {
        &&& match reading {
            Some(WifiReading { link: Some(link), .. }) => self.on_link(link.0@, link.1@),
            _ => self.on_link("disconnected"@, ""@),
        }
        &&& self.cached_span_content@ == if sparkline {
            wifi_icon(self.status@) + " "@ + self.sparkline.spec_render_with_spaces()
        } else {
            wifi_text(self.status@, self.network@)
        }
        &&& self.sparkline.enabled == sparkline
        &&& self.sparkline.length == sparkline_length
        &&& self.sparkline.logarithmic == sparkline_logarithmic
        &&& self.sparkline.data@ == Seq::new(sparkline_length as nat, |i: int| 0u64)
        &&& self.sparkline.wf()
        &&& self.last_bytes is None
        &&& self.last_update == now
        &&& self.update_interval == sparkline_update_freq
    }

    /// A widget without a trend that samples every two seconds.
    pub fn new(reading: Option<&WifiReading>, now: u64) -> (s: Self)
        ensures
            s.fresh(false, 10, 2, false, reading, now),
    {
        Wifi::with_config(false, 10, 2, false, reading, now)
    }

    /// A widget that shows the link of `reading`, or a disconnected link
    /// where it holds none. `sparkline` switches the trend on,
    /// `sparkline_length` is its width, `sparkline_update_freq` the seconds
    /// between two samples, `sparkline_logarithmic` its scale.
    pub fn with_config(
        sparkline: bool,
        sparkline_length: usize,
        sparkline_update_freq: u64,
        sparkline_logarithmic: bool,
        reading: Option<&WifiReading>,
        now: u64,
    ) -> (s: Self)
        ensures
            s.fresh(sparkline, sparkline_length, sparkline_update_freq, sparkline_logarithmic, reading, now),
    {
        let (status, network) = match reading {
            Some(WifiReading { link: Some(link), .. }) => (link.0.clone(), link.1.clone()),
            _ => (String::from_str("disconnected"), String::from_str("")),
        };
        let sparkline = Sparkline::new(sparkline, sparkline_length, sparkline_logarithmic);
        let cached_span_content = if sparkline.enabled {
            let trend = sparkline.render_with_spaces();
            concat3(icon_of(status.as_str()), " ", trend.as_str())
        } else {
            text_of(status.as_str(), network.as_str())
        };
        Wifi {
            status,
            network,
            cached_span_content,
            last_update: now,
            update_interval: sparkline_update_freq,
            sparkline,
            last_bytes: None,
        }
    }

    /// One pass at `now`: takes the reading in where the widget is due.
    pub fn update(&mut self, reading: Option<&WifiReading>, now: u64)
        ensures
            old(self).steps_to(*final(self), reading, now),
            old(self).sparkline.wf() ==> final(self).sparkline.wf(),
    {
        if is_due(now, self.last_update, self.update_interval) {
            match reading {
                Some(WifiReading { link: Some(link), bytes }) => {
                    self.status = link.0.clone();
                    self.network = link.1.clone();
                    if self.sparkline.enabled {
                        match bytes {
                            Some(count) => {
                                let usage = match self.last_bytes {
                                    Some(before) => if *count >= before {
                                        *count - before
                                    } else {
                                        0
                                    },
                                    None => 0,
                                };
                                self.last_bytes = Some(*count);
                                self.sparkline.update(usage);
                                let trend = self.sparkline.render();
                                self.cached_span_content = concat3(icon_of(self.status.as_str()), " ", trend.as_str());
                            },
                            None => {
                                let trend = self.sparkline.render_with_spaces();
                                self.cached_span_content = concat3(icon_of(self.status.as_str()), " ", trend.as_str());
                            },
                        }
                    } else {
                        self.cached_span_content = text_of(self.status.as_str(), self.network.as_str());
                    }
                },
                _ => {},
            }
            self.last_update = now;
        }
    }

    /// The widget's text without a trend.
    pub fn render(&self) -> (r: String)
        ensures
            r@ == wifi_text(self.status@, self.network@),
    {
        text_of(self.status.as_str(), self.network.as_str())
    }

    /// The widget as one run, coloured by the status where `colorize` is set.
    pub fn render_as_spans(&self, colorize: bool) -> (r: Vec<Span>)
        ensures
            r.deep_view() == self.spans(colorize),
    {
        let color = if str_eq(self.status.as_str(), "disconnected") {
            Color::Red
        } else {
            Color::Blue
        };
        single(Span::tinted(self.cached_span_content.clone(), colorize, color))
    }
}

} // verus!
