//! The battery's charge.

use vstd::prelude::*;
use vstd::string::*;
use crate::components::interval::{due, is_due};
use crate::readings::BatteryReading;
use crate::style::{single, tinted, Color, Span, SpanView};
use crate::text::{concat, parse_u32, parse_unsigned, signed_decimal, signed_decimal_string};

verus! {

/// A widget that shows the battery's charge and whether it is charging.
#[derive(Debug)]
pub struct Battery {
    pub percentage: String,
    pub is_charging: bool,
    pub cached_span_content: String,
    pub last_update: u64,
    pub update_interval: u64,
}

/// Why there is no battery reading.
#[derive(Debug, PartialEq, Eq)]
pub enum BatteryError {
    /// The machine has no battery.
    NotFound,
    /// The battery could not be asked; the text is the reason.
    Unavailable(String),
}

/// The widget's text: an icon for charging or not, the charge, a percent sign.
pub open spec fn battery_text(percentage: Seq<char>, is_charging: bool) -> Seq<char> {
    (if is_charging {
        "\u{f0084}"@
    } else {
        "\u{f0079}"@
    }) + " "@ + percentage + "%"@
}

/// The widget's colour: green while charging; else red up to ten percent,
/// yellow up to twenty-five, green above; red where the charge is no number.
pub open spec fn battery_color(percentage: Seq<char>, is_charging: bool) -> Color {
    if is_charging {
        Color::Green
    } else {
        match parse_unsigned(percentage, u32::MAX as nat) {
            Some(n) => if n <= 10 {
                Color::Red
            } else if n <= 25 {
                Color::Yellow
            } else {
                Color::Green
            },
            None => Color::Red,
        }
    }
}

/// Whether `error` is the error that the reading `reading` is refused with.
pub open spec fn battery_failure(reading: BatteryReading, error: BatteryError) -> bool {
    match reading {
        BatteryReading::Found { .. } => false,
        BatteryReading::Missing => error == BatteryError::NotFound,
        BatteryReading::Failed(reason) => error matches BatteryError::Unavailable(text) && text@ == reason@,
    }
}

fn text_of(percentage: &str, is_charging: bool) -> (r: String)
    ensures
        r@ == battery_text(percentage@, is_charging),
{
    let icon = if is_charging {
        "\u{f0084}"
    } else {
        "\u{f0079}"
    };
    let mut r = concat(icon, " ");
    r.append(percentage);
    r.append("%");
    r
}

fn failure_of(reading: &BatteryReading) -> (r: BatteryError)
    requires
        !(reading is Found),
    ensures
        battery_failure(*reading, r),
{
    match reading {
        BatteryReading::Failed(reason) => BatteryError::Unavailable(reason.clone()),
        _ => BatteryError::NotFound,
    }
}

impl Battery {
    /// Whether the widget shows the charge `percentage` and `is_charging`.
    pub open spec fn shows(self, percentage: i32, is_charging: bool) -> bool {
        &&& self.percentage@ == signed_decimal(percentage as int)
        &&& self.is_charging == is_charging
        &&& self.cached_span_content@ == battery_text(self.percentage@, self.is_charging)
    }

    /// Whether the widget is due for a reading at `now`.
    pub open spec fn due(self, now: u64) -> bool {
        due(now, self.last_update, self.update_interval)
    }

    /// The runs of the widget: its text, coloured by the charge where `colorize` is set.
    pub open spec fn spans(self, colorize: bool) -> Seq<SpanView> {
        seq![tinted(self.cached_span_content@, colorize, battery_color(self.percentage@, self.is_charging))]
    }

    /// Whether the widget is one that was just made of the reading at `now`.
    pub open spec fn fresh(self, reading: BatteryReading, now: u64) -> bool {
        &&& reading matches BatteryReading::Found { percentage, is_charging }
        &&& self.shows(percentage, is_charging)
        &&& self.last_update == now
        &&& self.update_interval == 3
    }

    /// Whether `next` is this widget after a pass at `now` that went well:
    /// unchanged where it is not due, else showing the battery that the
    /// reading found.
    pub open spec fn steps_to(self, next: Battery, reading: BatteryReading, now: u64) -> bool {
        if !self.due(now) {
            next == self
        } else {
            &&& reading matches BatteryReading::Found { percentage, is_charging }
            &&& next.shows(percentage, is_charging)
            &&& next.last_update == now
            &&& next.update_interval == self.update_interval
        }
    }

    /// A widget for the battery that was found. Without a battery there is
    /// no widget: the error says whether none exists or it could not be asked.
    pub fn new(reading: &BatteryReading, now: u64) -> (r: Result<Self, BatteryError>)
        ensures
            match r {
                Ok(s) => s.fresh(*reading, now),
                Err(error) => battery_failure(*reading, error),
            },
    {
        match reading {
            BatteryReading::Found { percentage, is_charging } => {
                let text = signed_decimal_string(*percentage as i64);
                let cached_span_content = text_of(text.as_str(), *is_charging);
                Ok(
                    Battery {
                        percentage: text,
                        is_charging: *is_charging,
                        cached_span_content,
                        last_update: now,
                        update_interval: 3,
                    },
                )
            },
            _ => Err(failure_of(reading)),
        }
    }

    /// Takes a reading in where the widget is due. A reading that found no
    /// battery is an error and leaves the widget as it was.
    pub fn update(&mut self, reading: &BatteryReading, now: u64) -> (r: Result<(), BatteryError>)
        ensures
            match r {
                Ok(_) => old(self).steps_to(*final(self), *reading, now),
                Err(error) => old(self).due(now) && battery_failure(*reading, error) && *final(self) == *old(self),
            },
    {
        if is_due(now, self.last_update, self.update_interval) {
            match reading {
                BatteryReading::Found { percentage, is_charging } => {
                    self.percentage = signed_decimal_string(*percentage as i64);
                    self.is_charging = *is_charging;
                    self.cached_span_content = text_of(self.percentage.as_str(), self.is_charging);
                    self.last_update = now;
                    Ok(())
                },
                _ => Err(failure_of(reading)),
            }
        } else {
            Ok(())
        }
    }

    /// The widget's text.
    pub fn render(&self) -> (r: String)
        ensures
            r@ == battery_text(self.percentage@, self.is_charging),
    {
        text_of(self.percentage.as_str(), self.is_charging)
    }

    /// The widget as one run, coloured by the charge where `colorize` is set.
    pub fn render_as_spans(&self, colorize: bool) -> (r: Vec<Span>)
        ensures
            r.deep_view() == self.spans(colorize),
    {
        let color = if self.is_charging {
            Color::Green
        } else {
            match parse_u32(self.percentage.as_str()) {
                Some(n) => if n <= 10 {
                    Color::Red
                } else if n <= 25 {
                    Color::Yellow
                } else {
                    Color::Green
                },
                None => Color::Red,
            }
        };
        single(Span::tinted(self.cached_span_content.clone(), colorize, color))
    }
}

} // verus!
