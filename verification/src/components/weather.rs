//! The weather.

use vstd::prelude::*;
use vstd::string::*;
use crate::readings::WeatherReport;
use crate::style::{single, tinted, Color, Span, SpanView};
use crate::text::{concat3, contains, lowercase, str_contains, to_lowercase};

verus! {

/// What the weather widget shows.
#[derive(Debug, Default)]
pub struct WeatherData {
    pub temperature: String,
    pub condition: String,
    pub icon: String,
}

/// A widget that shows the temperature outside and an icon for the sky.
#[derive(Debug)]
pub struct Weather {
    pub data: WeatherData,
}

impl Clone for WeatherData {
    fn clone(&self) -> (r: Self)
        ensures
            r == *self,
    {
        WeatherData {
            temperature: self.temperature.clone(),
            condition: self.condition.clone(),
            icon: self.icon.clone(),
        }
    }
}

/// The icon for a condition given in lower case. The first pair of words
/// that occurs in it decides; a condition that holds none gets the clouds.
pub open spec fn weather_icon(condition: Seq<char>) -> Seq<char> {
    if contains(condition, "clear"@) || contains(condition, "sunny"@) {
        "\u{f0599}"@
    } else if contains(condition, "cloud"@) || contains(condition, "overcast"@) {
        "\u{f0590}"@
    } else if contains(condition, "rain"@) || contains(condition, "drizzle"@) {
        "\u{f0597}"@
    } else if contains(condition, "snow"@) || contains(condition, "sleet"@) {
        "\u{f0598}"@
    } else if contains(condition, "thunder"@) || contains(condition, "storm"@) {
        "\u{f0593}"@
    } else if contains(condition, "fog"@) || contains(condition, "mist"@) {
        "\u{f0591}"@
    } else if contains(condition, "wind"@) {
        "\u{f059d}"@
    } else {
        "\u{f0590}"@
    }
}

/// The colour for a condition given in lower case. The first pair of words
/// that occurs in it decides; a condition that holds none is white.
pub open spec fn weather_color(condition: Seq<char>) -> Color {
    if contains(condition, "clear"@) || contains(condition, "sunny"@) {
        Color::Yellow
    } else if contains(condition, "cloud"@) || contains(condition, "overcast"@) {
        Color::Gray
    } else if contains(condition, "rain"@) || contains(condition, "drizzle"@) {
        Color::Blue
    } else if contains(condition, "snow"@) || contains(condition, "sleet"@) {
        Color::Cyan
    } else if contains(condition, "thunder"@) || contains(condition, "storm"@) {
        Color::Magenta
    } else if contains(condition, "fog"@) || contains(condition, "mist"@) {
        Color::DarkGray
    } else if contains(condition, "wind"@) {
        Color::LightGreen
    } else {
        Color::White
    }
}

/// The widget's text: the icon, the degrees and the unit.
pub open spec fn weather_text(icon: Seq<char>, temperature: Seq<char>) -> Seq<char> {
    icon + " "@ + temperature + "\u{b0}C"@
}

/// The icon for a condition that is given in lower case.
pub fn icon_for(condition: &str) -> (r: String)
    ensures
        r@ == weather_icon(condition@),
{
    let icon = if str_contains(condition, "clear") || str_contains(condition, "sunny") {
        "\u{f0599}"
    } else if str_contains(condition, "cloud") || str_contains(condition, "overcast") {
        "\u{f0590}"
    } else if str_contains(condition, "rain") || str_contains(condition, "drizzle") {
        "\u{f0597}"
    } else if str_contains(condition, "snow") || str_contains(condition, "sleet") {
        "\u{f0598}"
    } else if str_contains(condition, "thunder") || str_contains(condition, "storm") {
        "\u{f0593}"
    } else if str_contains(condition, "fog") || str_contains(condition, "mist") {
        "\u{f0591}"
    } else if str_contains(condition, "wind") {
        "\u{f059d}"
    } else {
        "\u{f0590}"
    };
    String::from_str(icon)
}

/// The colour for a condition that is given in lower case.
pub fn color_for(condition: &str) -> (r: Color)
    ensures
        r == weather_color(condition@),
{
    if str_contains(condition, "clear") || str_contains(condition, "sunny") {
        Color::Yellow
    } else if str_contains(condition, "cloud") || str_contains(condition, "overcast") {
        Color::Gray
    } else if str_contains(condition, "rain") || str_contains(condition, "drizzle") {
        Color::Blue
    } else if str_contains(condition, "snow") || str_contains(condition, "sleet") {
        Color::Cyan
    } else if str_contains(condition, "thunder") || str_contains(condition, "storm") {
        Color::Magenta
    } else if str_contains(condition, "fog") || str_contains(condition, "mist") {
        Color::DarkGray
    } else if str_contains(condition, "wind") {
        Color::LightGreen
    } else {
        Color::White
    }
}

/// The icon for a condition, whatever its case.
pub fn get_weather_icon(condition: &str) -> (r: String)
    ensures
        r@ == weather_icon(lowercase(condition@)),
{
    let lowered = to_lowercase(condition);
    icon_for(lowered.as_str())
}

impl Weather {
    /// Whether the widget shows exactly the report `report`.
    pub open spec fn shows(self, report: WeatherReport) -> bool {
        &&& self.data.temperature@ == report.temperature@
        &&& self.data.condition@ == report.condition@
        &&& self.data.icon@ == weather_icon(lowercase(report.condition@))
    }

    /// The runs of the widget: its text, coloured by the condition where `colorize` is set.
    pub open spec fn spans(self, colorize: bool) -> Seq<SpanView> {
        seq![
            tinted(
                weather_text(self.data.icon@, self.data.temperature@),
                colorize,
                weather_color(lowercase(self.data.condition@)),
            ),
        ]
    }

    /// Whether the widget is one that knows no weather yet.
    pub open spec fn blank(self) -> bool {
        &&& self.data.temperature@ == "--"@
        &&& self.data.condition@ == "Unknown"@
        &&& self.data.icon@ == "\u{f0590}"@
    }

    /// A widget that knows no weather yet.
    pub fn new() -> (s: Self)
        ensures
            s.blank(),
    {
        Weather {
            data: WeatherData {
                temperature: String::from_str("--"),
                condition: String::from_str("Unknown"),
                icon: String::from_str("\u{f0590}"),
            },
        }
    }

    /// Takes the last published report in; without one the widget keeps
    /// what it shows.
    pub fn update(&mut self, reading: Option<&WeatherReport>)
        ensures
            match reading {
                Some(report) => final(self).shows(*report),
                None => *final(self) == *old(self),
            },
    {
        match reading {
            Some(report) => {
                self.data.temperature = report.temperature.clone();
                self.data.condition = report.condition.clone();
                self.data.icon = get_weather_icon(report.condition.as_str());
            },
            None => {},
        }
    }

    /// What the widget shows.
    pub fn get_weather_data(&self) -> (r: WeatherData)
        ensures
            r == self.data,
    {
        self.data.clone()
    }

    /// The widget's text.
    pub fn render(&self) -> (r: String)
        ensures
            r@ == weather_text(self.data.icon@, self.data.temperature@),
    {
        let mut r = concat3(self.data.icon.as_str(), " ", self.data.temperature.as_str());
        r.append("\u{b0}C");
        r
    }

    /// The widget as one run, coloured by the condition where `colorize` is set.
    pub fn render_as_spans(&self, colorize: bool) -> (r: Vec<Span>)
        ensures
            r.deep_view() == self.spans(colorize),
    {
        let lowered = to_lowercase(self.data.condition.as_str());
        let color = color_for(lowered.as_str());
        single(Span::tinted(self.render(), colorize, color))
    }
}

} // verus!
