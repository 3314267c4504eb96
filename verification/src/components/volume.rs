//! The audio volume.

use vstd::prelude::*;
use vstd::string::*;
use crate::readings::VolumeReading;
use crate::style::{colored, plain, single, Color, Span, SpanView};
use crate::text::{concat, signed_decimal, signed_decimal_string};

verus! {

/// A widget that shows the volume of the audio sink.
#[derive(Debug)]
pub struct Volume {
    pub level: String,
    pub is_muted: bool,
    pub cached_span_content: String,
}

/// The widget's text: an icon for muted or sounding, the level, a percent sign.
pub open spec fn volume_text(level: Seq<char>, is_muted: bool) -> Seq<char> {
    (if is_muted {
        "\u{f075f}"@
    } else {
        "\u{f057e}"@
    }) + " "@ + level + "%"@
}

/// The reading that stands for a sink that gave none: silent and not muted.
pub open spec fn volume_or_silent(reading: Option<VolumeReading>) -> VolumeReading {
    match reading {
        Some(volume) => volume,
        None => VolumeReading { level: 0, is_muted: false },
    }
}

fn text_of(level: &str, is_muted: bool) -> (r: String)
    ensures
        r@ == volume_text(level@, is_muted),
{
    let icon = if is_muted {
        "\u{f075f}"
    } else {
        "\u{f057e}"
    };
    let mut r = concat(icon, " ");
    r.append(level);
    r.append("%");
    r
}

impl Volume {
    /// Whether the widget shows exactly the reading `volume`.
    pub open spec fn shows(self, volume: VolumeReading) -> bool {
        &&& self.level@ == signed_decimal(volume.level as int)
        &&& self.is_muted == volume.is_muted
        &&& self.cached_span_content@ == volume_text(self.level@, self.is_muted)
    }

    /// The runs of the widget: its text, white where `colorize` is set and the sink is not muted.
    pub open spec fn spans(self, colorize: bool) -> Seq<SpanView> {
        seq![
            if self.is_muted || !colorize {
                plain(self.cached_span_content@)
            } else {
                colored(self.cached_span_content@, Color::White)
            },
        ]
    }

    /// A widget that shows the reading; a silent sink where there is none.
    pub fn new(reading: Option<VolumeReading>) -> (s: Self)
        ensures
            s.shows(volume_or_silent(reading)),
    {
        let volume = match reading {
            Some(volume) => volume,
            None => VolumeReading { level: 0, is_muted: false },
        };
        let level = signed_decimal_string(volume.level as i64);
        let cached_span_content = text_of(level.as_str(), volume.is_muted);
        Volume { level, is_muted: volume.is_muted, cached_span_content }
    }

    /// Takes a reading in; a silent sink where there is none.
    pub fn update(&mut self, reading: Option<VolumeReading>)
        ensures
            final(self).shows(volume_or_silent(reading)),
    {
        let fresh = Volume::new(reading);
        self.level = fresh.level;
        self.is_muted = fresh.is_muted;
        self.cached_span_content = fresh.cached_span_content;
    }

    /// The widget's text.
    pub fn render(&self) -> (r: String)
        ensures
            r@ == volume_text(self.level@, self.is_muted),
    {
        text_of(self.level.as_str(), self.is_muted)
    }

    /// The widget as one run: white where `colorize` is set and the sink is
    /// not muted, unstyled otherwise.
    pub fn render_as_spans(&self, colorize: bool) -> (r: Vec<Span>)
        ensures
            r.deep_view() == self.spans(colorize),
    {
        if self.is_muted || !colorize {
            single(Span::raw(self.cached_span_content.clone()))
        } else {
            single(Span::raw(self.cached_span_content.clone()).fg(Color::White))
        }
    }
}

} // verus!
