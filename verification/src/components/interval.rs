//! When a widget that samples at intervals is due, and the colour of a gauge.

use vstd::prelude::*;
use crate::style::Color;
use crate::text::{parse_u32, parse_unsigned};

verus! {

/// Whether at least `interval` seconds lie between `last` and `now`. A `now`
/// that is earlier than `last` counts as no time gone by.
pub open spec fn due(now: u64, last: u64, interval: u64) -> bool {
    (if now >= last {
        now - last
    } else {
        0
    }) >= interval
}

/// Whether at least `interval` seconds lie between `last` and `now`.
pub fn is_due(now: u64, last: u64, interval: u64) -> (r: bool)
    ensures
        r == due(now, last, interval),
{
    let elapsed = if now >= last {
        now - last
    } else {
        0
    };
    elapsed >= interval
}

/// The colour of a gauge whose reading is `text`: `high` where the text is a
/// number of at least `limit`, `normal` where it is a smaller number or no
/// number at all.
pub open spec fn gauge_color(text: Seq<char>, limit: u32, high: Color, normal: Color) -> Color {
    match parse_unsigned(text, u32::MAX as nat) {
        Some(n) => if n >= limit {
            high
        } else {
            normal
        },
        None => normal,
    }
}

/// The colour of a gauge whose reading is `text`.
pub fn color_of_gauge(text: &str, limit: u32, high: Color, normal: Color) -> (r: Color)
    ensures
        r == gauge_color(text@, limit, high, normal),
{
    match parse_u32(text) {
        Some(n) => if n >= limit {
            high
        } else {
            normal
        },
        None => normal,
    }
}

} // verus!
