//! The open windows, one icon each.

use vstd::prelude::*;
use vstd::string::*;
use crate::components::apps::{app_icon, brand_colors, get_app_icon, get_brand_color};
use crate::readings::{WindowReading, WindowsReading};
use crate::style::{boxed, colored, Color, Span, SpanView};
use crate::text::{concat3, lowercase, str_eq};

verus! {

/// One window that the widget shows.
#[derive(Debug)]
pub struct WindowInfo {
    pub address: String,
    pub icon: String,
    pub class: String,
    pub title: String,
}

/// A widget that shows an icon for every window on an ordinary workspace.
#[derive(Debug, Default)]
pub struct Windows {
    pub windows: Vec<WindowInfo>,
    pub active_window: String,
}

/// The windows that are shown: those on a workspace with a positive number,
/// in the order in which they are listed.
pub open spec fn shown(windows: Seq<WindowReading>) -> Seq<WindowReading>
    decreases windows.len(),
{
    if windows.len() == 0 {
        Seq::empty()
    } else if windows.last().workspace > 0 {
        shown(windows.drop_last()).push(windows.last())
    } else {
        shown(windows.drop_last())
    }
}

/// Whether `info` is what the widget keeps of the window `window`.
pub open spec fn describes(info: WindowInfo, window: WindowReading) -> bool {
    &&& info.address@ == window.address@
    &&& info.class@ == window.class@
    &&& info.title@ == window.title@
    &&& info.icon@ == app_icon(lowercase(window.class@), lowercase(window.title@))
}

/// Whether `infos` is what the widget keeps of the listed windows `windows`.
pub open spec fn describes_all(infos: Seq<WindowInfo>, windows: Seq<WindowReading>) -> bool {
    &&& infos.len() == shown(windows).len()
    &&& forall|i: int| 0 <= i < infos.len() ==> describes(#[trigger] infos[i], shown(windows)[i])
}

/// The run that a window is drawn as: its icon between two blanks, on the
/// application's colours where the window has the focus, white otherwise.
pub open spec fn window_span(info: WindowInfo, active: Seq<char>) -> SpanView {
    let text = " "@ + info.icon@ + " "@;
    if info.address@ == active {
        let colors = brand_colors(lowercase(info.class@), lowercase(info.title@));
        boxed(text, colors.0, colors.1)
    } else {
        colored(text, Color::White)
    }
}

/// What the widget keeps of the listed windows.
pub fn window_infos(windows: &Vec<WindowReading>) -> (r: Vec<WindowInfo>)
    ensures
        describes_all(r@, windows@),
{
    let mut infos: Vec<WindowInfo> = Vec::new();
    let mut i: usize = 0;
    assert(windows@.take(0) =~= Seq::<WindowReading>::empty());
    while i < windows.len()
        invariant
            i <= windows.len(),
            describes_all(infos@, windows@.take(i as int)),
        decreases windows.len() - i,
    {
        let window = &windows[i];
        assert(windows@.take(i + 1).drop_last() =~= windows@.take(i as int));
        assert(windows@.take(i + 1).last() == windows[i as int]);
        if window.workspace > 0 {
            infos.push(
                WindowInfo {
                    address: window.address.clone(),
                    icon: get_app_icon(window.class.as_str(), window.title.as_str()),
                    class: window.class.clone(),
                    title: window.title.clone(),
                },
            );
        }
        i = i + 1;
    }
    assert(windows@.take(i as int) =~= windows@);
    infos
}

impl Windows {
    /// Whether the widget shows exactly the reading `reading`; no window at
    /// all where there is none.
    pub open spec fn shows(self, reading: Option<&WindowsReading>) -> bool {
        match reading {
            Some(listing) => describes_all(self.windows@, listing.windows@) && self.active_window@
                == listing.active@,
            None => self.windows@.len() == 0 && self.active_window@ == ""@,
        }
    }

    /// The runs of the widget, one for each window.
    pub open spec fn spans(self) -> Seq<SpanView> {
        Seq::new(self.windows@.len(), |i: int| window_span(self.windows@[i], self.active_window@))
    }

    /// A widget that shows what the compositor listed.
    pub fn new(reading: Option<&WindowsReading>) -> (s: Self)
        ensures
            s.shows(reading),
    {
        match reading {
            Some(listing) => Windows { windows: window_infos(&listing.windows), active_window: listing.active.clone() },
            None => Windows { windows: Vec::new(), active_window: String::from_str("") },
        }
    }

    /// Takes in what the compositor listed.
    pub fn update(&mut self, reading: Option<&WindowsReading>)
        ensures
            final(self).shows(reading),
    {
        let fresh = Windows::new(reading);
        self.windows = fresh.windows;
        self.active_window = fresh.active_window;
    }

    /// The widget as runs, one for each window.
    pub fn render(&self) -> (r: Vec<Span>)
        ensures
            r.deep_view() == self.spans(),
    {
        let mut spans: Vec<Span> = Vec::new();
        let mut i: usize = 0;
        while i < self.windows.len()
            invariant
                i <= self.windows.len(),
                spans.len() == i,
                forall|k: int| 0 <= k < i ==> (#[trigger] spans[k])@ == window_span(self.windows@[k], self.active_window@),
            decreases self.windows.len() - i,
        {
            let info = &self.windows[i];
            let text = concat3(" ", info.icon.as_str(), " ");
            if str_eq(info.address.as_str(), self.active_window.as_str()) {
                let colors = get_brand_color(info.class.as_str(), info.title.as_str());
                spans.push(Span::raw(text).bg(colors.0).fg(colors.1));
            } else {
                spans.push(Span::raw(text).fg(Color::White));
            }
            i = i + 1;
        }
        assert(spans.deep_view() =~= self.spans());
        spans
    }

    /// The widget as runs; the colours do not depend on `colorize`.
    pub fn render_as_spans(&self, colorize: bool) -> (r: Vec<Span>)
        ensures
            r.deep_view() == self.spans(),
    {
        self.render()
    }
}

} // verus!
