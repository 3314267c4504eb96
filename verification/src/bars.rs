//! The three regions of the bar: each draws the widgets that the layout
//! puts into it as one line of styled text.

use vstd::prelude::*;
use vstd::string::*;
use crate::component_manager::{Component, ComponentManager};
use crate::style::{Color, Span, SpanView};

verus! {

/// Where a line stands in its region.
#[derive(Debug, Clone, Copy, PartialEq, Eq, Structural)]
pub enum Alignment {
    Left,
    Center,
    Right,
}

/// A line of styled text: its runs, where it stands, and the colour of
/// runs that have none of their own.
#[derive(Debug, PartialEq, Eq)]
pub struct Line {
    pub spans: Vec<Span>,
    pub alignment: Alignment,
    pub fg: Color,
}

/// The left region.
#[derive(Debug)]
pub struct LeftBar;

/// The middle region.
#[derive(Debug)]
pub struct MiddleBar;

/// The right region.
#[derive(Debug)]
pub struct RightBar;

/// The runs of `pieces` one after the other.
pub open spec fn flatten(pieces: Seq<Seq<SpanView>>) -> Seq<SpanView>
    decreases pieces.len(),
{
    if pieces.len() == 0 {
        Seq::empty()
    } else {
        flatten(pieces.drop_last()) + pieces.last()
    }
}

/// Whether `spans` is what these widgets may be shown as, one after the
/// other.
pub open spec fn shown_as(widgets: Seq<Component>, colorize: bool, spans: Seq<SpanView>) -> bool {
    exists|pieces: Seq<Seq<SpanView>>|
        {
            &&& pieces.len() == widgets.len()
            &&& forall|i: int| 0 <= i < widgets.len() ==> widgets[i].shows(colorize, #[trigger] pieces[i])
            &&& spans == flatten(pieces)
        }
}

/// Whether `line` is what the region `bar` of `manager` may be drawn as,
/// standing at `alignment`: nothing for a region without widgets, else the
/// region's widgets one after the other, white where they have no colour.
pub open spec fn region_line(manager: ComponentManager, bar: Seq<char>, alignment: Alignment, line: Option<Line>) -> bool {
    let widgets = manager.region_widgets(bar);
    match line {
        None => widgets.len() == 0,
        Some(drawn) => {
            &&& widgets.len() > 0
            &&& drawn.alignment == alignment
            &&& drawn.fg == Color::White
            &&& shown_as(widgets, manager.layout().colorize, drawn.spans.deep_view())
        },
    }
}

/// Draws the region `bar` of `manager`.
pub fn render_region(manager: &ComponentManager, bar: &str, alignment: Alignment) -> (r: Option<Line>)
    ensures
        region_line(*manager, bar@, alignment, r),
{
    let components = manager.get_bar_components(bar);
    let colorize = manager.get_colorize();
    if components.len() == 0 {
        return None;
    }
    let ghost widgets = manager.region_widgets(bar@);
    let mut spans: Vec<Span> = Vec::new();
    let ghost mut pieces: Seq<Seq<SpanView>> = Seq::empty();
    let mut i: usize = 0;
    assert(spans.deep_view() =~= flatten(pieces));
    while i < components.len()
        invariant
            i <= components.len(),
            components@.len() == widgets.len(),
            forall|k: int| 0 <= k < components@.len() ==> *(#[trigger] components@[k]) == widgets[k],
            pieces.len() == i,
            forall|k: int| 0 <= k < i ==> widgets[k].shows(colorize, #[trigger] pieces[k]),
            spans.deep_view() == flatten(pieces),
        decreases components.len() - i,
    {
        let mut piece = components[i].render_as_spans_with_muting_and_colorize(colorize);
        let ghost shown = piece.deep_view();
        let ghost before = spans.deep_view();
        assert(*components@[i as int] == widgets[i as int]);
        spans.append(&mut piece);
        proof {
            assert(spans.deep_view() =~= before + shown);
            let longer = pieces.push(shown);
            assert(longer.drop_last() =~= pieces);
            assert forall|k: int| 0 <= k < i + 1 implies widgets[k].shows(colorize, #[trigger] longer[k]) by {
                if k < i {
                    assert(longer[k] == pieces[k]);
                }
            }
            pieces = longer;
        }
        i = i + 1;
    }
    Some(Line { spans, alignment, fg: Color::White })
}

impl LeftBar {
    pub fn new() -> (r: Self) {
        LeftBar
    }

    /// The region has nothing of its own to refresh.
    pub fn update(&mut self) {
    }

    /// Draws the left region, standing left.
    pub fn render(&self, component_manager: &ComponentManager) -> (r: Option<Line>)
        ensures
            region_line(*component_manager, "left"@, Alignment::Left, r),
    {
        render_region(component_manager, "left", Alignment::Left)
    }
}

impl MiddleBar {
    pub fn new() -> (r: Self) {
        MiddleBar
    }

    /// The region has nothing of its own to refresh.
    pub fn update(&mut self) {
    }

    /// Draws the middle region, standing in the centre.
    pub fn render(&self, component_manager: &ComponentManager) -> (r: Option<Line>)
        ensures
            region_line(*component_manager, "middle"@, Alignment::Center, r),
    {
        render_region(component_manager, "middle", Alignment::Center)
    }
}

impl RightBar {
    pub fn new() -> (r: Self) {
        RightBar
    }

    /// The region has nothing of its own to refresh.
    pub fn update(&mut self) {
    }

    /// Draws the right region, standing right.
    pub fn render(&self, component_manager: &ComponentManager) -> (r: Option<Line>)
        ensures
            region_line(*component_manager, "right"@, Alignment::Right, r),
    {
        render_region(component_manager, "right", Alignment::Right)
    }
}

} // verus!
