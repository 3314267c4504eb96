//! The workspaces, one label each.

use vstd::prelude::*;
use vstd::string::*;
use crate::readings::WorkspacesReading;
use crate::wayland_client::WorkspaceInfo;
use crate::style::{boxed, colored, plain, Color, Span, SpanView};
use crate::text::{concat3, parse_bounded, parse_unsigned, str_eq};

verus! {

/// A widget that shows the workspaces and marks the active one.
#[derive(Debug, Default)]
pub struct Workspaces {
    pub workspaces: Vec<String>,
    pub active_workspace: String,
}

/// The workspaces that a reading lists; none where the list could not be had.
pub open spec fn listed(reading: Option<&WorkspacesReading>) -> Seq<WorkspaceInfo> {
    match reading {
        Some(WorkspacesReading { workspaces: Some(infos), .. }) => infos@,
        _ => Seq::empty(),
    }
}

/// The names of the listed workspaces, in order.
pub open spec fn names_of(infos: Seq<WorkspaceInfo>) -> Seq<Seq<char>> {
    Seq::new(infos.len(), |i: int| infos[i].name@)
}

/// The name of the first listed workspace with the id `id`; empty where
/// there is none.
pub open spec fn name_of(infos: Seq<WorkspaceInfo>, id: Seq<char>) -> Seq<char>
    decreases infos.len(),
{
    if infos.len() == 0 {
        Seq::empty()
    } else if infos[0].id@ == id {
        infos[0].name@
    } else {
        name_of(infos.drop_first(), id)
    }
}

/// The seven colours that numbered workspaces go through, the first for
/// workspaces 1, 8, 15 and so on.
pub open spec fn rainbow(index: int) -> Color {
    if index == 0 {
        Color::Red
    } else if index == 1 {
        Color::Yellow
    } else if index == 2 {
        Color::Green
    } else if index == 3 {
        Color::Cyan
    } else if index == 4 {
        Color::Blue
    } else if index == 5 {
        Color::Magenta
    } else {
        Color::LightRed
    }
}

/// The colour of a workspace by its name: that of its number where the
/// name is a positive number, none otherwise.
pub open spec fn workspace_color(name: Seq<char>) -> Option<Color> {
    match parse_unsigned(name, usize::MAX as nat) {
        Some(n) => if n > 0 {
            Some(rainbow((n - 1) % 7))
        } else {
            None
        },
        None => None,
    }
}

/// The run that a workspace is drawn as: its name between two blanks. The
/// active one is black on its colour, or on white without one; the others
/// are written in their colour, or unstyled without one.
pub open spec fn workspace_span(name: Seq<char>, active: Seq<char>) -> SpanView {
    let text = " "@ + name + " "@;
    if name == active {
        match workspace_color(name) {
            Some(color) => boxed(text, color, Color::Black),
            None => boxed(text, Color::White, Color::Black),
        }
    } else {
        match workspace_color(name) {
            Some(color) => colored(text, color),
            None => plain(text),
        }
    }
}

fn rainbow_color(index: u64) -> (r: Color)
    ensures
        r == rainbow(index as int),
{
    if index == 0 {
        Color::Red
    } else if index == 1 {
        Color::Yellow
    } else if index == 2 {
        Color::Green
    } else if index == 3 {
        Color::Cyan
    } else if index == 4 {
        Color::Blue
    } else if index == 5 {
        Color::Magenta
    } else {
        Color::LightRed
    }
}

/// The colour of a workspace by its name.
pub fn color_of_workspace(name: &str) -> (r: Option<Color>)
    ensures
        r == workspace_color(name@),
{
    match parse_bounded(name, usize::MAX as u64) {
        Some(n) => if n > 0 {
            Some(rainbow_color((n - 1) % 7))
        } else {
            None
        },
        None => None,
    }
}

fn find_name(infos: &Vec<WorkspaceInfo>, id: &str) -> (r: String)
    ensures
        r@ == name_of(infos@, id@),
{
    let mut i: usize = 0;
    assert(infos@.skip(0) =~= infos@);
    while i < infos.len()
        invariant
            i <= infos.len(),
            name_of(infos@, id@) == name_of(infos@.skip(i as int), id@),
        decreases infos.len() - i,
    {
        assert(infos@.skip(i as int)[0] == infos@[i as int]);
        assert(infos@.skip(i as int).drop_first() =~= infos@.skip(i + 1));
        if str_eq(infos[i].id.as_str(), id) {
            return infos[i].name.clone();
        }
        i = i + 1;
    }
    String::new()
}

impl Workspaces {
    /// Whether `next` is this widget after the reading `reading` was taken
    /// in. The widget shows the listed workspaces, none where the list could
    /// not be had. Where the compositor names an active workspace, the
    /// widget marks the listed one with that id; otherwise it keeps its mark.
    pub open spec fn steps_to(self, next: Workspaces, reading: Option<&WorkspacesReading>) -> bool {
        &&& next.workspaces.deep_view() == names_of(listed(reading))
        &&& match reading {
            Some(WorkspacesReading { active: Some(Some(id)), .. }) => next.active_workspace@ == name_of(
                listed(reading),
                id@,
            ),
            _ => next.active_workspace == self.active_workspace,
        }
    }

    /// The runs of the widget, one for each workspace.
    pub open spec fn spans(self) -> Seq<SpanView> {
        Seq::new(self.workspaces@.len(), |i: int| workspace_span(self.workspaces@[i]@, self.active_workspace@))
    }

    /// Whether the widget is one that was made of the reading `reading`.
    pub open spec fn fresh(self, reading: Option<&WorkspacesReading>) -> bool {
        &&& self.workspaces.deep_view() == names_of(listed(reading))
        &&& self.active_workspace@ == match reading {
            Some(WorkspacesReading { active: Some(Some(id)), .. }) => name_of(listed(reading), id@),
            _ => Seq::empty(),
        }
    }

    /// A widget that shows what the compositor listed.
    pub fn new(reading: Option<&WorkspacesReading>) -> (s: Self)
        ensures
            s.fresh(reading),
    {
        let mut instance = Workspaces { workspaces: Vec::new(), active_workspace: String::new() };
        instance.update(reading);
        instance
    }

    /// Takes in what the compositor listed.
    pub fn update(&mut self, reading: Option<&WorkspacesReading>)
        ensures
            old(self).steps_to(*final(self), reading),
    {
        let mut names: Vec<String> = Vec::new();
        match reading {
            Some(WorkspacesReading { workspaces: Some(listed), .. }) => {
                let mut i: usize = 0;
                while i < listed.len()
                    invariant
                        i <= listed.len(),
                        names.len() == i,
                        forall|k: int| 0 <= k < i ==> (#[trigger] names[k])@ == listed[k].name@,
                    decreases listed.len() - i,
                {
                    names.push(listed[i].name.clone());
                    i = i + 1;
                }
                assert(names.deep_view() =~= names_of(listed@));
            },
            _ => {
                assert(names.deep_view() =~= names_of(Seq::empty()));
            },
        }
        self.workspaces = names;
        match reading {
            Some(WorkspacesReading { workspaces, active: Some(Some(id)) }) => {
                match workspaces {
                    Some(listed) => {
                        self.active_workspace = find_name(listed, id.as_str());
                    },
                    None => {
                        self.active_workspace = String::new();
                    },
                }
            },
            _ => {},
        }
    }

    /// The widget as runs, one for each workspace.
    pub fn render(&self) -> (r: Vec<Span>)
        ensures
            r.deep_view() == self.spans(),
    {
        let mut spans: Vec<Span> = Vec::new();
        let mut i: usize = 0;
        while i < self.workspaces.len()
            invariant
                i <= self.workspaces.len(),
                spans.len() == i,
                forall|k: int| 0 <= k < i ==> (#[trigger] spans[k])@ == workspace_span(
                    self.workspaces@[k]@,
                    self.active_workspace@,
                ),
            decreases self.workspaces.len() - i,
        {
            let name = self.workspaces[i].as_str();
            let text = concat3(" ", name, " ");
            let color = color_of_workspace(name);
            let span = if str_eq(name, self.active_workspace.as_str()) {
                match color {
                    Some(color) => Span::raw(text).bg(color).fg(Color::Black),
                    None => Span::raw(text).bg(Color::White).fg(Color::Black),
                }
            } else {
                match color {
                    Some(color) => Span::raw(text).fg(color),
                    None => Span::raw(text),
                }
            };
            spans.push(span);
            i = i + 1;
        }
        assert(spans.deep_view() =~= self.spans());
        spans
    }

    /// The widget as runs; the colours do not depend on `colorize`.
    pub fn render_as_spans(&self, colorize: bool) -> (r: Vec<Span>)
        ensures
            r.deep_view() == self.spans(),
    {
        self.render()
    }
}

} // verus!
