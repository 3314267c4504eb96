//! What a compositor's answers mean: the workspaces, the windows and the
//! active ones, read out of the JSON that Hyprland's and Sway's control
//! tools print.

use vstd::prelude::*;
use vstd::string::*;
use crate::json::{Json, JsonValue};
use crate::text::{signed_decimal, signed_decimal_string};
use crate::tree::{as_flag, as_int, as_text, at, flag_at, get, has, int_at, int_of, item, items, text_at, text_of};

verus! {

/// One workspace as a compositor lists it.
#[derive(Debug, PartialEq, Eq)]
pub struct WorkspaceInfo {
    pub id: String,
    pub name: String,
    pub is_active: bool,
}

/// One window as a compositor lists it.
#[derive(Debug, PartialEq, Eq)]
pub struct WindowInfo {
    pub id: String,
    pub title: String,
    pub class: String,
}

/// The mathematical value of a [`WorkspaceInfo`].
pub struct WorkspaceInfoView {
    pub id: Seq<char>,
    pub name: Seq<char>,
    pub is_active: bool,
}

/// The mathematical value of a [`WindowInfo`].
pub struct WindowInfoView {
    pub id: Seq<char>,
    pub title: Seq<char>,
    pub class: Seq<char>,
}

impl View for WorkspaceInfo {
    type V = WorkspaceInfoView;

    open spec fn view(&self) -> WorkspaceInfoView {
        WorkspaceInfoView { id: self.id@, name: self.name@, is_active: self.is_active }
    }
}

impl DeepView for WorkspaceInfo {
    type V = WorkspaceInfoView;

    open spec fn deep_view(&self) -> WorkspaceInfoView {
        self@
    }
}

impl View for WindowInfo {
    type V = WindowInfoView;

    open spec fn view(&self) -> WindowInfoView {
        WindowInfoView { id: self.id@, title: self.title@, class: self.class@ }
    }
}

impl DeepView for WindowInfo {
    type V = WindowInfoView;

    open spec fn deep_view(&self) -> WindowInfoView {
        self@
    }
}

/// The compositors that the bar can ask.
#[derive(Debug, Clone, Copy, PartialEq, Eq, Structural)]
pub enum Backend {
    Hyprland,
    Sway,
    Generic,
}

/// The compositor to ask, by the signs of the environment: Hyprland where
/// its instance signature is set, else Sway where its socket is set, else
/// the compositor that can be asked nothing.
pub fn select_backend(hyprland: bool, sway: bool) -> (r: Backend)
    ensures
        r == if hyprland {
            Backend::Hyprland
        } else if sway {
            Backend::Sway
        } else {
            Backend::Generic
        },
{
    if hyprland {
        Backend::Hyprland
    } else if sway {
        Backend::Sway
    } else {
        Backend::Generic
    }
}

/// The number under `key` written out, zero where there is none.
pub open spec fn number_text(value: JsonValue, key: Seq<char>) -> Seq<char> {
    match as_int(at(value, key)) {
        Some(n) => signed_decimal(n as int),
        None => signed_decimal(0),
    }
}

/// The text under `key`, empty where there is none.
pub open spec fn text_or_empty(value: JsonValue, key: Seq<char>) -> Seq<char> {
    match as_text(at(value, key)) {
        Some(text) => text,
        None => Seq::empty(),
    }
}

/// The workspace that an element of Hyprland's list stands for. Whether it
/// is the active one is not told here.
pub open spec fn hyprland_workspace(value: JsonValue) -> WorkspaceInfoView {
    WorkspaceInfoView { id: number_text(value, "id"@), name: text_or_empty(value, "name"@), is_active: false }
}

/// The workspace that an element of Sway's list stands for.
pub open spec fn sway_workspace(value: JsonValue) -> WorkspaceInfoView {
    WorkspaceInfoView {
        id: number_text(value, "num"@),
        name: text_or_empty(value, "name"@),
        is_active: match as_flag(at(value, "focused"@)) {
            Some(flag) => flag,
            None => false,
        },
    }
}

/// The workspaces of a compositor's list: `None` where the answer is no array.
pub open spec fn workspaces_of(value: JsonValue, backend: Backend) -> Option<Seq<WorkspaceInfoView>> {
    match value {
        JsonValue::Array(elements) => Some(
            Seq::new(
                elements.len(),
                |i: int|
                    if backend == Backend::Sway {
                        sway_workspace(elements[i])
                    } else {
                        hyprland_workspace(elements[i])
                    },
            ),
        ),
        _ => None,
    }
}

fn number_text_of(json: &Json, key: &str) -> (r: String)
    ensures
        r@ == number_text(json.deep_view(), key@),
{
    match int_at(json, key) {
        Some(n) => signed_decimal_string(n),
        None => signed_decimal_string(0),
    }
}

fn text_or_empty_of(json: &Json, key: &str) -> (r: String)
    ensures
        r@ == text_or_empty(json.deep_view(), key@),
{
    match text_at(json, key) {
        Some(text) => text,
        None => String::new(),
    }
}

/// Reads the list of workspaces that Hyprland or Sway printed.
pub fn get_workspaces(json: &Json, backend: Backend) -> (r: Option<Vec<WorkspaceInfo>>)
    ensures
        r.deep_view() == workspaces_of(json.deep_view(), backend),
{
    match json {
        Json::Array(elements) => {
            proof {
                crate::json::lemma_array_value(*elements);
            }
            let mut found: Vec<WorkspaceInfo> = Vec::new();
            let mut i: usize = 0;
            while i < elements.len()
                invariant
                    i <= elements.len(),
                    found.len() == i,
                    forall|k: int|
                        0 <= k < i ==> (#[trigger] found[k])@ == if backend == Backend::Sway {
                            sway_workspace(elements[k].deep_view())
                        } else {
                            hyprland_workspace(elements[k].deep_view())
                        },
                decreases elements.len() - i,
            {
                let element = &elements[i];
                let info = match backend {
                    Backend::Sway => WorkspaceInfo {
                        id: number_text_of(element, "num"),
                        name: text_or_empty_of(element, "name"),
                        is_active: match flag_at(element, "focused") {
                            Some(flag) => flag,
                            None => false,
                        },
                    },
                    _ => WorkspaceInfo {
                        id: number_text_of(element, "id"),
                        name: text_or_empty_of(element, "name"),
                        is_active: false,
                    },
                };
                found.push(info);
                i = i + 1;
            }
            assert(found.deep_view() =~= workspaces_of(json.deep_view(), backend)->0);
            Some(found)
        },
        _ => None,
    }
}

/// The id of the active workspace by Hyprland's answer: its `id` written
/// out, zero where it has none.
pub fn hyprland_active_workspace(json: &Json) -> (r: String)
    ensures
        r@ == number_text(json.deep_view(), "id"@),
{
    number_text_of(json, "id")
}

/// The address of the active window by Hyprland's answer, if it names one.
pub fn hyprland_active_window(json: &Json) -> (r: Option<String>)
    ensures
        r.deep_view() == as_text(at(json.deep_view(), "address"@)),
{
    text_at(json, "address")
}

/// The id of the first listed workspace that is active, if one is.
pub open spec fn first_active(workspaces: Seq<WorkspaceInfoView>) -> Option<Seq<char>>
    decreases workspaces.len(),
{
    if workspaces.len() == 0 {
        None
    } else if workspaces[0].is_active {
        Some(workspaces[0].id)
    } else {
        first_active(workspaces.drop_first())
    }
}

/// The id of the active workspace among those that Sway listed.
pub fn sway_active_workspace(workspaces: &Vec<WorkspaceInfo>) -> (r: Option<String>)
    ensures
        r.deep_view() == first_active(workspaces.deep_view()),
{
    let ghost all = workspaces.deep_view();
    let mut i: usize = 0;
    assert(all.skip(0) =~= all);
    while i < workspaces.len()
        invariant
            i <= workspaces.len(),
            all == workspaces.deep_view(),
            first_active(all) == first_active(all.skip(i as int)),
        decreases workspaces.len() - i,
    {
        assert(all.skip(i as int)[0] == workspaces[i as int]@);
        assert(all.skip(i as int).drop_first() =~= all.skip(i + 1));
        if workspaces[i].is_active {
            return Some(workspaces[i].id.clone());
        }
        i = i + 1;
    }
    None
}

/// The window that an element of Hyprland's client list stands for: one on
/// a workspace with a positive number whose address, title and class are
/// texts. Any other element stands for no window.
pub open spec fn hyprland_window(value: JsonValue) -> Option<WindowInfoView> {
    match (
        as_int(at(at(value, "workspace"@), "id"@)),
        as_text(at(value, "address"@)),
        as_text(at(value, "title"@)),
        as_text(at(value, "class"@)),
    ) {
        (Some(workspace), Some(id), Some(title), Some(class)) => if workspace > 0 {
            Some(WindowInfoView { id, title, class })
        } else {
            None
        },
        _ => None,
    }
}

/// The windows among the elements of Hyprland's client list, in order.
pub open spec fn hyprland_windows(elements: Seq<JsonValue>) -> Seq<WindowInfoView>
    decreases elements.len(),
{
    if elements.len() == 0 {
        Seq::empty()
    } else {
        match hyprland_window(elements.last()) {
            Some(window) => hyprland_windows(elements.drop_last()).push(window),
            None => hyprland_windows(elements.drop_last()),
        }
    }
}

fn hyprland_window_of(json: &Json) -> (r: Option<WindowInfo>)
    ensures
        r.deep_view() == hyprland_window(json.deep_view()),
{
    let workspace = match get(json, "workspace") {
        Some(inner) => int_at(inner, "id"),
        None => None,
    };
    match (workspace, text_at(json, "address"), text_at(json, "title"), text_at(json, "class")) {
        (Some(workspace), Some(id), Some(title), Some(class)) => if workspace > 0 {
            Some(WindowInfo { id, title, class })
        } else {
            None
        },
        _ => None,
    }
}

/// Reads the list of windows that Hyprland printed: `None` where the answer
/// is no array.
pub fn get_windows(json: &Json) -> (r: Option<Vec<WindowInfo>>)
    ensures
        r.deep_view() == match json.deep_view() {
            JsonValue::Array(elements) => Some(hyprland_windows(elements)),
            _ => None,
        },
{
    match json {
        Json::Array(elements) => {
            proof {
                crate::json::lemma_array_value(*elements);
            }
            let ghost all = elements.deep_view();
            let mut found: Vec<WindowInfo> = Vec::new();
            let mut i: usize = 0;
            assert(all.take(0) =~= Seq::<JsonValue>::empty());
            assert(found.deep_view() =~= Seq::<WindowInfoView>::empty());
            while i < elements.len()
                invariant
                    i <= elements.len(),
                    all == elements.deep_view(),
                    found.deep_view() == hyprland_windows(all.take(i as int)),
                decreases elements.len() - i,
            {
                let ghost before = found.deep_view();
                assert(all.take(i + 1).drop_last() =~= all.take(i as int));
                assert(all.take(i + 1).last() == elements[i as int].deep_view());
                match hyprland_window_of(&elements[i]) {
                    Some(window) => {
                        found.push(window);
                        assert(found.deep_view() =~= before.push(window@));
                    },
                    None => {},
                }
                i = i + 1;
            }
            assert(all.take(i as int) =~= all);
            Some(found)
        },
        _ => None,
    }
}

/// The window that a node of Sway's tree is itself: a node with window
/// properties whose id is a number and whose title and class are texts.
pub open spec fn node_window(node: JsonValue) -> Option<WindowInfoView> {
    if has(node, "window_properties"@) {
        let properties = at(node, "window_properties"@);
        match (as_int(at(node, "id"@)), as_text(at(properties, "title"@)), as_text(at(properties, "class"@))) {
            (Some(id), Some(title), Some(class)) => Some(
                WindowInfoView { id: signed_decimal(id as int), title, class },
            ),
            _ => None,
        }
    } else {
        None
    }
}

/// The windows of a node of Sway's tree down to `depth` levels: the node
/// itself, then those below its `nodes`, then those below its
/// `floating_nodes`.
pub open spec fn tree_windows(node: JsonValue, depth: nat) -> Seq<WindowInfoView>
    decreases depth, 0nat, 0nat,
{
    let own = match node_window(node) {
        Some(window) => seq![window],
        None => Seq::empty(),
    };
    if depth == 0 {
        own
    } else {
        own + forest_windows(items(at(node, "nodes"@)), (depth - 1) as nat) + forest_windows(
            items(at(node, "floating_nodes"@)),
            (depth - 1) as nat,
        )
    }
}

/// The windows of a row of nodes, each down to `depth` levels.
pub open spec fn forest_windows(nodes: Seq<JsonValue>, depth: nat) -> Seq<WindowInfoView>
    decreases depth, 1nat, nodes.len(),
{
    if nodes.len() == 0 {
        Seq::empty()
    } else {
        forest_windows(nodes.drop_last(), depth) + tree_windows(nodes.last(), depth)
    }
}

fn node_window_of(node: &Json) -> (r: Option<WindowInfo>)
    ensures
        r.deep_view() == node_window(node.deep_view()),
{
    match get(node, "window_properties") {
        Some(properties) => match (int_at(node, "id"), text_at(properties, "title"), text_at(properties, "class")) {
            (Some(id), Some(title), Some(class)) => Some(WindowInfo { id: signed_decimal_string(id), title, class }),
            _ => None,
        },
        None => None,
    }
}

fn children<'a>(node: &'a Json, key: &str) -> (r: Option<&'a Vec<Json>>)
    ensures
        match r {
            Some(nodes) => nodes.deep_view() == items(at(node.deep_view(), key@)),
            None => items(at(node.deep_view(), key@)) == Seq::<JsonValue>::empty(),
        },
{
    match get(node, key) {
        Some(Json::Array(nodes)) => {
            proof {
                crate::json::lemma_array_value(*nodes);
            }
            Some(nodes)
        },
        _ => None,
    }
}

/// Adds the windows of a node of Sway's tree, down to `depth` levels, to
/// `windows`.
pub fn extract_windows_from_node(node: &Json, depth: usize, windows: &mut Vec<WindowInfo>)
    ensures
        final(windows).deep_view() == old(windows).deep_view() + tree_windows(node.deep_view(), depth as nat),
    decreases depth, 0nat, 0nat,
{
    let ghost before = windows.deep_view();
    match node_window_of(node) {
        Some(window) => {
            windows.push(window);
            assert(windows.deep_view() =~= before + seq![window@]);
        },
        None => {
            assert(windows.deep_view() =~= before + Seq::<WindowInfoView>::empty());
        },
    }
    if depth > 0 {
        let ghost own = windows.deep_view();
        extract_windows_from_row(children(node, "nodes"), depth - 1, windows);
        let ghost tiled = windows.deep_view();
        extract_windows_from_row(children(node, "floating_nodes"), depth - 1, windows);
        assert(windows.deep_view() =~= before + tree_windows(node.deep_view(), depth as nat));
    }
}

fn extract_windows_from_row(nodes: Option<&Vec<Json>>, depth: usize, windows: &mut Vec<WindowInfo>)
    ensures
        final(windows).deep_view() == old(windows).deep_view() + forest_windows(
            match nodes {
                Some(row) => row.deep_view(),
                None => Seq::empty(),
            },
            depth as nat,
        ),
    decreases depth, 1nat, 0nat,
{
    let ghost before = windows.deep_view();
    match nodes {
        Some(row) => {
            let ghost all = row.deep_view();
            let mut i: usize = 0;
            assert(all.take(0) =~= Seq::<JsonValue>::empty());
            assert(windows.deep_view() =~= before + forest_windows(all.take(0), depth as nat));
            while i < row.len()
                invariant
                    i <= row.len(),
                    all == row.deep_view(),
                    windows.deep_view() == before + forest_windows(all.take(i as int), depth as nat),
                decreases row.len() - i,
            {
                let ghost so_far = windows.deep_view();
                assert(all.take(i + 1).drop_last() =~= all.take(i as int));
                assert(all.take(i + 1).last() == row[i as int].deep_view());
                extract_windows_from_node(&row[i], depth, windows);
                assert(windows.deep_view() =~= before + forest_windows(all.take(i + 1), depth as nat));
                i = i + 1;
            }
            assert(all.take(i as int) =~= all);
        },
        None => {
            assert(windows.deep_view() =~= before + forest_windows(Seq::empty(), depth as nat));
        },
    }
}

/// How deep Sway's tree is searched: deeper than any tree that the JSON
/// reader lets through.
pub const TREE_DEPTH: usize = 128;

/// The windows of Sway's tree.
pub fn sway_windows(tree: &Json) -> (r: Vec<WindowInfo>)
    ensures
        r.deep_view() == tree_windows(tree.deep_view(), TREE_DEPTH as nat),
{
    let mut windows: Vec<WindowInfo> = Vec::new();
    assert(windows.deep_view() =~= Seq::<WindowInfoView>::empty());
    extract_windows_from_node(tree, TREE_DEPTH, &mut windows);
    assert(Seq::<WindowInfoView>::empty() + tree_windows(tree.deep_view(), TREE_DEPTH as nat) =~= tree_windows(
        tree.deep_view(),
        TREE_DEPTH as nat,
    ));
    windows
}

/// Whether a node of Sway's tree is a window that has the focus.
pub open spec fn is_focused_window(node: JsonValue) -> bool {
    as_flag(at(node, "focused"@)) == Some(true) && has(node, "window_properties"@)
}

/// The id of the focused window of a node of Sway's tree down to `depth`
/// levels: the node's own id where it is a focused window (none where that
/// id is no number); else the first that is found below its `nodes`, then
/// below its `floating_nodes`.
pub open spec fn focused_in_tree(node: JsonValue, depth: nat) -> Option<Seq<char>>
    decreases depth, 0nat, 0nat,
{
    if is_focused_window(node) {
        match as_int(at(node, "id"@)) {
            Some(id) => Some(signed_decimal(id as int)),
            None => None,
        }
    } else if depth == 0 {
        None
    } else {
        match focused_in_row(items(at(node, "nodes"@)), (depth - 1) as nat) {
            Some(id) => Some(id),
            None => focused_in_row(items(at(node, "floating_nodes"@)), (depth - 1) as nat),
        }
    }
}

/// The id of the first focused window in a row of nodes.
pub open spec fn focused_in_row(nodes: Seq<JsonValue>, depth: nat) -> Option<Seq<char>>
    decreases depth, 1nat, nodes.len(),
{
    if nodes.len() == 0 {
        None
    } else {
        match focused_in_tree(nodes[0], depth) {
            Some(id) => Some(id),
            None => focused_in_row(nodes.drop_first(), depth),
        }
    }
}

/// The id of the focused window of a node of Sway's tree, down to `depth`
/// levels.
pub fn find_focused_window(node: &Json, depth: usize) -> (r: Option<String>)
    ensures
        r.deep_view() == focused_in_tree(node.deep_view(), depth as nat),
    decreases depth, 0nat, 0nat,
{
    let focused = match flag_at(node, "focused") {
        Some(true) => true,
        _ => false,
    };
    if focused && get(node, "window_properties").is_some() {
        match int_at(node, "id") {
            Some(id) => Some(signed_decimal_string(id)),
            None => None,
        }
    } else if depth == 0 {
        None
    } else {
        match find_focused_in_row(children(node, "nodes"), depth - 1) {
            Some(id) => Some(id),
            None => find_focused_in_row(children(node, "floating_nodes"), depth - 1),
        }
    }
}

fn find_focused_in_row(nodes: Option<&Vec<Json>>, depth: usize) -> (r: Option<String>)
    ensures
        r.deep_view() == focused_in_row(
            match nodes {
                Some(row) => row.deep_view(),
                None => Seq::empty(),
            },
            depth as nat,
        ),
    decreases depth, 1nat, 0nat,
{
    match nodes {
        Some(row) => {
            let ghost all = row.deep_view();
            let mut i: usize = 0;
            assert(all.skip(0) =~= all);
            while i < row.len()
                invariant
                    i <= row.len(),
                    nodes == Some(row),
                    all == row.deep_view(),
                    focused_in_row(all, depth as nat) == focused_in_row(all.skip(i as int), depth as nat),
                decreases row.len() - i,
            {
                assert(all.skip(i as int)[0] == row[i as int].deep_view());
                assert(all.skip(i as int).drop_first() =~= all.skip(i + 1));
                match find_focused_window(&row[i], depth) {
                    Some(id) => {
                        return Some(id);
                    },
                    None => {},
                }
                i = i + 1;
            }
            None
        },
        None => None,
    }
}

/// What a compositor can be asked.
#[derive(Debug, Clone, Copy, PartialEq, Eq, Structural)]
pub enum Query {
    Workspaces,
    Windows,
    ActiveWorkspace,
    ActiveWindow,
}

/// The view of the compositor that the bar works with: it knows which
/// compositor runs, which command answers a question, and what an answer
/// means.
#[derive(Debug, Clone, Copy, PartialEq, Eq, Structural)]
pub struct WaylandManager {
    pub backend: Backend,
}

/// The words of the command that asks `backend` the question `query`; none
/// for the compositor that can be asked nothing.
pub open spec fn command_words(backend: Backend, query: Query) -> Seq<Seq<char>> {
    match backend {
        Backend::Hyprland => match query {
            Query::Workspaces => seq!["hyprctl"@, "workspaces"@, "-j"@],
            Query::Windows => seq!["hyprctl"@, "clients"@, "-j"@],
            Query::ActiveWorkspace => seq!["hyprctl"@, "activeworkspace"@, "-j"@],
            Query::ActiveWindow => seq!["hyprctl"@, "activewindow"@, "-j"@],
        },
        Backend::Sway => match query {
            Query::Workspaces => seq!["i3-msg"@, "-t"@, "get_workspaces"@],
            Query::Windows => seq!["i3-msg"@, "-t"@, "get_tree"@],
            Query::ActiveWorkspace => seq!["i3-msg"@, "-t"@, "get_workspaces"@],
            Query::ActiveWindow => seq!["i3-msg"@, "-t"@, "get_tree"@],
        },
        Backend::Generic => Seq::empty(),
    }
}

fn words3(a: &str, b: &str, c: &str) -> (r: Vec<String>)
    ensures
        r.deep_view() == seq![a@, b@, c@],
{
    let mut words: Vec<String> = Vec::new();
    words.push(String::from_str(a));
    words.push(String::from_str(b));
    words.push(String::from_str(c));
    assert(words.deep_view() =~= seq![a@, b@, c@]);
    words
}

impl WaylandManager {
    /// The manager for the compositor that the environment points to.
    pub fn new(hyprland: bool, sway: bool) -> (r: Self)
        ensures
            r.backend == if hyprland {
                Backend::Hyprland
            } else if sway {
                Backend::Sway
            } else {
                Backend::Generic
            },
    {
        WaylandManager { backend: select_backend(hyprland, sway) }
    }

    /// The command that asks the compositor the question `query`: the
    /// program first, then its arguments. Empty where the compositor can be
    /// asked nothing.
    pub fn command(&self, query: Query) -> (r: Vec<String>)
        ensures
            r.deep_view() == command_words(self.backend, query),
    {
        match self.backend {
            Backend::Hyprland => match query {
                Query::Workspaces => words3("hyprctl", "workspaces", "-j"),
                Query::Windows => words3("hyprctl", "clients", "-j"),
                Query::ActiveWorkspace => words3("hyprctl", "activeworkspace", "-j"),
                Query::ActiveWindow => words3("hyprctl", "activewindow", "-j"),
            },
            Backend::Sway => match query {
                Query::Workspaces => words3("i3-msg", "-t", "get_workspaces"),
                Query::Windows => words3("i3-msg", "-t", "get_tree"),
                Query::ActiveWorkspace => words3("i3-msg", "-t", "get_workspaces"),
                Query::ActiveWindow => words3("i3-msg", "-t", "get_tree"),
            },
            Backend::Generic => {
                let words: Vec<String> = Vec::new();
                assert(words.deep_view() =~= Seq::<Seq<char>>::empty());
                words
            },
        }
    }

    /// The workspaces by the compositor's answer to [`Query::Workspaces`];
    /// `None` where the answer is no list. The compositor that can be asked
    /// nothing has no workspaces.
    pub fn get_workspaces(&self, answer: &Json) -> (r: Option<Vec<WorkspaceInfo>>)
        ensures
            r.deep_view() == if self.backend == Backend::Generic {
                Some(Seq::empty())
            } else {
                workspaces_of(answer.deep_view(), self.backend)
            },
    {
        match self.backend {
            Backend::Generic => {
                let none: Vec<WorkspaceInfo> = Vec::new();
                assert(none.deep_view() =~= Seq::<WorkspaceInfoView>::empty());
                Some(none)
            },
            _ => get_workspaces(answer, self.backend),
        }
    }

    /// The windows by the compositor's answer to [`Query::Windows`]; `None`
    /// where Hyprland's answer is no list. The compositor that can be asked
    /// nothing has no windows.
    pub fn get_windows(&self, answer: &Json) -> (r: Option<Vec<WindowInfo>>)
        ensures
            r.deep_view() == match self.backend {
                Backend::Hyprland => match answer.deep_view() {
                    JsonValue::Array(elements) => Some(hyprland_windows(elements)),
                    _ => None,
                },
                Backend::Sway => Some(tree_windows(answer.deep_view(), TREE_DEPTH as nat)),
                Backend::Generic => Some(Seq::empty()),
            },
    {
        match self.backend {
            Backend::Hyprland => get_windows(answer),
            Backend::Sway => Some(sway_windows(answer)),
            Backend::Generic => {
                let none: Vec<WindowInfo> = Vec::new();
                assert(none.deep_view() =~= Seq::<WindowInfoView>::empty());
                Some(none)
            },
        }
    }

    /// The id of the active workspace by the compositor's answer to
    /// [`Query::ActiveWorkspace`].
    pub fn get_active_workspace(&self, answer: &Json) -> (r: Option<String>)
        ensures
            r.deep_view() == match self.backend {
                Backend::Hyprland => Some(number_text(answer.deep_view(), "id"@)),
                Backend::Sway => match workspaces_of(answer.deep_view(), Backend::Sway) {
                    Some(workspaces) => first_active(workspaces),
                    None => None,
                },
                Backend::Generic => None,
            },
    {
        match self.backend {
            Backend::Hyprland => Some(hyprland_active_workspace(answer)),
            Backend::Sway => match get_workspaces(answer, Backend::Sway) {
                Some(workspaces) => sway_active_workspace(&workspaces),
                None => None,
            },
            Backend::Generic => None,
        }
    }

    /// The id of the focused window by the compositor's answer to
    /// [`Query::ActiveWindow`].
    pub fn get_active_window(&self, answer: &Json) -> (r: Option<String>)
        ensures
            r.deep_view() == match self.backend {
                Backend::Hyprland => as_text(at(answer.deep_view(), "address"@)),
                Backend::Sway => focused_in_tree(answer.deep_view(), TREE_DEPTH as nat),
                Backend::Generic => None,
            },
    {
        match self.backend {
            Backend::Hyprland => hyprland_active_window(answer),
            Backend::Sway => find_focused_window(answer, TREE_DEPTH),
            Backend::Generic => None,
        }
    }
}

} // verus!
