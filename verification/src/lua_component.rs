//! Script plugins: widgets whose behaviour a Lua script supplies.
//!
//! A script evaluates to a table. Its `render` member, a function from the
//! colour switch to a text or to a pair of text and colour name, is required;
//! its `update` member is optional. A script that does not evaluate to such a
//! table is no plugin. Each plugin owns the interpreter that its script runs in.
//!
//! An error of a hook goes no further than the plugin. One of `render` shows
//! the plugin's error marker in place of its text. One of `update` is
//! remembered, and the marker is shown until a later pass goes well.

use vstd::prelude::*;
use vstd::string::*;
use crate::style::{colored, plain, single, Color, Span, SpanView};
use crate::text::{concat, lowercase, str_eq, to_lowercase};

verus! {

/// An interpreter of `mlua`.
#[verifier::external_type_specification]
#[verifier::external_body]
pub struct ExInterpreter(mlua::Lua);

/// A handle of `mlua` to a function that lives in an interpreter.
#[verifier::external_type_specification]
#[verifier::external_body]
pub struct ExScriptFunction(mlua::Function);

/// A handle of `mlua` to a table that lives in an interpreter.
#[verifier::external_type_specification]
#[verifier::external_body]
pub struct ExScriptTable(mlua::Table);

/// `Clone` for an interpreter of `mlua` gives a further handle to it. Nothing
/// is claimed of the handle.
pub assume_specification[ <mlua::Lua as Clone>::clone ](lua: &mlua::Lua) -> mlua::Lua;

/// `Clone` for a function of `mlua` gives a further handle to it. Nothing is
/// claimed of the handle.
pub assume_specification[ <mlua::Function as Clone>::clone ](function: &mlua::Function) -> mlua::Function;

/// What a script's table offers: the interpreter and the two hooks.
#[derive(Debug)]
pub struct Hooks {
    lua: mlua::Lua,
    update_fn: Option<mlua::Function>,
    render_fn: mlua::Function,
}

/// A widget that a script supplies. It remembers the error of its last
/// pass, if that pass failed.
#[derive(Debug)]
pub struct LuaComponent {
    name: String,
    hooks: Hooks,
    failure: Option<String>,
}

/// Why a script is no plugin.
#[derive(Debug, PartialEq, Eq)]
pub enum PluginError {
    /// The script did not evaluate to a table; the text is the interpreter's message.
    Script(String),
    /// The table has no `render` function; the text is the interpreter's message.
    MissingRender(String),
}

/// What a call of the `render` hook gave.
#[derive(Debug, PartialEq, Eq)]
pub enum RenderReply {
    /// A text.
    Text(String),
    /// A table. `text` is its first element where that is a string, `color`
    /// its second element where that is a string.
    Pair { text: Option<String>, color: Option<String> },
    /// A value of any other kind.
    Unrecognized,
    /// The hook raised an error; the text is the interpreter's message.
    Failed(String),
}

/// The table that a script evaluated to, with the interpreter that it
/// lives in: the table's `update` function where it has one, and its
/// `render` function or the message that says why it has none. Only
/// [`LuaComponent::inspect`] makes one, so the interpreter and what was
/// taken from it stay together.
#[derive(Debug)]
pub struct ScriptTable {
    lua: mlua::Lua,
    update: Option<mlua::Function>,
    render: Result<mlua::Function, String>,
}

/// What evaluating a script gave: the interpreter's message where the
/// script did not evaluate to a table, else the table.
#[derive(Debug)]
pub enum ScriptParts {
    Failed(String),
    Table(ScriptTable),
}

enum RawReply {
    Text(String),
    Table(mlua::Table),
    Other,
    Failed(String),
}

/// Makes an interpreter with `Lua::new` and evaluates `source` in it with
/// `Lua::load` and `Chunk::eval`, asking for a table. An error is handed
/// back as its message. Nothing is claimed of the outcome: it is the script's.
#[verifier::external_body]
fn evaluate(source: &str) -> Result<(mlua::Lua, mlua::Table), String> {
    let lua = mlua::Lua::new();
    match lua.load(source).eval::<mlua::Table>() {
        Ok(table) => Ok((lua, table)),
        Err(error) => Err(error.to_string()),
    }
}

/// Reads the member `key` of a table as a function, with `Table::get`. An
/// error, also that of a member which is no function, is handed back as its
/// message.
#[verifier::external_body]
fn member_function(table: &mlua::Table, key: &str) -> Result<mlua::Function, String> {
    table.get::<mlua::Function>(key).map_err(|error| error.to_string())
}

/// Reads the element `index` of a table with `Table::get`: its text where it
/// is a string (made valid Unicode by `to_string_lossy`), `None` otherwise.
#[verifier::external_body]
fn element_text(table: &mlua::Table, index: i64) -> Option<String> {
    match table.get::<mlua::Value>(index) {
        Ok(mlua::Value::String(text)) => Some(text.to_string_lossy()),
        _ => None,
    }
}

/// Calls a function without arguments with `Function::call`. An error is
/// handed back as its message.
#[verifier::external_body]
fn call_update(function: &mlua::Function) -> Result<(), String> {
    function.call::<()>(()).map_err(|error| error.to_string())
}

/// Calls a function on the colour switch with `Function::call` and tells the
/// kinds of result apart: a string (made valid Unicode by `to_string_lossy`),
/// a table, anything else, an error.
#[verifier::external_body]
fn call_render(function: &mlua::Function, colorize: bool) -> RawReply {
    match function.call::<mlua::Value>((colorize,)) {
        Ok(mlua::Value::String(text)) => RawReply::Text(text.to_string_lossy()),
        Ok(mlua::Value::Table(table)) => RawReply::Table(table),
        Ok(_) => RawReply::Other,
        Err(error) => RawReply::Failed(error.to_string()),
    }
}

/// The colour that a colour name stands for, the name given in lower case.
/// Any name but the nine listed stands for white.
pub open spec fn named_color(name: Seq<char>) -> Color {
    if name == "red"@ {
        Color::Red
    } else if name == "green"@ {
        Color::Green
    } else if name == "yellow"@ {
        Color::Yellow
    } else if name == "blue"@ {
        Color::Blue
    } else if name == "magenta"@ {
        Color::Magenta
    } else if name == "cyan"@ {
        Color::Cyan
    } else if name == "white"@ {
        Color::White
    } else if name == "black"@ {
        Color::Black
    } else if name == "gray"@ {
        Color::Gray
    } else {
        Color::White
    }
}

/// The marker shown for a plugin whose `render` hook gave nothing usable: a
/// cross and the plugin's name.
pub open spec fn plugin_error_text(name: Seq<char>) -> Seq<char> {
    "\u{274c} "@ + name
}

/// The run that the plugin `name` is drawn as, given what its `render` hook
/// gave. A text is shown as it is. A table shows its text, or `error` where
/// it has none, in its colour where it names one. Anything else, and an
/// error, shows the plugin's error marker.
pub open spec fn reply_span(name: Seq<char>, reply: RenderReply) -> SpanView {
    match reply {
        RenderReply::Text(text) => plain(text@),
        RenderReply::Pair { text, color } => {
            let shown = match text {
                Some(t) => t@,
                None => "error"@,
            };
            match color {
                Some(c) => colored(shown, named_color(lowercase(c@))),
                None => plain(shown),
            }
        },
        RenderReply::Unrecognized => plain(plugin_error_text(name)),
        RenderReply::Failed(_) => plain(plugin_error_text(name)),
    }
}

/// The colour that a colour name in lower case stands for.
pub fn color_named(name: &str) -> (r: Color)
    ensures
        r == named_color(name@),
{
    if str_eq(name, "red") {
        Color::Red
    } else if str_eq(name, "green") {
        Color::Green
    } else if str_eq(name, "yellow") {
        Color::Yellow
    } else if str_eq(name, "blue") {
        Color::Blue
    } else if str_eq(name, "magenta") {
        Color::Magenta
    } else if str_eq(name, "cyan") {
        Color::Cyan
    } else if str_eq(name, "white") {
        Color::White
    } else if str_eq(name, "black") {
        Color::Black
    } else if str_eq(name, "gray") {
        Color::Gray
    } else {
        Color::White
    }
}

/// The colour that a colour name stands for, whatever its case.
pub fn parse_color(color_name: &str) -> (r: Color)
    ensures
        r == named_color(lowercase(color_name@)),
{
    let lowered = to_lowercase(color_name);
    color_named(lowered.as_str())
}

/// The runs that the plugin `name` is drawn as, given what its `render`
/// hook gave.
pub fn spans_of_reply(name: &str, reply: &RenderReply) -> (r: Vec<Span>)
    ensures
        r.deep_view() == seq![reply_span(name@, *reply)],
{
    match reply {
        RenderReply::Text(text) => single(Span::raw(text.clone())),
        RenderReply::Pair { text, color } => {
            let shown = match text {
                Some(t) => t.clone(),
                None => String::from_str("error"),
            };
            match color {
                Some(c) => single(Span::raw(shown).fg(parse_color(c.as_str()))),
                None => single(Span::raw(shown)),
            }
        },
        _ => single(Span::raw(concat("\u{274c} ", name))),
    }
}

impl ScriptTable {
    /// Whether the table has an `update` function.
    pub closed spec fn has_update(self) -> bool {
        self.update is Some
    }

    /// Why the table has no `render` function, where it has none.
    pub closed spec fn render_error(self) -> Option<Seq<char>> {
        match self.render {
            Ok(_) => None,
            Err(message) => Some(message@),
        }
    }
}

impl ScriptParts {
    /// Whether the script is a plugin: it gave a table with a `render`
    /// function.
    pub open spec fn usable(self) -> bool {
        self matches ScriptParts::Table(table) && table.render_error() is None
    }

    /// Whether the script is a plugin.
    pub fn is_plugin(&self) -> (r: bool)
        ensures
            r == self.usable(),
    {
        match self {
            ScriptParts::Failed(_) => false,
            ScriptParts::Table(table) => match &table.render {
                Ok(_) => true,
                Err(_) => false,
            },
        }
    }
}

/// Which of the scripts are plugins; a file that was not evaluated has none.
pub open spec fn usable(parts: Seq<Option<ScriptParts>>) -> Seq<bool> {
    Seq::new(parts.len(), |i: int| parts[i] matches Some(script) && script.usable())
}

/// What is remembered of a pass over a plugin, given what the call of its
/// `update` hook gave: nothing where the hook went well, the interpreter's
/// message where it raised an error.
pub fn update_outcome(outcome: Result<(), String>) -> (r: Option<String>)
    ensures
        r.deep_view() == match outcome {
            Ok(_) => None,
            Err(message) => Some(message@),
        },
{
    match outcome {
        Ok(()) => None,
        Err(message) => Some(message),
    }
}

impl LuaComponent {
    /// The plugin's name.
    pub closed spec fn spec_name(self) -> Seq<char> {
        self.name@
    }

    /// Whether the plugin's script has an `update` hook.
    pub closed spec fn has_update(self) -> bool {
        self.hooks.update_fn is Some
    }

    /// The error of the plugin's last pass, where that pass failed.
    pub closed spec fn failure(self) -> Option<Seq<char>> {
        match self.failure {
            Some(message) => Some(message@),
            None => None,
        }
    }

    /// Whether the plugin's last pass failed.
    pub open spec fn failed(self) -> bool {
        self.failure() is Some
    }

    /// Whether `other` is this plugin as far as its script goes: the same
    /// name, the same interpreter, the same hooks.
    pub closed spec fn same_script(self, other: LuaComponent) -> bool {
        self.name == other.name && self.hooks == other.hooks
    }

    /// Whether this is the plugin that is made under `name` of the table
    /// `table`: it has that name, the table's interpreter and hooks, and no
    /// failed pass behind it.
    pub closed spec fn made_of(self, name: Seq<char>, table: ScriptTable) -> bool {
        &&& self.name@ == name
        &&& self.hooks.lua == table.lua
        &&& self.hooks.update_fn == table.update
        &&& table.render == Ok::<mlua::Function, String>(self.hooks.render_fn)
        &&& self.failure is None
    }

    /// Whether this plugin is a copy of `other`: the same name, an `update`
    /// hook exactly where `other` has one, and the same failure remembered.
    pub open spec fn copies(self, other: LuaComponent) -> bool {
        &&& self.spec_name() == other.spec_name()
        &&& self.has_update() == other.has_update()
        &&& self.failure() == other.failure()
    }

    /// Whether `next` is this plugin after one pass. Name, interpreter and
    /// hooks stay. A plugin without an `update` hook does not change at
    /// all; for one with the hook, the pass decides whether a failure is
    /// remembered.
    pub open spec fn steps_to(self, next: LuaComponent) -> bool {
        &&& self.same_script(next)
        &&& next.spec_name() == self.spec_name()
        &&& next.has_update() == self.has_update()
        &&& !self.has_update() ==> next == self
    }

    /// Whether `spans` is what the plugin may be drawn as: its error
    /// marker while its last pass failed, else the run for whatever its
    /// `render` hook gives.
    pub open spec fn draws(self, spans: Seq<SpanView>) -> bool {
        if self.failed() {
            spans == seq![plain(plugin_error_text(self.spec_name()))]
        } else {
            exists|reply: RenderReply| spans == seq![#[trigger] reply_span(self.spec_name(), reply)]
        }
    }

    /// The plugin's name.
    pub fn name(&self) -> (r: &str)
        ensures
            r@ == self.spec_name(),
    {
        self.name.as_str()
    }

    /// The error of the plugin's last pass, where that pass failed.
    pub fn failure_message(&self) -> (r: Option<String>)
        ensures
            r.deep_view() == self.failure(),
    {
        match &self.failure {
            Some(message) => Some(message.clone()),
            None => None,
        }
    }

    /// Evaluates a script and takes its table apart. What comes of it is the
    /// script's matter.
    pub fn inspect(source: &str) -> (r: ScriptParts) {
        match evaluate(source) {
            Ok((lua, table)) => {
                let update = match member_function(&table, "update") {
                    Ok(function) => Some(function),
                    Err(_) => None,
                };
                let render = member_function(&table, "render");
                ScriptParts::Table(ScriptTable { lua, update, render })
            },
            Err(message) => ScriptParts::Failed(message),
        }
    }

    /// Makes the plugin `name` of what its script gave. A script that did
    /// not evaluate to a table gives `Script`; a table without a `render`
    /// function gives `MissingRender`; any other is a plugin, with or
    /// without an `update` hook.
    pub fn assemble(name: String, parts: ScriptParts) -> (r: Result<Self, PluginError>)
        ensures
            r is Ok <==> parts.usable(),
            match parts {
                ScriptParts::Failed(message) => r matches Err(PluginError::Script(text)) && text@ == message@,
                ScriptParts::Table(table) => match table.render_error() {
                    Some(message) => r matches Err(PluginError::MissingRender(text)) && text@ == message,
                    None => {
                        &&& r matches Ok(component)
                        &&& component.made_of(name@, table)
                        &&& component.spec_name() == name@
                        &&& component.has_update() == table.has_update()
                        &&& !component.failed()
                    },
                },
            },
    {
        match parts {
            ScriptParts::Failed(message) => Err(PluginError::Script(message)),
            ScriptParts::Table(table) => {
                let ScriptTable { lua, update, render } = table;
                match render {
                    Ok(render_fn) => Ok(
                        LuaComponent { name, hooks: Hooks { lua, update_fn: update, render_fn }, failure: None },
                    ),
                    Err(message) => Err(PluginError::MissingRender(message)),
                }
            },
        }
    }

    /// Evaluates `source` and makes the plugin `name` of it. Whether the
    /// script is a plugin is the script's matter: a script that does not
    /// evaluate to a table gives `Script`, a table without a `render`
    /// function gives `MissingRender`.
    pub fn new(name: String, source: &str) -> (r: Result<Self, PluginError>)
        ensures
            r matches Ok(component) ==> component.spec_name() == name@ && !component.failed(),
    {
        LuaComponent::assemble(name, LuaComponent::inspect(source))
    }

    /// A second handle to the same plugin: it has the same name, an
    /// `update` hook exactly where this one has, and remembers the same
    /// failure.
    pub fn duplicate(&self) -> (r: Self)
        ensures
            r.copies(*self),
    {
        let update_fn = match &self.hooks.update_fn {
            Some(function) => Some(function.clone()),
            None => None,
        };
        let failure = match &self.failure {
            Some(message) => Some(message.clone()),
            None => None,
        };
        LuaComponent {
            name: self.name.clone(),
            hooks: Hooks { lua: self.hooks.lua.clone(), update_fn, render_fn: self.hooks.render_fn.clone() },
            failure,
        }
    }

    /// One pass over the plugin: its script's `update` hook is run. An
    /// error of the hook goes no further than the plugin, which remembers
    /// it and shows its error marker until a later pass goes well. Without
    /// an `update` hook nothing happens.
    pub fn update(&mut self)
        ensures
            old(self).steps_to(*final(self)),
    {
        match &self.hooks.update_fn {
            Some(function) => {
                let outcome = call_update(function);
                self.failure = update_outcome(outcome);
            },
            None => {},
        }
    }

    /// Runs the script's `render` hook and sorts out what it gave.
    pub fn ask(&self, colorize: bool) -> (r: RenderReply) {
        match call_render(&self.hooks.render_fn, colorize) {
            RawReply::Text(text) => RenderReply::Text(text),
            RawReply::Table(table) => RenderReply::Pair {
                text: element_text(&table, 1),
                color: element_text(&table, 2),
            },
            RawReply::Other => RenderReply::Unrecognized,
            RawReply::Failed(message) => RenderReply::Failed(message),
        }
    }

    /// The plugin as one run: its error marker while its last pass failed;
    /// else whatever the `render` hook gave, drawn as [`reply_span`] says.
    pub fn render_as_spans_with_colorize(&self, colorize: bool) -> (r: Vec<Span>)
        ensures
            self.draws(r.deep_view()),
    {
        match &self.failure {
            Some(_) => single(Span::raw(concat("\u{274c} ", self.name.as_str()))),
            None => {
                let reply = self.ask(colorize);
                let spans = spans_of_reply(self.name.as_str(), &reply);
                assert(spans.deep_view() == seq![reply_span(self.spec_name(), reply)]);
                spans
            },
        }
    }
}

/// One file of the plugin directory: its name, and its text where the file
/// could be read.
#[derive(Debug, PartialEq, Eq)]
pub struct ScriptFile {
    pub file_name: String,
    pub source: Option<String>,
}

/// The plugins that are loaded, each under its own name.
#[derive(Debug)]
pub struct LuaComponentRegistry {
    components: Vec<LuaComponent>,
}

/// The name of the plugin that a file of the plugin directory holds: the
/// file's name without its ending `.lua`. A file with another ending, or
/// with nothing before the ending, holds no plugin.
pub open spec fn plugin_name(file_name: Seq<char>) -> Option<Seq<char>> {
    if file_name.len() > 4 && crate::text::ends_with(file_name, ".lua"@) {
        Some(file_name.subrange(0, file_name.len() - 4))
    } else {
        None
    }
}

/// Whether the listing offers a plugin called `name`: a readable file whose
/// plugin name it is.
pub open spec fn offers(listing: Seq<ScriptFile>, name: Seq<char>) -> bool {
    exists|i: int| 0 <= i < listing.len() && (#[trigger] listing[i]).source is Some && plugin_name(listing[i].file_name@) == Some(name)
}

/// The names with `name` among them: as they are where it is among them
/// already, else with `name` at their end.
pub open spec fn with_name(names: Seq<Seq<char>>, name: Seq<char>) -> Seq<Seq<char>> {
    if names.contains(name) {
        names
    } else {
        names.push(name)
    }
}

/// The names of the loaded plugins after the files of a listing were gone
/// through in order, starting from `names`. `taken[i]` says whether the
/// script of file `i` turned out to be a plugin. A file that holds no
/// plugin by its name, or could not be read, changes nothing; neither does
/// a script that was not taken. The name of one that was taken is among the
/// names afterwards.
pub open spec fn names_after(names: Seq<Seq<char>>, files: Seq<ScriptFile>, taken: Seq<bool>) -> Seq<Seq<char>>
    recommends
        taken.len() == files.len(),
    decreases files.len(),
{
    if files.len() == 0 || taken.len() != files.len() {
        names
    } else {
        let before = names_after(names, files.drop_last(), taken.drop_last());
        match (plugin_name(files.last().file_name@), files.last().source) {
            (Some(name), Some(_)) => if taken.last() {
                with_name(before, name)
            } else {
                before
            },
            _ => before,
        }
    }
}

/// The name of the plugin that the file `file_name` holds, if it holds one.
pub fn plugin_name_of(file_name: &str) -> (r: Option<String>)
    ensures
        r.deep_view() == plugin_name(file_name@),
{
    proof {
        reveal_strlit(".lua");
    }
    let n = file_name.unicode_len();
    if n > 4 && crate::text::str_ends_with(file_name, ".lua") {
        Some(String::from_str(file_name.substring_char(0, n - 4)))
    } else {
        None
    }
}

/// The names of a row of plugins.
pub open spec fn plugin_names(plugins: Seq<LuaComponent>) -> Seq<Seq<char>> {
    Seq::new(plugins.len(), |i: int| plugins[i].spec_name())
}

/// The plugins with `component` among them: in the place of the one of its
/// name where there is one, else at their end.
pub open spec fn with_plugin(plugins: Seq<LuaComponent>, component: LuaComponent) -> Seq<LuaComponent> {
    let names = plugin_names(plugins);
    if names.contains(component.spec_name()) {
        plugins.update(names.index_of(component.spec_name()), component)
    } else {
        plugins.push(component)
    }
}

/// Whether the file is one that is evaluated: it holds a plugin by its
/// name and could be read.
pub open spec fn is_script(file: ScriptFile) -> bool {
    plugin_name(file.file_name@) is Some && file.source is Some
}

/// Whether `parts` is what evaluating the files of a listing may give: one
/// entry for each file, a result exactly for the files that are evaluated.
pub open spec fn inspected(files: Seq<ScriptFile>, parts: Seq<Option<ScriptParts>>) -> bool {
    &&& parts.len() == files.len()
    &&& forall|i: int| 0 <= i < files.len() ==> ((#[trigger] parts[i]) is Some <==> is_script(files[i]))
}

/// Evaluates the files of a listing that hold a plugin by their name and
/// could be read, each in an interpreter of its own. What comes of each is
/// the script's matter.
pub fn inspect_all(files: &Vec<ScriptFile>) -> (r: Vec<Option<ScriptParts>>)
    ensures
        inspected(files@, r@),
{
    let mut parts: Vec<Option<ScriptParts>> = Vec::new();
    let mut i: usize = 0;
    while i < files.len()
        invariant
            i <= files.len(),
            parts@.len() == i,
            forall|k: int| 0 <= k < i ==> ((#[trigger] parts@[k]) is Some <==> is_script(files@[k])),
        decreases files.len() - i,
    {
        let file = &files[i];
        let part = match (plugin_name_of(file.file_name.as_str()), &file.source) {
            (Some(_), Some(source)) => Some(LuaComponent::inspect(source.as_str())),
            _ => None,
        };
        parts.push(part);
        i = i + 1;
    }
    parts
}

impl LuaComponentRegistry {
    /// The loaded plugins, in the order in which their names came.
    pub closed spec fn plugins(self) -> Seq<LuaComponent> {
        self.components@
    }

    /// The names of the loaded plugins.
    pub open spec fn names(self) -> Seq<Seq<char>> {
        plugin_names(self.plugins())
    }

    /// Whether a plugin called `name` is loaded.
    pub open spec fn has(self, name: Seq<char>) -> bool {
        self.names().contains(name)
    }

    /// The loaded plugin called `name`.
    pub open spec fn plugin_named(self, name: Seq<char>) -> LuaComponent
        recommends
            self.has(name),
    {
        self.plugins()[self.names().index_of(name)]
    }

    /// No two loaded plugins have the same name.
    #[verifier::type_invariant]
    closed spec fn unique(self) -> bool {
        forall|i: int, j: int|
            0 <= i < self.components@.len() && 0 <= j < self.components@.len() && i != j
                ==> self.components@[i].spec_name() != self.components@[j].spec_name()
    }

    /// A registry without plugins.
    pub fn new() -> (r: Self)
        ensures
            r.plugins() == Seq::<LuaComponent>::empty(),
            r.names() == Seq::<Seq<char>>::empty(),
    {
        let r = LuaComponentRegistry { components: Vec::new() };
        assert(r.plugins() =~= Seq::<LuaComponent>::empty());
        assert(r.names() =~= Seq::<Seq<char>>::empty());
        r
    }

    fn position(&self, name: &str) -> (r: Option<usize>)
        ensures
            match r {
                Some(i) => i < self.plugins().len() && self.names()[i as int] == name@ && self.names().index_of(name@)
                    == i,
                None => !self.has(name@),
            },
    {
        proof {
            use_type_invariant(self);
        }
        let mut i: usize = 0;
        while i < self.components.len()
            invariant
                i <= self.components.len(),
                self.unique(),
                forall|k: int| 0 <= k < i ==> self.names()[k] != name@,
            decreases self.components.len() - i,
        {
            if str_eq(self.components[i].name(), name) {
                proof {
                    let names = self.names();
                    assert(names[i as int] == name@);
                    let j = names.index_of(name@);
                    assert(names.contains(name@));
                    assert(0 <= j < names.len() && names[j] == name@);
                    if j != i {
                        assert(self.components@[j].spec_name() == names[j]);
                        assert(self.components@[i as int].spec_name() == names[i as int]);
                    }
                }
                return Some(i);
            }
            i = i + 1;
        }
        None
    }

    /// The plugin called `name`, if one is loaded.
    pub fn get_component(&self, name: &str) -> (r: Option<&LuaComponent>)
        ensures
            r is Some <==> self.has(name@),
            r matches Some(component) ==> *component == self.plugin_named(name@) && component.spec_name() == name@,
    {
        match self.position(name) {
            Some(i) => Some(&self.components[i]),
            None => None,
        }
    }

    /// Takes a plugin in under its own name; one that was loaded under that
    /// name before gives way to it.
    pub fn register(&mut self, component: LuaComponent)
        ensures
            final(self).plugins() == with_plugin(old(self).plugins(), component),
            final(self).names() == with_name(old(self).names(), component.spec_name()),
            final(self).has(component.spec_name()),
            forall|name: Seq<char>| name != component.spec_name() ==> final(self).has(name) == old(self).has(name),
    {
        proof {
            use_type_invariant(&*self);
        }
        let ghost before = self.names();
        let ghost name = component.spec_name();
        let found = self.position(component.name());
        let mut components: Vec<LuaComponent> = Vec::new();
        std::mem::swap(&mut self.components, &mut components);
        let ghost loaded = components@;
        match found {
            Some(i) => {
                components.set(i, component);
            },
            None => {
                assert forall|k: int| 0 <= k < loaded.len() implies loaded[k].spec_name() != name by {
                    assert(before[k] == loaded[k].spec_name());
                }
                components.push(component);
            },
        }
        assert forall|i: int, j: int|
            0 <= i < components@.len() && 0 <= j < components@.len() && i != j implies components@[i].spec_name()
            != components@[j].spec_name() by {
            if i < loaded.len() && j < loaded.len() {
                assert(loaded[i].spec_name() != loaded[j].spec_name());
                assert(before[i] == loaded[i].spec_name());
                assert(before[j] == loaded[j].spec_name());
            }
        }
        std::mem::swap(&mut self.components, &mut components);
        proof {
            match found {
                Some(i) => {
                    assert(before[i as int] == name);
                    assert(self.names() =~= before.update(i as int, name));
                    assert(self.names() =~= before);
                    assert(self.names()[i as int] == name);
                },
                None => {
                    assert(self.names() =~= before.push(name));
                    assert(self.names()[before.len() as int] == name);
                },
            }
            assert forall|other: Seq<char>| other != name implies self.has(other) == before.contains(other) by {
                if self.has(other) {
                    let k = choose|k: int| 0 <= k < self.names().len() && self.names()[k] == other;
                    assert(before[k] == other);
                }
                if before.contains(other) {
                    let k = choose|k: int| 0 <= k < before.len() && before[k] == other;
                    assert(self.names()[k] == other);
                }
            }
        }
    }

    /// Takes in, under `name`, the plugin that a script gave, where it gave
    /// one. A script without a table, or with a table that lacks `render`,
    /// is refused and leaves the registry as it was.
    pub fn accept(&mut self, name: &str, parts: ScriptParts) -> (r: Result<(), PluginError>)
        ensures
            r is Ok <==> parts.usable(),
            match parts {
                ScriptParts::Failed(message) => r matches Err(PluginError::Script(text)) && text@ == message@,
                ScriptParts::Table(table) => match table.render_error() {
                    Some(message) => r matches Err(PluginError::MissingRender(text)) && text@ == message,
                    None => exists|component: LuaComponent| #[trigger]
                        component.made_of(name@, table) && final(self).plugins() == with_plugin(
                            old(self).plugins(),
                            component,
                        ),
                },
            },
            r is Ok ==> final(self).names() == with_name(old(self).names(), name@),
            r is Ok ==> final(self).has(name@),
            r is Err ==> *final(self) == *old(self),
            forall|other: Seq<char>| other != name@ ==> final(self).has(other) == old(self).has(other),
    {
        match LuaComponent::assemble(String::from_str(name), parts) {
            Ok(component) => {
                self.register(component);
                assert(component.made_of(name@, parts->Table_0));
                Ok(())
            },
            Err(error) => Err(error),
        }
    }

    /// Evaluates `source` and, where it is a plugin, takes it in under
    /// `name`. A script that is no plugin leaves the registry as it was.
    pub fn load_component(&mut self, name: &str, source: &str) -> (r: Result<(), PluginError>)
        ensures
            r is Ok ==> final(self).names() == with_name(old(self).names(), name@),
            r is Ok ==> final(self).has(name@),
            r is Err ==> *final(self) == *old(self),
            forall|other: Seq<char>| other != name@ ==> final(self).has(other) == old(self).has(other),
    {
        self.accept(name, LuaComponent::inspect(source))
    }

    /// Takes in the plugins among the scripts of a listing, given what
    /// evaluating each file gave. The files are gone through in order; a
    /// script that is no plugin is passed over and the rest are still
    /// taken in. Where `parts` has not one entry for each file, nothing is
    /// taken in.
    pub fn accept_all(&mut self, files: &Vec<ScriptFile>, parts: Vec<Option<ScriptParts>>)
        ensures
            final(self).names() == names_after(old(self).names(), files@, usable(parts@)),
            forall|name: Seq<char>| old(self).has(name) ==> final(self).has(name),
            forall|name: Seq<char>| final(self).has(name) ==> (old(self).has(name) || offers(files@, name)),
    {
        if parts.len() != files.len() {
            return ;
        }
        let ghost taken = usable(parts@);
        let mut rest = parts;
        let mut i: usize = 0;
        proof {
            assert(files@.take(0) =~= Seq::<ScriptFile>::empty());
            assert(rest@.skip(0) =~= rest@);
        }
        while i < files.len()
            invariant
                i <= files.len(),
                parts@.len() == files@.len(),
                taken == usable(parts@),
                rest@ == parts@.skip(i as int),
                self.names() == names_after(old(self).names(), files@.take(i as int), taken.take(i as int)),
                forall|name: Seq<char>| old(self).has(name) ==> self.has(name),
                forall|name: Seq<char>| self.has(name) ==> old(self).has(name) || offers(files@, name),
            decreases files.len() - i,
        {
            let file = &files[i];
            let ghost before = *self;
            let part = rest.remove(0);
            proof {
                assert(part == parts@[i as int]);
                assert(rest@ =~= parts@.skip(i + 1));
                let longer = files@.take(i + 1);
                assert(longer.drop_last() =~= files@.take(i as int));
                assert(longer.last() == files@[i as int]);
                assert(taken.take(i + 1).drop_last() =~= taken.take(i as int));
                assert(taken.take(i + 1).last() == (part matches Some(script) && script.usable()));
            }
            match (plugin_name_of(file.file_name.as_str()), &file.source, part) {
                (Some(name), Some(_), Some(script)) => {
                    let _ = self.accept(name.as_str(), script);
                    assert(offers(files@, name@));
                    assert forall|other: Seq<char>| self.has(other) implies old(self).has(other) || offers(
                        files@,
                        other,
                    ) by {
                        if other != name@ {
                            assert(before.has(other));
                        }
                    }
                },
                _ => {},
            }
            i = i + 1;
        }
        proof {
            assert(files@.take(i as int) =~= files@);
            assert(taken.take(i as int) =~= taken);
        }
    }

    /// Takes in the plugins of a directory listing; `None` stands for a
    /// directory that does not exist and changes nothing. Every readable
    /// file that holds a plugin by its name is evaluated, and those whose
    /// script is a plugin are taken in, in the order of the listing: a
    /// script that fails, or lacks `render`, does not keep the others out.
    pub fn load_from_directory(&mut self, listing: Option<&Vec<ScriptFile>>)
        ensures
            listing is None ==> *final(self) == *old(self),
            listing matches Some(files) ==> exists|parts: Seq<Option<ScriptParts>>|
                inspected(files@, parts) && final(self).names() == #[trigger] names_after(
                    old(self).names(),
                    files@,
                    usable(parts),
                ),
            forall|name: Seq<char>| old(self).has(name) ==> final(self).has(name),
            forall|name: Seq<char>|
                final(self).has(name) ==> (old(self).has(name) || (listing matches Some(files) && offers(files@, name))),
    {
        match listing {
            Some(files) => {
                let parts = inspect_all(files);
                let ghost given = parts@;
                self.accept_all(files, parts);
                assert(self.names() == names_after(old(self).names(), files@, usable(given)));
            },
            None => {},
        }
    }
}

} // verus!
