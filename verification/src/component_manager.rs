//! The widget as a closed sum of its kinds, how a configuration entry
//! becomes one, and the manager that keeps one live widget for each name.

use vstd::prelude::*;
use vstd::string::*;
use crate::components::battery::{battery_failure, BatteryError};
use crate::components::error_icon::error_glyph;
use crate::components::volume::volume_or_silent;
use crate::components::{
    Battery, Brightness, Cpu, ErrorIcon, Ram, Separator, Space, Temperature, Time, Volume, Weather, Wifi,
    Windows, Workspaces,
};
use crate::config::{ComponentConfig, ComponentConfigView, Config, ConfigView};
use crate::lua_component::{inspected, names_after, usable, LuaComponent, LuaComponentRegistry, ScriptFile, ScriptParts};
use crate::readings::{borrowed, Readings};
use crate::style::{plain, recolored, single, Color, Span, SpanView};
use crate::text::str_eq;

verus! {

/// A live widget: one of the built-in kinds, the error widget, or a plugin.
#[derive(Debug)]
pub enum Component {
    Workspaces(Workspaces),
    Windows(Windows),
    Time(Time),
    Weather(Weather),
    Temperature(Temperature),
    Cpu(Cpu),
    Ram(Ram),
    Wifi(Wifi),
    Brightness(Brightness),
    Volume(Volume),
    Battery(Battery),
    Separator(Separator),
    Space(Space),
    ErrorIcon(ErrorIcon),
    Lua(LuaComponent),
}

/// The built-in kinds of widget.
#[derive(Debug, Clone, Copy, PartialEq, Eq, Structural)]
pub enum Kind {
    Workspaces,
    Windows,
    Time,
    Weather,
    Temperature,
    Cpu,
    Ram,
    Wifi,
    Brightness,
    Volume,
    Battery,
    Separator,
    Space,
}

/// Why a widget could not be made or refreshed.
#[derive(Debug, PartialEq, Eq)]
pub enum ComponentError {
    /// The battery widget has no battery to show.
    Battery(BatteryError),
}

/// The built-in kind that a widget name stands for, if it stands for one.
pub open spec fn builtin(name: Seq<char>) -> Option<Kind> {
    if name == "workspaces"@ {
        Some(Kind::Workspaces)
    } else if name == "windows"@ {
        Some(Kind::Windows)
    } else if name == "time"@ {
        Some(Kind::Time)
    } else if name == "weather"@ {
        Some(Kind::Weather)
    } else if name == "temperature"@ {
        Some(Kind::Temperature)
    } else if name == "cpu"@ {
        Some(Kind::Cpu)
    } else if name == "ram"@ {
        Some(Kind::Ram)
    } else if name == "wifi"@ {
        Some(Kind::Wifi)
    } else if name == "brightness"@ {
        Some(Kind::Brightness)
    } else if name == "volume"@ {
        Some(Kind::Volume)
    } else if name == "battery"@ {
        Some(Kind::Battery)
    } else if name == "separator"@ {
        Some(Kind::Separator)
    } else if name == "space"@ {
        Some(Kind::Space)
    } else {
        None
    }
}

/// The built-in kind that a widget name stands for, if it stands for one.
pub fn builtin_kind(name: &str) -> (r: Option<Kind>)
    ensures
        r == builtin(name@),
{
    if str_eq(name, "workspaces") {
        Some(Kind::Workspaces)
    } else if str_eq(name, "windows") {
        Some(Kind::Windows)
    } else if str_eq(name, "time") {
        Some(Kind::Time)
    } else if str_eq(name, "weather") {
        Some(Kind::Weather)
    } else if str_eq(name, "temperature") {
        Some(Kind::Temperature)
    } else if str_eq(name, "cpu") {
        Some(Kind::Cpu)
    } else if str_eq(name, "ram") {
        Some(Kind::Ram)
    } else if str_eq(name, "wifi") {
        Some(Kind::Wifi)
    } else if str_eq(name, "brightness") {
        Some(Kind::Brightness)
    } else if str_eq(name, "volume") {
        Some(Kind::Volume)
    } else if str_eq(name, "battery") {
        Some(Kind::Battery)
    } else if str_eq(name, "separator") {
        Some(Kind::Separator)
    } else if str_eq(name, "space") {
        Some(Kind::Space)
    } else {
        None
    }
}

/// Whether a plugin called `name` is on offer.
pub open spec fn offered(lua_registry: Option<&LuaComponentRegistry>, name: Seq<char>) -> bool {
    lua_registry matches Some(registry) && registry.has(name)
}

/// Whether the name is known: a built-in kind or a plugin on offer.
pub open spec fn known(lua_registry: Option<&LuaComponentRegistry>, name: Seq<char>) -> bool {
    builtin(name) is Some || offered(lua_registry, name)
}

/// Whether making a widget for this entry fails: it is the battery widget
/// and no battery was found.
pub open spec fn fails(config: ComponentConfigView, readings: &Readings) -> bool {
    builtin(config.name()) == Some(Kind::Battery) && !(readings.battery is Found)
}

/// The value of an option, or `default` where the entry does not set it.
pub open spec fn or_default<T>(option: Option<T>, default: T) -> T {
    match option {
        Some(value) => value,
        None => default,
    }
}

impl Component {
    /// Whether this widget is the one that is made for the entry `config`,
    /// with the plugins of `lua_registry` on offer, from `readings`.
    ///
    /// A built-in name gives the widget of that kind, set up with the
    /// entry's options, each with its default where the entry leaves it
    /// out, and showing what the readings hold for it. Any other name gives
    /// a copy of the plugin of that name where one is on offer, and the
    /// error widget where none is.
    pub open spec fn made_from(
        self,
        config: ComponentConfigView,
        lua_registry: Option<&LuaComponentRegistry>,
        readings: &Readings,
    ) -> bool {
        let sparkline = or_default(config.sparkline(), false);
        let length = or_default(config.sparkline_length(), 10);
        let now = readings.now;
        match builtin(config.name()) {
            Some(Kind::Workspaces) => self matches Component::Workspaces(w) && w.fresh(borrowed(&readings.workspaces)),
            Some(Kind::Windows) => self matches Component::Windows(w) && w.shows(borrowed(&readings.windows)),
            Some(Kind::Time) => self matches Component::Time(t) && t.shows(readings.clock),
            Some(Kind::Weather) => self matches Component::Weather(w) && w.blank(),
            Some(Kind::Temperature) => self matches Component::Temperature(t) && t.fresh(now),
            Some(Kind::Cpu) => self matches Component::Cpu(c) && c.fresh(
                sparkline,
                length,
                or_default(config.sparkline_update_freq(), 3),
                now,
            ),
            Some(Kind::Ram) => self matches Component::Ram(r) && r.fresh(
                sparkline,
                length,
                or_default(config.sparkline_update_freq(), 2),
                now,
            ),
            Some(Kind::Wifi) => self matches Component::Wifi(w) && w.fresh(
                sparkline,
                length,
                or_default(config.sparkline_update_freq(), 2),
                or_default(config.sparkline_logarithmic(), false),
                borrowed(&readings.wifi),
                now,
            ),
            Some(Kind::Brightness) => self matches Component::Brightness(b) && b.shows(borrowed(&readings.brightness)),
            Some(Kind::Volume) => self matches Component::Volume(v) && v.shows(volume_or_silent(readings.volume)),
            Some(Kind::Battery) => self matches Component::Battery(b) && b.fresh(readings.battery, now),
            Some(Kind::Separator) => self matches Component::Separator(s) && s.separator@ == " | "@,
            Some(Kind::Space) => self is Space,
            None => match lua_registry {
                Some(registry) => if registry.has(config.name()) {
                    self matches Component::Lua(plugin) && plugin.copies(registry.plugin_named(config.name()))
                } else {
                    self is ErrorIcon
                },
                None => self is ErrorIcon,
            },
        }
    }

    /// Whether `next` is this widget after one pass with `readings`.
    ///
    /// Each kind takes in the reading that is meant for it, as its own
    /// `update` says. The battery widget stays as it is where it is due and
    /// no battery was found. A plugin has the pass that its script gives
    /// it. Separators, blanks and the error widget do not change.
    pub open spec fn steps_to(self, next: Component, readings: &Readings) -> bool {
        let now = readings.now;
        match self {
            Component::Workspaces(w) => next matches Component::Workspaces(n) && w.steps_to(
                n,
                borrowed(&readings.workspaces),
            ),
            Component::Windows(_) => next matches Component::Windows(n) && n.shows(borrowed(&readings.windows)),
            Component::Time(_) => next matches Component::Time(n) && n.shows(readings.clock),
            Component::Weather(w) => next matches Component::Weather(n) && match readings.weather {
                Some(report) => n.shows(report),
                None => n == w,
            },
            Component::Temperature(t) => next matches Component::Temperature(n) && t.steps_to(
                n,
                readings.temperature,
                now,
            ),
            Component::Cpu(c) => next matches Component::Cpu(n) && c.steps_to(n, readings.cpu, now),
            Component::Ram(r) => next matches Component::Ram(n) && r.steps_to(n, readings.ram, now),
            Component::Wifi(w) => next matches Component::Wifi(n) && w.steps_to(n, borrowed(&readings.wifi), now),
            Component::Brightness(_) => next matches Component::Brightness(n) && n.shows(
                borrowed(&readings.brightness),
            ),
            Component::Volume(_) => next matches Component::Volume(n) && n.shows(volume_or_silent(readings.volume)),
            Component::Battery(b) => next matches Component::Battery(n) && if self.starves(readings) {
                n == b
            } else {
                b.steps_to(n, readings.battery, now)
            },
            Component::Separator(_) => next == self,
            Component::Space(_) => next == self,
            Component::ErrorIcon(_) => next == self,
            Component::Lua(plugin) => next matches Component::Lua(n) && plugin.steps_to(n),
        }
    }

    /// Whether this is the battery widget, due for a reading, and no battery
    /// was found.
    pub open spec fn starves(self, readings: &Readings) -> bool {
        self matches Component::Battery(b) && b.due(readings.now) && !(readings.battery is Found)
    }

    /// The runs of a built-in widget or of the error widget.
    pub open spec fn spans(self, colorize: bool) -> Seq<SpanView>
        recommends
            !(self is Lua),
    {
        match self {
            Component::Workspaces(w) => w.spans(),
            Component::Windows(w) => w.spans(),
            Component::Time(t) => t.spans(colorize),
            Component::Weather(w) => w.spans(colorize),
            Component::Temperature(t) => t.spans(colorize),
            Component::Cpu(c) => c.spans(colorize),
            Component::Ram(r) => r.spans(colorize),
            Component::Wifi(w) => w.spans(colorize),
            Component::Brightness(b) => b.spans(colorize),
            Component::Volume(v) => v.spans(colorize),
            Component::Battery(b) => b.spans(colorize),
            Component::Separator(s) => seq![plain(s.separator@)],
            Component::Space(_) => seq![plain(" "@)],
            Component::ErrorIcon(_) => seq![plain(error_glyph())],
            Component::Lua(_) => Seq::empty(),
        }
    }

    /// Whether `spans` is what the widget may be drawn as: the runs of a
    /// built-in widget; for a plugin, its error marker while its last pass
    /// failed, else the run for whatever its `render` hook gives.
    pub open spec fn draws(self, colorize: bool, spans: Seq<SpanView>) -> bool {
        match self {
            Component::Lua(plugin) => plugin.draws(spans),
            _ => spans == self.spans(colorize),
        }
    }

    /// Whether the widget is to be drawn muted: the volume widget of a
    /// muted sink.
    pub open spec fn muted(self) -> bool {
        self matches Component::Volume(v) && v.is_muted
    }

    /// Whether `spans` is what the widget may be shown as: what it may be
    /// drawn as, every run dark gray where the widget is muted.
    pub open spec fn shows(self, colorize: bool, spans: Seq<SpanView>) -> bool {
        exists|drawn: Seq<SpanView>| #[trigger]
            self.draws(colorize, drawn) && spans == if self.muted() {
                recolored(drawn, Color::DarkGray)
            } else {
                drawn
            }
    }

    /// Makes the widget for a configuration entry.
    ///
    /// This never fails for want of a widget of that name: an unknown name
    /// gives the error widget. The one failure is that of the battery
    /// widget where no battery was found.
    pub fn new(config: &ComponentConfig, lua_registry: Option<&LuaComponentRegistry>, readings: &Readings) -> (r:
        Result<Self, ComponentError>)
        ensures
            r is Err <==> fails(config@, readings),
            match r {
                Ok(component) => component.made_from(config@, lua_registry, readings),
                Err(error) => error matches ComponentError::Battery(e) && battery_failure(readings.battery, e),
            },
    {
        let name = config.name();
        let now = readings.now;
        let sparkline = match config.sparkline() {
            Some(value) => value,
            None => false,
        };
        let length = match config.sparkline_length() {
            Some(value) => value,
            None => 10,
        };
        match builtin_kind(name) {
            Some(Kind::Workspaces) => Ok(Component::Workspaces(Workspaces::new(readings.workspaces.as_ref()))),
            Some(Kind::Windows) => Ok(Component::Windows(Windows::new(readings.windows.as_ref()))),
            Some(Kind::Time) => Ok(Component::Time(Time::at(&readings.clock))),
            Some(Kind::Weather) => Ok(Component::Weather(Weather::new())),
            Some(Kind::Temperature) => Ok(Component::Temperature(Temperature::new(now))),
            Some(Kind::Cpu) => {
                let freq = match config.sparkline_update_freq() {
                    Some(value) => value,
                    None => 3,
                };
                Ok(Component::Cpu(Cpu::with_config(sparkline, length, freq, now)))
            },
            Some(Kind::Ram) => {
                let freq = match config.sparkline_update_freq() {
                    Some(value) => value,
                    None => 2,
                };
                Ok(Component::Ram(Ram::with_config(sparkline, length, freq, now)))
            },
            Some(Kind::Wifi) => {
                let freq = match config.sparkline_update_freq() {
                    Some(value) => value,
                    None => 2,
                };
                let logarithmic = match config.sparkline_logarithmic() {
                    Some(value) => value,
                    None => false,
                };
                Ok(Component::Wifi(Wifi::with_config(sparkline, length, freq, logarithmic, readings.wifi.as_ref(), now)))
            },
            Some(Kind::Brightness) => Ok(Component::Brightness(Brightness::new(readings.brightness.as_ref()))),
            Some(Kind::Volume) => Ok(Component::Volume(Volume::new(readings.volume))),
            Some(Kind::Battery) => match Battery::new(&readings.battery, now) {
                Ok(battery) => Ok(Component::Battery(battery)),
                Err(error) => Err(ComponentError::Battery(error)),
            },
            Some(Kind::Separator) => Ok(Component::Separator(Separator::new())),
            Some(Kind::Space) => Ok(Component::Space(Space::new())),
            None => {
                match lua_registry {
                    Some(registry) => match registry.get_component(name) {
                        Some(plugin) => Ok(Component::Lua(plugin.duplicate())),
                        None => Ok(Component::ErrorIcon(ErrorIcon::new())),
                    },
                    None => Ok(Component::ErrorIcon(ErrorIcon::new())),
                }
            },
        }
    }

    /// One pass over the widget: it takes in the reading that is meant for
    /// it. The pass fails where the battery widget is due and no battery
    /// was found, and nowhere else: a plugin whose `update` hook fails
    /// keeps the failure to itself and shows its error marker.
    pub fn update(&mut self, readings: &Readings) -> (r: Result<(), ComponentError>)
        ensures
            old(self).steps_to(*final(self), readings),
            match r {
                Ok(_) => !old(self).starves(readings),
                Err(ComponentError::Battery(e)) => old(self).starves(readings) && battery_failure(readings.battery, e),
            },
    {
        let now = readings.now;
        match self {
            Component::Workspaces(component) => {
                component.update(readings.workspaces.as_ref());
                Ok(())
            },
            Component::Windows(component) => {
                component.update(readings.windows.as_ref());
                Ok(())
            },
            Component::Time(component) => {
                component.set(&readings.clock);
                Ok(())
            },
            Component::Weather(component) => {
                component.update(readings.weather.as_ref());
                Ok(())
            },
            Component::Temperature(component) => {
                component.update(&readings.temperature, now);
                Ok(())
            },
            Component::Cpu(component) => {
                component.update(readings.cpu, now);
                Ok(())
            },
            Component::Ram(component) => {
                component.update(readings.ram, now);
                Ok(())
            },
            Component::Wifi(component) => {
                component.update(readings.wifi.as_ref(), now);
                Ok(())
            },
            Component::Brightness(component) => {
                component.update(readings.brightness.as_ref());
                Ok(())
            },
            Component::Volume(component) => {
                component.update(readings.volume);
                Ok(())
            },
            Component::Battery(component) => match component.update(&readings.battery, now) {
                Ok(()) => Ok(()),
                Err(error) => Err(ComponentError::Battery(error)),
            },
            Component::Separator(_) => Ok(()),
            Component::Space(_) => Ok(()),
            Component::ErrorIcon(_) => Ok(()),
            Component::Lua(component) => {
                component.update();
                Ok(())
            },
        }
    }

    /// The widget as runs of styled text.
    pub fn render_as_spans_with_colorize(&self, colorize: bool) -> (r: Vec<Span>)
        ensures
            self.draws(colorize, r.deep_view()),
    {
        match self {
            Component::Workspaces(component) => component.render_as_spans(colorize),
            Component::Windows(component) => component.render_as_spans(colorize),
            Component::Time(component) => component.render_as_spans(colorize),
            Component::Weather(component) => component.render_as_spans(colorize),
            Component::Temperature(component) => component.render_as_spans(colorize),
            Component::Cpu(component) => component.render_as_spans(colorize),
            Component::Ram(component) => component.render_as_spans(colorize),
            Component::Wifi(component) => component.render_as_spans(colorize),
            Component::Brightness(component) => component.render_as_spans(colorize),
            Component::Volume(component) => component.render_as_spans(colorize),
            Component::Battery(component) => component.render_as_spans(colorize),
            Component::Separator(component) => single(Span::raw(component.render())),
            Component::Space(component) => single(Span::raw(component.render())),
            Component::ErrorIcon(component) => component.render_as_spans(),
            Component::Lua(component) => component.render_as_spans_with_colorize(colorize),
        }
    }

    /// Whether the widget is to be drawn muted.
    pub fn is_muted(&self) -> (r: bool)
        ensures
            r == self.muted(),
    {
        match self {
            Component::Volume(component) => component.is_muted,
            _ => false,
        }
    }

    /// The widget as runs of styled text, every run dark gray where the
    /// widget is muted.
    pub fn render_as_spans_with_muting_and_colorize(&self, colorize: bool) -> (r: Vec<Span>)
        ensures
            self.shows(colorize, r.deep_view()),
    {
        let spans = self.render_as_spans_with_colorize(colorize);
        let ghost drawn = spans.deep_view();
        if self.is_muted() {
            let mut muted: Vec<Span> = Vec::new();
            let mut i: usize = 0;
            while i < spans.len()
                invariant
                    i <= spans.len(),
                    muted.len() == i,
                    forall|k: int| 0 <= k < i ==> (#[trigger] muted[k])@ == recolored(spans.deep_view(), Color::DarkGray)[k],
                decreases spans.len() - i,
            {
                muted.push(Span::raw(spans[i].content.clone()).fg(Color::DarkGray).with_bg(spans[i].bg));
                i = i + 1;
            }
            assert(muted.deep_view() =~= recolored(drawn, Color::DarkGray));
            assert(self.draws(colorize, drawn));
            muted
        } else {
            assert(self.draws(colorize, drawn));
            spans
        }
    }
}


/// The names of the entries, each once, in the order of their first
/// occurrence.
pub open spec fn distinct_names(entries: Seq<ComponentConfigView>) -> Seq<Seq<char>>
    decreases entries.len(),
{
    if entries.len() == 0 {
        Seq::empty()
    } else {
        let before = distinct_names(entries.drop_last());
        if before.contains(entries.last().name()) {
            before
        } else {
            before.push(entries.last().name())
        }
    }
}

/// The first of the entries that is called `name`.
pub open spec fn first_entry(entries: Seq<ComponentConfigView>, name: Seq<char>) -> Option<ComponentConfigView>
    decreases entries.len(),
{
    if entries.len() == 0 {
        None
    } else {
        match first_entry(entries.drop_last(), name) {
            Some(entry) => Some(entry),
            None => if entries.last().name() == name {
                Some(entries.last())
            } else {
                None
            },
        }
    }
}

/// Whether making the widgets for these entries fails: one of them asks for
/// the battery widget and no battery was found.
pub open spec fn any_fails(entries: Seq<ComponentConfigView>, readings: &Readings) -> bool {
    exists|k: int| 0 <= k < entries.len() && fails(#[trigger] entries[k], readings)
}

/// A name is among the distinct names exactly if an entry has it, and then
/// it has a first entry.
pub proof fn lemma_distinct_names(entries: Seq<ComponentConfigView>, name: Seq<char>)
    ensures
        distinct_names(entries).contains(name) <==> first_entry(entries, name) is Some,
        first_entry(entries, name) is Some <==> exists|k: int| 0 <= k < entries.len() && (#[trigger] entries[k]).name() == name,
        first_entry(entries, name) matches Some(entry) ==> entry.name() == name,
    decreases entries.len(),
{
    if entries.len() > 0 {
        let prefix = entries.drop_last();
        lemma_distinct_names(prefix, name);
        let before = distinct_names(prefix);
        if before.contains(name) {
            let k = choose|k: int| 0 <= k < prefix.len() && (#[trigger] prefix[k]).name() == name;
            assert(entries[k].name() == name);
            if !before.contains(entries.last().name()) {
                let j = choose|j: int| 0 <= j < before.len() && before[j] == name;
                assert(before.push(entries.last().name())[j] == name);
            }
        } else {
            if entries.last().name() == name {
                assert(distinct_names(entries) == before.push(name));
                assert(distinct_names(entries)[before.len() as int] == name);
                assert(entries[entries.len() - 1].name() == name);
            } else {
                if distinct_names(entries).contains(name) {
                    let j = choose|j: int| 0 <= j < distinct_names(entries).len() && distinct_names(entries)[j] == name;
                    if j < before.len() {
                        assert(before[j] == name);
                    }
                }
                if exists|k: int| 0 <= k < entries.len() && (#[trigger] entries[k]).name() == name {
                    let k = choose|k: int| 0 <= k < entries.len() && (#[trigger] entries[k]).name() == name;
                    assert(prefix[k].name() == name);
                }
            }
        }
    }
}

/// No name occurs twice among the distinct names.
pub proof fn lemma_distinct_names_differ(entries: Seq<ComponentConfigView>)
    ensures
        forall|i: int, j: int|
            0 <= i < j < distinct_names(entries).len() ==> distinct_names(entries)[i] != distinct_names(entries)[j],
    decreases entries.len(),
{
    if entries.len() > 0 {
        lemma_distinct_names_differ(entries.drop_last());
        let before = distinct_names(entries.drop_last());
        let names = distinct_names(entries);
        assert forall|i: int, j: int| 0 <= i < j < names.len() implies names[i] != names[j] by {
            if j == before.len() {
                assert(before[i] == names[i]);
                assert(!before.contains(entries.last().name()));
            } else {
                assert(before[i] == names[i] && before[j] == names[j]);
            }
        }
    }
}

impl Component {
    /// Whether this widget is of the kind, and has the settings, that the
    /// entry `config` asks for, with the plugins of `lua_registry` on
    /// offer. A pass over the widget never changes this.
    pub open spec fn suits(self, config: ComponentConfigView, lua_registry: Option<&LuaComponentRegistry>) -> bool {
        let sparkline = or_default(config.sparkline(), false);
        let length = or_default(config.sparkline_length(), 10);
        match builtin(config.name()) {
            Some(Kind::Workspaces) => self is Workspaces,
            Some(Kind::Windows) => self is Windows,
            Some(Kind::Time) => self is Time,
            Some(Kind::Weather) => self is Weather,
            Some(Kind::Temperature) => self matches Component::Temperature(t) && t.update_interval == 5,
            Some(Kind::Cpu) => {
                &&& self matches Component::Cpu(c)
                &&& c.sparkline.enabled == sparkline
                &&& c.sparkline.length == length
                &&& !c.sparkline.logarithmic
                &&& c.update_interval == or_default(config.sparkline_update_freq(), 3)
            },
            Some(Kind::Ram) => {
                &&& self matches Component::Ram(r)
                &&& r.sparkline.enabled == sparkline
                &&& r.sparkline.length == length
                &&& !r.sparkline.logarithmic
                &&& r.update_interval == or_default(config.sparkline_update_freq(), 2)
            },
            Some(Kind::Wifi) => {
                &&& self matches Component::Wifi(w)
                &&& w.sparkline.enabled == sparkline
                &&& w.sparkline.length == length
                &&& w.sparkline.logarithmic == or_default(config.sparkline_logarithmic(), false)
                &&& w.update_interval == or_default(config.sparkline_update_freq(), 2)
            },
            Some(Kind::Brightness) => self is Brightness,
            Some(Kind::Volume) => self is Volume,
            Some(Kind::Battery) => self matches Component::Battery(b) && b.update_interval == 3,
            Some(Kind::Separator) => self is Separator,
            Some(Kind::Space) => self is Space,
            None => if offered(lua_registry, config.name()) {
                self matches Component::Lua(plugin) && plugin.spec_name() == config.name()
            } else {
                self is ErrorIcon
            },
        }
    }
}

/// A widget that was made for an entry suits the entry.
pub proof fn lemma_made_suits(
    component: Component,
    config: ComponentConfigView,
    lua_registry: Option<&LuaComponentRegistry>,
    readings: &Readings,
)
    requires
        component.made_from(config, lua_registry, readings),
    ensures
        component.suits(config, lua_registry),
{
}

/// A pass over a widget that suits an entry leaves a widget that suits it.
pub proof fn lemma_step_keeps_suit(
    component: Component,
    next: Component,
    config: ComponentConfigView,
    lua_registry: Option<&LuaComponentRegistry>,
    readings: &Readings,
)
    requires
        component.suits(config, lua_registry),
        component.steps_to(next, readings),
    ensures
        next.suits(config, lua_registry),
{
}

/// A widget for a name that is no built-in kind and no plugin on offer is
/// the error widget, whatever else the entry holds and whatever was read.
pub proof fn lemma_unknown_name_gives_error_widget(
    component: Component,
    config: ComponentConfigView,
    lua_registry: Option<&LuaComponentRegistry>,
    readings: &Readings,
)
    requires
        !known(lua_registry, config.name()),
        component.made_from(config, lua_registry, readings),
    ensures
        component is ErrorIcon,
        !fails(config, readings),
{
}


/// The live widgets, each under its name, with the configuration and the
/// plugins that they were made from.
#[derive(Debug)]
pub struct ComponentManager {
    components: Vec<(String, Component)>,
    config: Config,
    lua_registry: LuaComponentRegistry,
}

/// Why the widgets of a configuration could not be had.
#[derive(Debug, PartialEq, Eq)]
pub enum ManagerError {
    /// The configuration could not be had.
    Config(crate::config::ConfigError),
    /// A widget of the layout could not be made.
    Component(ComponentError),
}

/// Whether `error` is the error that building from `source` and `readings`
/// is refused with: that of the configuration where none can be had, else
/// that of the battery that was not found.
pub open spec fn refusal(source: crate::config::ConfigSource, readings: &Readings, error: ManagerError) -> bool {
    match error {
        ManagerError::Config(e) => crate::document::available(source) is None && crate::document::rejection(
            source,
            e,
        ),
        ManagerError::Component(ComponentError::Battery(e)) => crate::document::available(source) is Some
            && battery_failure(readings.battery, e),
    }
}

/// Whether the plugins of `registry` are what loading a directory listing
/// into an empty registry gives: none where there is no directory; else,
/// for what evaluating the listing's scripts gave, the names of those that
/// are plugins, in the order of the listing.
pub open spec fn loaded_from(registry: LuaComponentRegistry, listing: Option<&Vec<ScriptFile>>) -> bool {
    match listing {
        None => registry.names() == Seq::<Seq<char>>::empty(),
        Some(files) => exists|parts: Seq<Option<ScriptParts>>|
            inspected(files@, parts) && registry.names() == #[trigger] names_after(
                Seq::<Seq<char>>::empty(),
                files@,
                usable(parts),
            ),
    }
}

/// The failed plugins among these widgets, each with its name and the
/// error of its last pass, in the order of the widgets.
pub open spec fn failed_plugins(widgets: Seq<Component>) -> Seq<(Seq<char>, Seq<char>)>
    decreases widgets.len(),
{
    if widgets.len() == 0 {
        Seq::empty()
    } else {
        match widgets.last() {
            Component::Lua(plugin) => match plugin.failure() {
                Some(message) => failed_plugins(widgets.drop_last()).push((plugin.spec_name(), message)),
                None => failed_plugins(widgets.drop_last()),
            },
            _ => failed_plugins(widgets.drop_last()),
        }
    }
}

/// The layout without any widget, the colours switched off.
pub open spec fn empty_layout() -> ConfigView {
    ConfigView {
        bars: crate::config::BarsConfigView { left: Seq::empty(), middle: Seq::empty(), right: Seq::empty() },
        colorize: false,
    }
}

/// The names that a list of live widgets is kept under.
pub open spec fn names_of(live: Seq<(String, Component)>) -> Seq<Seq<char>> {
    Seq::new(live.len(), |i: int| live[i].0@)
}

/// The widgets of a list of live widgets.
pub open spec fn widgets_of(live: Seq<(String, Component)>) -> Seq<Component> {
    Seq::new(live.len(), |i: int| live[i].1)
}

/// Whether `names` and `widgets` are what is built for `entries`: one
/// widget for each distinct name, in the order of first occurrence, each
/// made for the first entry of its name.
pub open spec fn built(
    names: Seq<Seq<char>>,
    widgets: Seq<Component>,
    entries: Seq<ComponentConfigView>,
    lua_registry: &LuaComponentRegistry,
    readings: &Readings,
) -> bool {
    &&& names == distinct_names(entries)
    &&& widgets.len() == names.len()
    &&& forall|i: int|
        0 <= i < widgets.len() ==> (#[trigger] widgets[i]).made_from(
            first_entry(entries, names[i]).unwrap(),
            Some(lua_registry),
            readings,
        )
}

/// Whether `names` and `widgets` are kept in step with `entries`: one
/// widget for each distinct name, in the order of first occurrence, each
/// suiting the first entry of its name.
pub open spec fn kept(
    names: Seq<Seq<char>>,
    widgets: Seq<Component>,
    entries: Seq<ComponentConfigView>,
    lua_registry: &LuaComponentRegistry,
) -> bool {
    &&& names == distinct_names(entries)
    &&& widgets.len() == names.len()
    &&& forall|i: int|
        0 <= i < widgets.len() ==> (#[trigger] widgets[i]).suits(
            first_entry(entries, names[i]).unwrap(),
            Some(lua_registry),
        )
}

fn position_in(live: &Vec<(String, Component)>, name: &str) -> (r: Option<usize>)
    ensures
        match r {
            Some(i) => i < live.len() && live[i as int].0@ == name@,
            None => !names_of(live@).contains(name@),
        },
{
    let mut i: usize = 0;
    while i < live.len()
        invariant
            i <= live.len(),
            forall|k: int| 0 <= k < i ==> live[k].0@ != name@,
        decreases live.len() - i,
    {
        if str_eq(live[i].0.as_str(), name) {
            return Some(i);
        }
        i = i + 1;
    }
    None
}

/// Makes the widgets for the entries of one region that have no widget
/// yet. `done` holds the entries that were gone through before.
fn extend(
    live: &mut Vec<(String, Component)>,
    region: &Vec<ComponentConfig>,
    lua_registry: &LuaComponentRegistry,
    readings: &Readings,
    Ghost(done): Ghost<Seq<ComponentConfigView>>,
) -> (r: Result<(), ComponentError>)
    requires
        built(names_of(old(live)@), widgets_of(old(live)@), done, lua_registry, readings),
        !any_fails(done, readings),
    ensures
        match r {
            Ok(_) => built(
                names_of(final(live)@),
                widgets_of(final(live)@),
                done + region.deep_view(),
                lua_registry,
                readings,
            ) && !any_fails(done + region.deep_view(), readings),
            Err(ComponentError::Battery(e)) => any_fails(done + region.deep_view(), readings) && battery_failure(
                readings.battery,
                e,
            ),
        },
{
    let mut i: usize = 0;
    assert(done + region.deep_view().take(0) =~= done);
    while i < region.len()
        invariant
            i <= region.len(),
            built(
                names_of(live@),
                widgets_of(live@),
                done + region.deep_view().take(i as int),
                lua_registry,
                readings,
            ),
            !any_fails(done + region.deep_view().take(i as int), readings),
        decreases region.len() - i,
    {
        let entry = &region[i];
        let ghost seen = done + region.deep_view().take(i as int);
        let ghost next = done + region.deep_view().take(i + 1);
        let ghost names = names_of(live@);
        let ghost widgets = widgets_of(live@);
        proof {
            assert(next =~= seen.push(entry@));
            assert(next.drop_last() =~= seen);
            assert(next.last() == entry@);
            assert forall|k: int| 0 <= k < names.len() implies first_entry(next, names[k]) == first_entry(
                seen,
                names[k],
            ) by {
                lemma_distinct_names(seen, names[k]);
            }
        }
        match position_in(live, entry.name()) {
            Some(at) => {
                proof {
                    assert(names[at as int] == entry@.name());
                    lemma_distinct_names(seen, entry@.name());
                    assert(widgets[at as int].made_from(
                        first_entry(seen, names[at as int]).unwrap(),
                        Some(lua_registry),
                        readings,
                    ));
                    assert(!fails(entry@, readings));
                    assert forall|k: int| 0 <= k < next.len() implies !fails(#[trigger] next[k], readings) by {
                        if k < seen.len() {
                            assert(seen[k] == next[k]);
                        }
                    }
                }
            },
            None => {
                match Component::new(entry, Some(lua_registry), readings) {
                    Ok(component) => {
                        live.push((String::from_str(entry.name()), component));
                        proof {
                            lemma_distinct_names(seen, entry@.name());
                            assert(names_of(live@) =~= names.push(entry@.name()));
                            assert(widgets_of(live@) =~= widgets.push(component));
                            assert forall|k: int| 0 <= k < widgets_of(live@).len() implies (#[trigger] widgets_of(
                                live@,
                            )[k]).made_from(
                                first_entry(next, names_of(live@)[k]).unwrap(),
                                Some(lua_registry),
                                readings,
                            ) by {
                                if k < widgets.len() {
                                    assert(widgets_of(live@)[k] == widgets[k]);
                                    assert(names_of(live@)[k] == names[k]);
                                }
                            }
                            assert forall|k: int| 0 <= k < next.len() implies !fails(#[trigger] next[k], readings) by {
                                if k < seen.len() {
                                    assert(seen[k] == next[k]);
                                }
                            }
                        }
                    },
                    Err(error) => {
                        proof {
                            let whole = done + region.deep_view();
                            assert(whole[done.len() + i] == entry@);
                            assert(fails(whole[done.len() + i], readings));
                        }
                        return Err(error);
                    },
                }
            },
        }
        i = i + 1;
    }
    assert(done + region.deep_view().take(i as int) =~= done + region.deep_view());
    Ok(())
}

/// Makes the widgets for a layout: left region first, then middle, then
/// right.
fn build_live(config: &Config, lua_registry: &LuaComponentRegistry, readings: &Readings) -> (r: Result<
    Vec<(String, Component)>,
    ComponentError,
>)
    ensures
        r is Err <==> any_fails(config@.entries(), readings),
        match r {
            Ok(live) => built(names_of(live@), widgets_of(live@), config@.entries(), lua_registry, readings),
            Err(ComponentError::Battery(e)) => battery_failure(readings.battery, e),
        },
{
    let mut live: Vec<(String, Component)> = Vec::new();
    let ghost none = Seq::<ComponentConfigView>::empty();
    let ghost left = config@.bars.left;
    let ghost middle = config@.bars.middle;
    let ghost right = config@.bars.right;
    let ghost entries = config@.entries();
    proof {
        assert(names_of(live@) =~= distinct_names(none));
        assert(none + left =~= left);
    }
    match extend(&mut live, &config.bars.left, lua_registry, readings, Ghost(none)) {
        Ok(()) => {},
        Err(error) => {
            proof {
                let k = choose|k: int| 0 <= k < left.len() && fails(#[trigger] left[k], readings);
                assert(entries[k] == left[k]);
            }
            return Err(error);
        },
    }
    match extend(&mut live, &config.bars.middle, lua_registry, readings, Ghost(left)) {
        Ok(()) => {},
        Err(error) => {
            proof {
                let k = choose|k: int| 0 <= k < (left + middle).len() && fails(#[trigger] (left + middle)[k], readings);
                assert(entries[k] == (left + middle)[k]);
            }
            return Err(error);
        },
    }
    match extend(&mut live, &config.bars.right, lua_registry, readings, Ghost(left + middle)) {
        Ok(()) => {},
        Err(error) => {
            return Err(error);
        },
    }
    Ok(live)
}


impl ComponentManager {
    /// The manager is in step with its configuration, at all times.
    #[verifier::type_invariant]
    closed spec fn in_step(self) -> bool {
        kept(
            names_of(self.components@),
            widgets_of(self.components@),
            self.config@.entries(),
            &self.lua_registry,
        )
    }

    /// A manager of nothing: no widgets, an empty layout with the colours
    /// switched off, no plugins.
    fn vacant() -> (r: Self)
        ensures
            r.names() == Seq::<Seq<char>>::empty(),
            r.widgets() == Seq::<Component>::empty(),
            r.layout() == empty_layout(),
            r.registry().names() == Seq::<Seq<char>>::empty(),
    {
        let config = Config {
            bars: crate::config::BarsConfig { left: Vec::new(), middle: Vec::new(), right: Vec::new() },
            colorize: false,
        };
        let components: Vec<(String, Component)> = Vec::new();
        proof {
            assert(config@.entries() =~= Seq::<ComponentConfigView>::empty());
            assert(names_of(components@) =~= distinct_names(config@.entries()));
        }
        let manager = ComponentManager { components, config, lua_registry: LuaComponentRegistry::new() };
        proof {
            assert(manager.names() =~= Seq::<Seq<char>>::empty());
            assert(manager.widgets() =~= Seq::<Component>::empty());
            assert(manager.layout().bars.left =~= Seq::<ComponentConfigView>::empty());
            assert(manager.layout().bars.middle =~= Seq::<ComponentConfigView>::empty());
            assert(manager.layout().bars.right =~= Seq::<ComponentConfigView>::empty());
        }
        manager
    }

    /// The configuration that the widgets were made from.
    pub closed spec fn layout(self) -> ConfigView {
        self.config@
    }

    /// The plugins that were on offer when the widgets were made.
    pub closed spec fn registry(self) -> LuaComponentRegistry {
        self.lua_registry
    }

    /// The names of the live widgets, in the order of their making.
    pub closed spec fn names(self) -> Seq<Seq<char>> {
        names_of(self.components@)
    }

    /// The live widgets, in the order of their making.
    pub closed spec fn widgets(self) -> Seq<Component> {
        widgets_of(self.components@)
    }

    /// The manager is in step with its configuration: it holds one widget
    /// for each distinct name of the layout, and each widget suits the
    /// first entry of its name. Every manager that the library hands out
    /// is, and stays so.
    pub open spec fn wf(self) -> bool {
        kept(self.names(), self.widgets(), self.layout().entries(), &self.registry())
    }

    /// Whether the manager is the one that is built for `config` with the
    /// plugins of `lua_registry` from `readings`.
    pub open spec fn fresh(self, config: ConfigView, lua_registry: LuaComponentRegistry, readings: &Readings) -> bool {
        &&& self.layout() == config
        &&& self.registry() == lua_registry
        &&& built(self.names(), self.widgets(), config.entries(), &lua_registry, readings)
    }

    /// The live widget called `name`.
    pub open spec fn widget_named(self, name: Seq<char>) -> Component
        recommends
            self.names().contains(name),
    {
        self.widgets()[self.names().index_of(name)]
    }

    /// The widgets of the region called `bar`, in display order; none for
    /// any name but `left`, `middle` and `right`.
    pub open spec fn region_widgets(self, bar: Seq<char>) -> Seq<Component> {
        match self.layout().region(bar) {
            Some(entries) => Seq::new(entries.len(), |i: int| self.widget_named(entries[i].name())),
            None => Seq::empty(),
        }
    }

    /// Builds the widgets of a layout: left region first, then middle, then
    /// right. A name that comes again, in the same region or a later one,
    /// gets no second widget: the first entry of a name decides how its
    /// widget is made. Building fails only where the layout asks for the
    /// battery widget and no battery was found.
    pub fn build(config: Config, lua_registry: LuaComponentRegistry, readings: &Readings) -> (r: Result<
        Self,
        ComponentError,
    >)
        ensures
            r is Err <==> any_fails(config@.entries(), readings),
            match r {
                Ok(manager) => manager.fresh(config@, lua_registry, readings) && manager.wf(),
                Err(ComponentError::Battery(e)) => battery_failure(readings.battery, e),
            },
    {
        match build_live(&config, &lua_registry, readings) {
            Ok(components) => {
                proof {
                    lemma_built_is_kept(
                        names_of(components@),
                        widgets_of(components@),
                        config@.entries(),
                        &lua_registry,
                        readings,
                    );
                }
                Ok(ComponentManager { components, config, lua_registry })
            },
            Err(error) => Err(error),
        }
    }

    /// Starts from what is found: the configuration at its path, the plugin
    /// directory's listing, the first readings. Where there is no
    /// configuration file the default layout is used, and the second part
    /// of the result says that the file has to be written. Starting fails
    /// where the configuration cannot be had or a widget cannot be made.
    pub fn new(
        source: &crate::config::ConfigSource,
        listing: Option<&Vec<crate::lua_component::ScriptFile>>,
        readings: &Readings,
    ) -> (r: Result<(Self, bool), ManagerError>)
        ensures
            r is Err <==> (match crate::document::available(*source) {
                Some(config) => any_fails(config.entries(), readings),
                None => true,
            }),
            r matches Err(error) ==> refusal(*source, readings, error),
            r matches Ok((manager, create)) ==> {
                &&& manager.wf()
                &&& manager.fresh(crate::document::available(*source).unwrap(), manager.registry(), readings)
                &&& create == (source is Missing)
                &&& loaded_from(manager.registry(), listing)
                &&& forall|name: Seq<char>|
                    manager.registry().has(name) ==> (listing matches Some(files) && crate::lua_component::offers(
                        files@,
                        name,
                    ))
            },
    {
        let (config, create) = match Config::load(source) {
            Ok(loaded) => loaded,
            Err(error) => {
                return Err(ManagerError::Config(error));
            },
        };
        let mut lua_registry = LuaComponentRegistry::new();
        lua_registry.load_from_directory(listing);
        match ComponentManager::build(config, lua_registry, readings) {
            Ok(manager) => Ok((manager, create)),
            Err(error) => Err(ManagerError::Component(error)),
        }
    }

    /// Whether the colours are switched on.
    pub fn get_colorize(&self) -> (r: bool)
        ensures
            r == self.layout().colorize,
    {
        self.config.colorize
    }

    /// The live widget called `name`, if there is one. There is one exactly
    /// for the names of the layout, and it suits the first entry of its name.
    pub fn get(&self, name: &str) -> (r: Option<&Component>)
        ensures
            self.wf(),
            r is Some <==> self.names().contains(name@),
            r is Some <==> first_entry(self.layout().entries(), name@) is Some,
            r matches Some(component) ==> *component == self.widget_named(name@) && component.suits(
                first_entry(self.layout().entries(), name@).unwrap(),
                Some(&self.registry()),
            ),
    {
        proof {
            use_type_invariant(self);
            lemma_distinct_names(self.layout().entries(), name@);
        }
        match position_in(&self.components, name) {
            Some(i) => {
                proof {
                    self.lemma_index(i as int);
                }
                Some(&self.components[i].1)
            },
            None => None,
        }
    }

    /// The position of a name among the live names is its own.
    proof fn lemma_index(self, i: int)
        requires
            self.wf(),
            0 <= i < self.names().len(),
        ensures
            self.names().index_of(self.names()[i]) == i,
            self.widget_named(self.names()[i]) == self.widgets()[i],
    {
        lemma_distinct_names_differ(self.layout().entries());
        let j = self.names().index_of(self.names()[i]);
        assert(self.names().contains(self.names()[i]));
        if j < i {
            assert(self.names()[j] != self.names()[i]);
        } else if i < j {
            assert(self.names()[i] != self.names()[j]);
        }
    }

    /// The widgets of the region called `bar`, in display order: for each
    /// entry of the region the one live widget of its name. A name that
    /// comes twice gives the same widget twice. Any name but `left`,
    /// `middle` and `right` gives no widgets.
    pub fn get_bar_components(&self, bar: &str) -> (r: Vec<&Component>)
        ensures
            self.wf(),
            r@.len() == self.region_widgets(bar@).len(),
            forall|i: int| 0 <= i < r@.len() ==> *(#[trigger] r@[i]) == self.region_widgets(bar@)[i],
    {
        proof {
            use_type_invariant(self);
        }
        let mut found: Vec<&Component> = Vec::new();
        match self.config.get_components_for_bar(bar) {
            Some(entries) => {
                let ghost region = self.layout().region(bar@).unwrap();
                assert(region == entries.deep_view());
                let mut i: usize = 0;
                while i < entries.len()
                    invariant
                        i <= entries.len(),
                        self.wf(),
                        region == entries.deep_view(),
                        self.layout().region(bar@) == Some(region),
                        found@.len() == i,
                        forall|k: int| 0 <= k < i ==> *(#[trigger] found@[k]) == self.widget_named(region[k].name()),
                    decreases entries.len() - i,
                {
                    proof {
                        self.lemma_region_is_live(bar@, i as int);
                    }
                    match self.get(entries[i].name()) {
                        Some(component) => {
                            found.push(component);
                        },
                        None => {},
                    }
                    i = i + 1;
                }
            },
            None => {},
        }
        found
    }

    /// Every entry of a region has a live widget.
    proof fn lemma_region_is_live(self, bar: Seq<char>, i: int)
        requires
            self.wf(),
            self.layout().region(bar) matches Some(entries) && 0 <= i < entries.len(),
        ensures
            self.names().contains(self.layout().region(bar).unwrap()[i].name()),
    {
        let entries = self.layout().entries();
        let region = self.layout().region(bar).unwrap();
        let left = self.layout().bars.left;
        let middle = self.layout().bars.middle;
        let k = if bar == "left"@ {
            i
        } else if bar == "middle"@ {
            left.len() + i
        } else {
            left.len() + middle.len() + i
        };
        assert(entries[k] == region[i]);
        lemma_distinct_names(entries, region[i].name());
    }

    /// One pass over all live widgets: each takes in the reading that is
    /// meant for it. A widget that fails does not keep the others from
    /// their pass. The pass fails exactly where the battery widget is due
    /// and no battery was found; a plugin that fails shows its error
    /// marker, and [`ComponentManager::plugin_failures`] tells of it.
    pub fn update(&mut self, readings: &Readings) -> (r: Result<(), ComponentError>)
        ensures
            old(self).wf(),
            final(self).wf(),
            final(self).layout() == old(self).layout(),
            final(self).registry() == old(self).registry(),
            final(self).names() == old(self).names(),
            forall|i: int|
                0 <= i < old(self).widgets().len() ==> (#[trigger] old(self).widgets()[i]).steps_to(
                    final(self).widgets()[i],
                    readings,
                ),
            r is Err <==> exists|i: int|
                0 <= i < old(self).widgets().len() && (#[trigger] old(self).widgets()[i]).starves(readings),
            r matches Err(ComponentError::Battery(e)) ==> battery_failure(readings.battery, e),
    {
        proof {
            use_type_invariant(&*self);
        }
        let mut taken = ComponentManager::vacant();
        std::mem::swap(self, &mut taken);
        let ComponentManager { mut components, config, lua_registry } = taken;
        let ghost before = components@;
        let ghost entries = config@.entries();
        let mut first: Option<ComponentError> = None;
        let mut i: usize = 0;
        while i < components.len()
            invariant
                i <= components.len(),
                components@.len() == before.len(),
                names_of(components@) == names_of(before),
                forall|k: int| 0 <= k < i ==> (#[trigger] widgets_of(before)[k]).steps_to(
                    widgets_of(components@)[k],
                    readings,
                ),
                forall|k: int| i <= k < components@.len() ==> components@[k] == before[k],
                first is None ==> forall|k: int| 0 <= k < i ==> !(#[trigger] widgets_of(before)[k]).starves(readings),
                first is Some ==> exists|k: int| 0 <= k < i && (#[trigger] widgets_of(before)[k]).starves(readings),
                first matches Some(ComponentError::Battery(e)) ==> battery_failure(readings.battery, e),
            decreases components.len() - i,
        {
            let ghost so_far = components@;
            let slot = &mut components[i];
            let outcome = slot.1.update(readings);
            proof {
                assert(components@ =~= so_far.update(i as int, components@[i as int]));
                assert(components@[i as int].0 == so_far[i as int].0);
                assert(names_of(components@) =~= names_of(before));
                assert(so_far[i as int].1 == widgets_of(before)[i as int]);
                assert forall|k: int| 0 <= k < i + 1 implies (#[trigger] widgets_of(before)[k]).steps_to(
                    widgets_of(components@)[k],
                    readings,
                ) by {
                    if k < i {
                        assert(widgets_of(components@)[k] == widgets_of(so_far)[k]);
                    }
                }
            }
            match outcome {
                Ok(()) => {},
                Err(error) => {
                    assert(widgets_of(before)[i as int].starves(readings));
                    if first.is_none() {
                        first = Some(error);
                    }
                },
            }
            i = i + 1;
        }
        proof {
            assert forall|k: int| 0 <= k < widgets_of(components@).len() implies (#[trigger] widgets_of(
                components@,
            )[k]).suits(first_entry(entries, names_of(components@)[k]).unwrap(), Some(&lua_registry)) by {
                lemma_step_keeps_suit(
                    widgets_of(before)[k],
                    widgets_of(components@)[k],
                    first_entry(entries, names_of(components@)[k]).unwrap(),
                    Some(&lua_registry),
                    readings,
                );
            }
        }
        proof {
            assert(widgets_of(before) == old(self).widgets());
            if first is Some {
                let k = choose|k: int| 0 <= k < i && (#[trigger] widgets_of(before)[k]).starves(readings);
                assert(old(self).widgets()[k].starves(readings));
            }
        }
        *self = ComponentManager { components, config, lua_registry };
        match first {
            Some(error) => Err(error),
            None => Ok(()),
        }
    }

    /// Rebuilds everything from what is now found: the configuration at its
    /// path, the plugin directory's listing, fresh readings. The new
    /// widgets, layout and plugins take the place of the old ones together,
    /// and only once all of them are there: a reload that fails leaves the
    /// manager exactly as it was.
    pub fn reload(
        &mut self,
        source: &crate::config::ConfigSource,
        listing: Option<&Vec<crate::lua_component::ScriptFile>>,
        readings: &Readings,
    ) -> (r: Result<(), ManagerError>)
        ensures
            old(self).wf(),
            final(self).wf(),
            r is Err ==> *final(self) == *old(self),
            r is Err ==> forall|bar: Seq<char>| final(self).region_widgets(bar) == old(self).region_widgets(bar),
            r is Err <==> (match crate::document::available(*source) {
                Some(config) => any_fails(config.entries(), readings),
                None => true,
            }),
            r matches Err(error) ==> refusal(*source, readings, error),
            r is Ok ==> loaded_from(final(self).registry(), listing),
            r is Ok ==> final(self).fresh(
                crate::document::available(*source).unwrap(),
                final(self).registry(),
                readings,
            ),
            r is Ok ==> forall|name: Seq<char>|
                final(self).registry().has(name) ==> (listing matches Some(files) && crate::lua_component::offers(
                    files@,
                    name,
                )),
    {
        proof {
            use_type_invariant(&*self);
        }
        let config = match self.config.reload(source) {
            Ok(config) => config,
            Err(error) => {
                return Err(ManagerError::Config(error));
            },
        };
        let mut lua_registry = LuaComponentRegistry::new();
        lua_registry.load_from_directory(listing);
        match ComponentManager::build(config, lua_registry, readings) {
            Ok(manager) => {
                *self = manager;
                Ok(())
            },
            Err(error) => Err(ManagerError::Component(error)),
        }
    }
}

/// What is built for a layout is in step with it.
pub proof fn lemma_built_is_kept(
    names: Seq<Seq<char>>,
    widgets: Seq<Component>,
    entries: Seq<ComponentConfigView>,
    lua_registry: &LuaComponentRegistry,
    readings: &Readings,
)
    requires
        built(names, widgets, entries, lua_registry, readings),
    ensures
        kept(names, widgets, entries, lua_registry),
{
    assert forall|i: int| 0 <= i < widgets.len() implies (#[trigger] widgets[i]).suits(
        first_entry(entries, names[i]).unwrap(),
        Some(lua_registry),
    ) by {
        lemma_made_suits(widgets[i], first_entry(entries, names[i]).unwrap(), Some(lua_registry), readings);
    }
}


/// The first entry of a name is the earliest one: no entry before it has
/// the name.
pub proof fn lemma_first_entry_is_earliest(entries: Seq<ComponentConfigView>, name: Seq<char>, k: int)
    requires
        0 <= k < entries.len(),
        entries[k].name() == name,
    ensures
        exists|j: int|
            0 <= j <= k && first_entry(entries, name) == Some(#[trigger] entries[j]) && entries[j].name() == name
                && forall|i: int| 0 <= i < j ==> (#[trigger] entries[i]).name() != name,
    decreases entries.len(),
{
    let prefix = entries.drop_last();
    lemma_distinct_names(prefix, name);
    if k < entries.len() - 1 {
        assert(prefix[k] == entries[k]);
        lemma_first_entry_is_earliest(prefix, name, k);
        let j = choose|j: int|
            0 <= j <= k && first_entry(prefix, name) == Some(#[trigger] prefix[j]) && prefix[j].name() == name
                && forall|i: int| 0 <= i < j ==> (#[trigger] prefix[i]).name() != name;
        assert(entries[j] == prefix[j]);
        assert forall|i: int| 0 <= i < j implies (#[trigger] entries[i]).name() != name by {
            assert(entries[i] == prefix[i]);
        }
    } else {
        if first_entry(prefix, name) is Some {
            let at = choose|at: int| 0 <= at < prefix.len() && (#[trigger] prefix[at]).name() == name;
            lemma_first_entry_is_earliest(prefix, name, at);
            let j = choose|j: int|
                0 <= j <= at && first_entry(prefix, name) == Some(#[trigger] prefix[j]) && prefix[j].name() == name
                    && forall|i: int| 0 <= i < j ==> (#[trigger] prefix[i]).name() != name;
            assert(entries[j] == prefix[j]);
            assert forall|i: int| 0 <= i < j implies (#[trigger] entries[i]).name() != name by {
                assert(entries[i] == prefix[i]);
            }
        } else {
            assert forall|i: int| 0 <= i < k implies (#[trigger] entries[i]).name() != name by {
                assert(entries[i] == prefix[i]);
            }
        }
    }
}

/// In every state of a manager, each name of its layout has exactly one
/// live widget, however often and in however many regions the name occurs,
/// and that widget is of the kind and has the settings that the first entry
/// of the name asks for.
pub proof fn lemma_one_widget_per_name(manager: ComponentManager, k: int)
    requires
        manager.wf(),
        0 <= k < manager.layout().entries().len(),
    ensures
        ({
            let entries = manager.layout().entries();
            let name = entries[k].name();
            exists|i: int|
                0 <= i < manager.names().len() && #[trigger] manager.names()[i] == name && (forall|j: int|
                    0 <= j < manager.names().len() && j != i ==> manager.names()[j] != name)
                    && manager.widgets()[i].suits(first_entry(entries, name).unwrap(), Some(&manager.registry()))
        }),
{
    let entries = manager.layout().entries();
    let name = entries[k].name();
    lemma_distinct_names(entries, name);
    lemma_distinct_names_differ(entries);
    let i = manager.names().index_of(name);
    assert(manager.names()[i] == name);
}

/// Right after building, the one widget of a name is the widget that is
/// made for the first entry of that name: a later entry of the same name,
/// whatever options it carries, has no part in it.
pub proof fn lemma_first_entry_decides(
    manager: ComponentManager,
    config: ConfigView,
    lua_registry: LuaComponentRegistry,
    readings: &Readings,
    k: int,
)
    requires
        manager.fresh(config, lua_registry, readings),
        0 <= k < config.entries().len(),
    ensures
        ({
            let name = config.entries()[k].name();
            exists|i: int|
                0 <= i < manager.names().len() && #[trigger] manager.names()[i] == name && (forall|j: int|
                    0 <= j < manager.names().len() && j != i ==> manager.names()[j] != name)
                    && manager.widgets()[i].made_from(
                    first_entry(config.entries(), name).unwrap(),
                    Some(&lua_registry),
                    readings,
                )
        }),
{
    let entries = config.entries();
    let name = entries[k].name();
    lemma_distinct_names(entries, name);
    lemma_distinct_names_differ(entries);
    let i = manager.names().index_of(name);
    assert(manager.names()[i] == name);
}

/// Two widgets that are made for the same entry, with the same plugins on
/// offer, from the same readings, are drawn the same.
pub proof fn lemma_made_alike_draws_alike(
    a: Component,
    b: Component,
    config: ComponentConfigView,
    lua_registry: Option<&LuaComponentRegistry>,
    readings: &Readings,
    colorize: bool,
)
    requires
        a.made_from(config, lua_registry, readings),
        b.made_from(config, lua_registry, readings),
    ensures
        a.muted() == b.muted(),
        !(a is Lua) ==> a.spans(colorize) == b.spans(colorize),
        forall|spans: Seq<SpanView>| a.draws(colorize, spans) <==> b.draws(colorize, spans),
{
    match (a, b) {
        (Component::Workspaces(x), Component::Workspaces(y)) => {
            assert(x.workspaces.deep_view() == y.workspaces.deep_view());
            assert(x.workspaces@.len() == x.workspaces.deep_view().len());
            assert(y.workspaces@.len() == y.workspaces.deep_view().len());
            assert forall|i: int| 0 <= i < x.workspaces@.len() implies x.workspaces@[i]@ == y.workspaces@[i]@ by {
                assert(x.workspaces.deep_view()[i] == x.workspaces@[i]@);
                assert(y.workspaces.deep_view()[i] == y.workspaces@[i]@);
            }
            assert(x.spans() =~= y.spans());
        },
        (Component::Windows(x), Component::Windows(y)) => {
            assert(x.spans() =~= y.spans());
        },
        _ => {},
    }
}

/// Building twice from the same layout, plugins and readings gives the
/// same names in the same order, and widgets that are drawn the same.
pub proof fn lemma_build_is_repeatable(
    first: ComponentManager,
    second: ComponentManager,
    config: ConfigView,
    lua_registry: LuaComponentRegistry,
    readings: &Readings,
    colorize: bool,
)
    requires
        first.fresh(config, lua_registry, readings),
        second.fresh(config, lua_registry, readings),
    ensures
        first.names() == second.names(),
        first.widgets().len() == second.widgets().len(),
        forall|i: int, spans: Seq<SpanView>|
            0 <= i < first.widgets().len() ==> (#[trigger] first.widgets()[i].draws(colorize, spans)
                <==> second.widgets()[i].draws(colorize, spans)),
        forall|i: int|
            0 <= i < first.widgets().len() ==> (#[trigger] first.widgets()[i]).muted() == second.widgets()[i].muted(),
{
    assert forall|i: int, spans: Seq<SpanView>| 0 <= i < first.widgets().len() implies (#[trigger] first.widgets()[i].draws(
        colorize,
        spans,
    ) <==> second.widgets()[i].draws(colorize, spans)) by {
        lemma_made_alike_draws_alike(
            first.widgets()[i],
            second.widgets()[i],
            first_entry(config.entries(), first.names()[i]).unwrap(),
            Some(&lua_registry),
            readings,
            colorize,
        );
    }
    assert forall|i: int| 0 <= i < first.widgets().len() implies (#[trigger] first.widgets()[i]).muted()
        == second.widgets()[i].muted() by {
        lemma_made_alike_draws_alike(
            first.widgets()[i],
            second.widgets()[i],
            first_entry(config.entries(), first.names()[i]).unwrap(),
            Some(&lua_registry),
            readings,
            colorize,
        );
    }
}


/// A source of readings.
#[derive(Debug, Clone, Copy, PartialEq, Eq, Structural)]
pub enum Probe {
    Brightness,
    Volume,
    Battery,
    Cpu,
    Ram,
    Temperature,
    Wifi,
    Weather,
    Windows,
    Workspaces,
}

/// The source that a widget of this kind is made from, if it is made from
/// one.
pub open spec fn first_probe(kind: Option<Kind>) -> Option<Probe> {
    match kind {
        Some(Kind::Workspaces) => Some(Probe::Workspaces),
        Some(Kind::Windows) => Some(Probe::Windows),
        Some(Kind::Wifi) => Some(Probe::Wifi),
        Some(Kind::Brightness) => Some(Probe::Brightness),
        Some(Kind::Volume) => Some(Probe::Volume),
        Some(Kind::Battery) => Some(Probe::Battery),
        _ => None,
    }
}

/// The sources that the widgets of these entries are made from, one for
/// each entry that needs one, in the order of the entries.
pub open spec fn first_probes(entries: Seq<ComponentConfigView>) -> Seq<Probe>
    decreases entries.len(),
{
    if entries.len() == 0 {
        Seq::empty()
    } else {
        match first_probe(builtin(entries.last().name())) {
            Some(probe) => first_probes(entries.drop_last()).push(probe),
            None => first_probes(entries.drop_last()),
        }
    }
}

/// The sources that these widgets read in a pass at `now`, one for each
/// widget that reads one, in the order of the widgets.
pub open spec fn wanted(widgets: Seq<Component>, now: u64) -> Seq<Probe>
    decreases widgets.len(),
{
    if widgets.len() == 0 {
        Seq::empty()
    } else {
        match widgets.last().wants(now) {
            Some(probe) => wanted(widgets.drop_last(), now).push(probe),
            None => wanted(widgets.drop_last(), now),
        }
    }
}

fn first_probe_of(name: &str) -> (r: Option<Probe>)
    ensures
        r == first_probe(builtin(name@)),
{
    match builtin_kind(name) {
        Some(Kind::Workspaces) => Some(Probe::Workspaces),
        Some(Kind::Windows) => Some(Probe::Windows),
        Some(Kind::Wifi) => Some(Probe::Wifi),
        Some(Kind::Brightness) => Some(Probe::Brightness),
        Some(Kind::Volume) => Some(Probe::Volume),
        Some(Kind::Battery) => Some(Probe::Battery),
        _ => None,
    }
}

fn append_first_probes(probes: &mut Vec<Probe>, region: &Vec<ComponentConfig>, Ghost(done): Ghost<Seq<ComponentConfigView>>)
    requires
        old(probes)@ == first_probes(done),
    ensures
        final(probes)@ == first_probes(done + region.deep_view()),
{
    let mut i: usize = 0;
    assert(done + region.deep_view().take(0) =~= done);
    while i < region.len()
        invariant
            i <= region.len(),
            probes@ == first_probes(done + region.deep_view().take(i as int)),
        decreases region.len() - i,
    {
        let ghost next = done + region.deep_view().take(i + 1);
        assert(next.drop_last() =~= done + region.deep_view().take(i as int));
        assert(next.last() == region[i as int]@);
        match first_probe_of(region[i].name()) {
            Some(probe) => {
                probes.push(probe);
            },
            None => {},
        }
        i = i + 1;
    }
    assert(done + region.deep_view().take(i as int) =~= done + region.deep_view());
}

/// The sources that have to be read before the widgets of `config` can be
/// built.
pub fn initial_probes(config: &Config) -> (r: Vec<Probe>)
    ensures
        r@ == first_probes(config@.entries()),
{
    let mut probes: Vec<Probe> = Vec::new();
    let ghost none = Seq::<ComponentConfigView>::empty();
    assert(none + config@.bars.left =~= config@.bars.left);
    append_first_probes(&mut probes, &config.bars.left, Ghost(none));
    append_first_probes(&mut probes, &config.bars.middle, Ghost(config@.bars.left));
    append_first_probes(&mut probes, &config.bars.right, Ghost(config@.bars.left + config@.bars.middle));
    probes
}

impl Component {
    /// The source that the widget reads in a pass at `now`: that of its
    /// kind, for a kind that samples at intervals only where it is due.
    pub open spec fn wants(self, now: u64) -> Option<Probe> {
        match self {
            Component::Workspaces(_) => Some(Probe::Workspaces),
            Component::Windows(_) => Some(Probe::Windows),
            Component::Weather(_) => Some(Probe::Weather),
            Component::Brightness(_) => Some(Probe::Brightness),
            Component::Volume(_) => Some(Probe::Volume),
            Component::Temperature(t) => if t.due(now) {
                Some(Probe::Temperature)
            } else {
                None
            },
            Component::Cpu(c) => if c.due(now) {
                Some(Probe::Cpu)
            } else {
                None
            },
            Component::Ram(r) => if r.due(now) {
                Some(Probe::Ram)
            } else {
                None
            },
            Component::Wifi(w) => if w.due(now) {
                Some(Probe::Wifi)
            } else {
                None
            },
            Component::Battery(b) => if b.due(now) {
                Some(Probe::Battery)
            } else {
                None
            },
            _ => None,
        }
    }

    /// The source that the widget reads in a pass at `now`, if it reads one.
    pub fn probe(&self, now: u64) -> (r: Option<Probe>)
        ensures
            r == self.wants(now),
    {
        match self {
            Component::Workspaces(_) => Some(Probe::Workspaces),
            Component::Windows(_) => Some(Probe::Windows),
            Component::Weather(_) => Some(Probe::Weather),
            Component::Brightness(_) => Some(Probe::Brightness),
            Component::Volume(_) => Some(Probe::Volume),
            Component::Temperature(t) => if crate::components::interval::is_due(now, t.last_update, t.update_interval) {
                Some(Probe::Temperature)
            } else {
                None
            },
            Component::Cpu(c) => if crate::components::interval::is_due(now, c.last_update, c.update_interval) {
                Some(Probe::Cpu)
            } else {
                None
            },
            Component::Ram(r) => if crate::components::interval::is_due(now, r.last_update, r.update_interval) {
                Some(Probe::Ram)
            } else {
                None
            },
            Component::Wifi(w) => if crate::components::interval::is_due(now, w.last_update, w.update_interval) {
                Some(Probe::Wifi)
            } else {
                None
            },
            Component::Battery(b) => if crate::components::interval::is_due(now, b.last_update, b.update_interval) {
                Some(Probe::Battery)
            } else {
                None
            },
            _ => None,
        }
    }
}

impl ComponentManager {
    /// The plugins whose last pass failed, each with its name and the
    /// interpreter's message, in the order of the live widgets.
    pub fn plugin_failures(&self) -> (r: Vec<(String, String)>)
        ensures
            r.deep_view() == failed_plugins(self.widgets()),
    {
        let mut failures: Vec<(String, String)> = Vec::new();
        let mut i: usize = 0;
        assert(self.widgets().take(0) =~= Seq::<Component>::empty());
        assert(failures.deep_view() =~= Seq::<(Seq<char>, Seq<char>)>::empty());
        while i < self.components.len()
            invariant
                i <= self.components.len(),
                failures.deep_view() == failed_plugins(self.widgets().take(i as int)),
            decreases self.components.len() - i,
        {
            let ghost before = failures.deep_view();
            assert(self.widgets().take(i + 1).drop_last() =~= self.widgets().take(i as int));
            assert(self.widgets().take(i + 1).last() == self.components@[i as int].1);
            match &self.components[i].1 {
                Component::Lua(plugin) => match plugin.failure_message() {
                    Some(message) => {
                        let name = String::from_str(plugin.name());
                        failures.push((name, message));
                        assert(failures.deep_view() =~= before.push((plugin.spec_name(), message@)));
                    },
                    None => {},
                },
                _ => {},
            }
            i = i + 1;
        }
        assert(self.widgets().take(i as int) =~= self.widgets());
        failures
    }

    /// The sources that have to be read for a pass at `now`: those that the
    /// live widgets read in such a pass.
    pub fn probes(&self, now: u64) -> (r: Vec<Probe>)
        ensures
            r@ == wanted(self.widgets(), now),
    {
        let mut probes: Vec<Probe> = Vec::new();
        let mut i: usize = 0;
        assert(self.widgets().take(0) =~= Seq::<Component>::empty());
        while i < self.components.len()
            invariant
                i <= self.components.len(),
                probes@ == wanted(self.widgets().take(i as int), now),
            decreases self.components.len() - i,
        {
            assert(self.widgets().take(i + 1).drop_last() =~= self.widgets().take(i as int));
            assert(self.widgets().take(i + 1).last() == self.components@[i as int].1);
            match self.components[i].1.probe(now) {
                Some(probe) => {
                    probes.push(probe);
                },
                None => {},
            }
            i = i + 1;
        }
        assert(self.widgets().take(i as int) =~= self.widgets());
        probes
    }
}

} // verus!
