//! The bar as a whole: the manager, the three regions, and what happens on
//! a reload request, on a tick and on a key press.

use vstd::prelude::*;
use vstd::string::*;
use crate::bars::{region_line, Alignment, LeftBar, Line, MiddleBar, RightBar};
use crate::component_manager::{
    any_fails, failed_plugins, loaded_from, refusal, ComponentError, ComponentManager, ManagerError,
};
use crate::components::battery::{battery_failure, BatteryError};
use crate::config::{ConfigError, ConfigSource};
use crate::logging::{log_component_error, log_config_error, log_system_error, uppercase, LogRecord};
use crate::lua_component::{PluginError, ScriptFile};
use crate::readings::Readings;
use crate::reload::{is_quit_key, quits, Key};
use crate::text::concat;

verus! {

/// The running bar.
#[derive(Debug)]
pub struct App {
    running: bool,
    component_manager: ComponentManager,
    left_bar: LeftBar,
    middle_bar: MiddleBar,
    right_bar: RightBar,
}

/// One picture of the bar: the line of each region, `None` for a region
/// without widgets.
#[derive(Debug, PartialEq, Eq)]
pub struct Frame {
    pub left: Option<Line>,
    pub middle: Option<Line>,
    pub right: Option<Line>,
}

/// What a configuration error reads as.
pub open spec fn config_error_text(error: ConfigError) -> Seq<char> {
    match error {
        ConfigError::Unreadable(reason) => "configuration file could not be read: "@ + reason@,
        ConfigError::Syntax(message) => "configuration file is not JSON: "@ + message@,
        ConfigError::Malformed => "configuration file is not a layout of the bar"@,
    }
}

/// What a battery error reads as.
pub open spec fn battery_error_text(error: BatteryError) -> Seq<char> {
    match error {
        BatteryError::NotFound => "Unable to find any batteries"@,
        BatteryError::Unavailable(reason) => "Unable to access battery information: "@ + reason@,
    }
}

/// What a plugin error reads as.
pub open spec fn plugin_error_text(error: PluginError) -> Seq<char> {
    match error {
        PluginError::Script(message) => "Failed to load Lua script: "@ + message@,
        PluginError::MissingRender(message) => "Failed to get render function: "@ + message@,
    }
}

/// What a widget error reads as.
pub open spec fn component_error_text(error: ComponentError) -> Seq<char> {
    match error {
        ComponentError::Battery(inner) => battery_error_text(inner),
    }
}

/// What a manager error reads as.
pub open spec fn manager_error_text(error: ManagerError) -> Seq<char> {
    match error {
        ManagerError::Config(inner) => config_error_text(inner),
        ManagerError::Component(inner) => component_error_text(inner),
    }
}

impl ConfigError {
    /// The error in words.
    pub fn describe(&self) -> (r: String)
        ensures
            r@ == config_error_text(*self),
    {
        match self {
            ConfigError::Unreadable(reason) => concat("configuration file could not be read: ", reason.as_str()),
            ConfigError::Syntax(message) => concat("configuration file is not JSON: ", message.as_str()),
            ConfigError::Malformed => String::from_str("configuration file is not a layout of the bar"),
        }
    }
}

impl BatteryError {
    /// The error in words.
    pub fn describe(&self) -> (r: String)
        ensures
            r@ == battery_error_text(*self),
    {
        match self {
            BatteryError::NotFound => String::from_str("Unable to find any batteries"),
            BatteryError::Unavailable(reason) => concat("Unable to access battery information: ", reason.as_str()),
        }
    }
}

impl PluginError {
    /// The error in words.
    pub fn describe(&self) -> (r: String)
        ensures
            r@ == plugin_error_text(*self),
    {
        match self {
            PluginError::Script(message) => concat("Failed to load Lua script: ", message.as_str()),
            PluginError::MissingRender(message) => concat("Failed to get render function: ", message.as_str()),
        }
    }
}

impl ComponentError {
    /// The error in words.
    pub fn describe(&self) -> (r: String)
        ensures
            r@ == component_error_text(*self),
    {
        match self {
            ComponentError::Battery(inner) => inner.describe(),
        }
    }
}

impl ManagerError {
    /// The error in words.
    pub fn describe(&self) -> (r: String)
        ensures
            r@ == manager_error_text(*self),
    {
        match self {
            ManagerError::Config(inner) => inner.describe(),
            ManagerError::Component(inner) => inner.describe(),
        }
    }
}

impl App {
    /// Whether the bar goes on.
    pub closed spec fn running(self) -> bool {
        self.running
    }

    /// The manager of the live widgets.
    pub closed spec fn manager(self) -> ComponentManager {
        self.component_manager
    }

    /// The manager is in step with its configuration.
    pub open spec fn wf(self) -> bool {
        self.manager().wf()
    }

    /// Starts the bar from what is found: the configuration at its path,
    /// the plugin directory's listing, the first readings. The second part
    /// of the result says whether the configuration file has to be
    /// written. Starting fails where the manager cannot be had.
    pub fn new(source: &ConfigSource, listing: Option<&Vec<ScriptFile>>, readings: &Readings) -> (r: Result<
        (Self, bool),
        ManagerError,
    >)
        ensures
            r is Err <==> (match crate::document::available(*source) {
                Some(config) => any_fails(config.entries(), readings),
                None => true,
            }),
            r matches Err(error) ==> refusal(*source, readings, error),
            r matches Ok((app, create)) ==> {
                &&& app.wf()
                &&& app.running()
                &&& loaded_from(app.manager().registry(), listing)
                &&& app.manager().fresh(
                    crate::document::available(*source).unwrap(),
                    app.manager().registry(),
                    readings,
                )
                &&& create == (source is Missing)
            },
    {
        match ComponentManager::new(source, listing, readings) {
            Ok((component_manager, create)) => Ok(
                (
                    App {
                        running: true,
                        component_manager,
                        left_bar: LeftBar::new(),
                        middle_bar: MiddleBar::new(),
                        right_bar: RightBar::new(),
                    },
                    create,
                ),
            ),
            Err(error) => Err(error),
        }
    }

    /// Whether the bar goes on.
    pub fn is_running(&self) -> (r: bool)
        ensures
            r == self.running(),
    {
        self.running
    }

    /// The manager of the live widgets.
    pub fn component_manager(&self) -> (r: &ComponentManager)
        ensures
            *r == self.manager(),
    {
        &self.component_manager
    }

    /// Answers a reload request: the manager rebuilds everything from what
    /// is now found. A reload that fails changes nothing and gives the
    /// line for the error log.
    pub fn reload(&mut self, source: &ConfigSource, listing: Option<&Vec<ScriptFile>>, readings: &Readings) -> (r:
        Option<LogRecord>)
        ensures
            old(self).wf(),
            final(self).wf(),
            final(self).running() == old(self).running(),
            r is Some ==> *final(self) == *old(self),
            r is Some <==> (match crate::document::available(*source) {
                Some(config) => any_fails(config.entries(), readings),
                None => true,
            }),
            r is None ==> final(self).manager().fresh(
                crate::document::available(*source).unwrap(),
                final(self).manager().registry(),
                readings,
            ),
            r is None ==> loaded_from(final(self).manager().registry(), listing),
            r matches Some(record) ==> record.category@ == "CONFIG"@ && exists|error: ManagerError|
                refusal(*source, readings, error) && record.message@ == "Failed to reload configuration: "@
                    + #[trigger] manager_error_text(error),
    {
        match self.component_manager.reload(source, listing, readings) {
            Ok(()) => None,
            Err(error) => {
                let message = concat("Failed to reload configuration: ", error.describe().as_str());
                let record = log_config_error(message.as_str());
                assert(record.message@ == "Failed to reload configuration: "@ + manager_error_text(error));
                Some(record)
            },
        }
    }

    /// Answers a tick: every live widget has its pass. Where the battery
    /// widget is due and no battery was found, the result is the line for
    /// the error log; the widgets have had their pass all the same. A
    /// plugin whose pass failed shows its error marker;
    /// [`App::plugin_failures`] gives the lines for those.
    pub fn update_components(&mut self, readings: &Readings) -> (r: Option<LogRecord>)
        ensures
            old(self).wf(),
            final(self).wf(),
            final(self).running() == old(self).running(),
            final(self).manager().layout() == old(self).manager().layout(),
            final(self).manager().names() == old(self).manager().names(),
            forall|i: int|
                0 <= i < old(self).manager().widgets().len() ==> (#[trigger] old(self).manager().widgets()[i]).steps_to(
                    final(self).manager().widgets()[i],
                    readings,
                ),
            r is Some <==> exists|i: int|
                0 <= i < old(self).manager().widgets().len() && (#[trigger] old(self).manager().widgets()[i]).starves(
                    readings,
                ),
            r matches Some(record) ==> record.category@ == "SYSTEM"@ && exists|error: BatteryError|
                battery_failure(readings.battery, error) && record.message@ == #[trigger] battery_error_text(error),
    {
        let outcome = self.component_manager.update(readings);
        self.left_bar.update();
        self.middle_bar.update();
        self.right_bar.update();
        match outcome {
            Ok(()) => None,
            Err(error) => {
                let record = log_system_error("Component Manager", error.describe().as_str());
                proof {
                    let inner = error->Battery_0;
                    assert(record.message@ == battery_error_text(inner));
                }
                Some(record)
            },
        }
    }

    /// The lines for the error log that tell of the plugins whose last pass
    /// failed: one for each, in the order of the live widgets, under the
    /// plugin's name in upper case, with the interpreter's message.
    pub fn plugin_failures(&self) -> (r: Vec<LogRecord>)
        ensures
            r@.len() == failed_plugins(self.manager().widgets()).len(),
            forall|i: int|
                0 <= i < r@.len() ==> {
                    let failed = failed_plugins(self.manager().widgets())[i];
                    &&& (#[trigger] r@[i]).category@ == "COMPONENT_"@ + uppercase(failed.0)
                    &&& r@[i].message@ == failed.1
                },
    {
        let failures = self.component_manager.plugin_failures();
        let ghost failed = failed_plugins(self.manager().widgets());
        let mut records: Vec<LogRecord> = Vec::new();
        let mut i: usize = 0;
        while i < failures.len()
            invariant
                i <= failures.len(),
                failures.deep_view() == failed,
                records@.len() == i,
                forall|k: int|
                    0 <= k < i ==> (#[trigger] records@[k]).category@ == "COMPONENT_"@ + uppercase(failed[k].0)
                        && records@[k].message@ == failed[k].1,
            decreases failures.len() - i,
        {
            assert(failures.deep_view()[i as int] == (failures[i as int].0@, failures[i as int].1@));
            records.push(log_component_error(failures[i].0.as_str(), failures[i].1.as_str()));
            i = i + 1;
        }
        records
    }

    /// Draws the three regions.
    pub fn render(&self) -> (r: Frame)
        ensures
            region_line(self.manager(), "left"@, Alignment::Left, r.left),
            region_line(self.manager(), "middle"@, Alignment::Center, r.middle),
            region_line(self.manager(), "right"@, Alignment::Right, r.right),
    {
        Frame {
            left: self.left_bar.render(&self.component_manager),
            middle: self.middle_bar.render(&self.component_manager),
            right: self.right_bar.render(&self.component_manager),
        }
    }

    /// Answers a key press: escape, `q`, and `c` with the control key end
    /// the bar; any other key does nothing.
    pub fn on_key_event(&mut self, key: Key, only_control: bool)
        ensures
            final(self).manager() == old(self).manager(),
            final(self).running() == (old(self).running() && !quits(key, only_control)),
    {
        if is_quit_key(key, only_control) {
            self.quit();
        }
    }

    /// Ends the bar.
    pub fn quit(&mut self)
        ensures
            final(self).manager() == old(self).manager(),
            !final(self).running(),
    {
        self.running = false;
    }
}

} // verus!
