//! The bar's configuration: three ordered regions of widget entries and a
//! colour switch, how a JSON document is read as one, and how one is written.

use vstd::prelude::*;
use vstd::string::*;
use crate::json::{find_member, lemma_array_value, lemma_object_value, member, Json, JsonValue};
use crate::text::str_eq;

verus! {

/// The option bag of a widget entry written as an object.
#[derive(Debug, PartialEq, Eq)]
pub struct ComponentOptions {
    pub name: String,
    pub sparkline: Option<bool>,
    pub sparkline_length: Option<usize>,
    pub sparkline_update_freq: Option<u64>,
    pub sparkline_logarithmic: Option<bool>,
}

/// One widget entry of a region: a bare name, or a name with options.
#[derive(Debug, PartialEq, Eq)]
pub enum ComponentConfig {
    String(String),
    Object(ComponentOptions),
}

/// The three regions of the bar, each in display order.
#[derive(Debug, PartialEq, Eq)]
pub struct BarsConfig {
    pub left: Vec<ComponentConfig>,
    pub middle: Vec<ComponentConfig>,
    pub right: Vec<ComponentConfig>,
}

/// The whole configuration.
#[derive(Debug, PartialEq, Eq)]
pub struct Config {
    pub bars: BarsConfig,
    pub colorize: bool,
}

/// Why a configuration could not be had.
#[derive(Debug, PartialEq, Eq)]
pub enum ConfigError {
    /// The file is there but could not be read; the text is the reason.
    Unreadable(String),
    /// The text is not JSON; the text is the reader's message.
    Syntax(String),
    /// The text is JSON but not a configuration document.
    Malformed,
}

/// What was found at the configuration's path.
#[derive(Debug, PartialEq, Eq)]
pub enum ConfigSource {
    /// There is no file.
    Missing,
    /// There is a file that could not be read.
    Unreadable(String),
    /// The file's text.
    Text(String),
}

/// The mathematical value of [`ComponentOptions`].
pub struct ComponentOptionsView {
    pub name: Seq<char>,
    pub sparkline: Option<bool>,
    pub sparkline_length: Option<usize>,
    pub sparkline_update_freq: Option<u64>,
    pub sparkline_logarithmic: Option<bool>,
}

/// The mathematical value of a [`ComponentConfig`].
pub enum ComponentConfigView {
    String(Seq<char>),
    Object(ComponentOptionsView),
}

/// The mathematical value of a [`BarsConfig`].
pub struct BarsConfigView {
    pub left: Seq<ComponentConfigView>,
    pub middle: Seq<ComponentConfigView>,
    pub right: Seq<ComponentConfigView>,
}

/// The mathematical value of a [`Config`].
pub struct ConfigView {
    pub bars: BarsConfigView,
    pub colorize: bool,
}

impl ComponentConfigView {
    /// The widget name of the entry.
    pub open spec fn name(self) -> Seq<char> {
        match self {
            ComponentConfigView::String(name) => name,
            ComponentConfigView::Object(options) => options.name,
        }
    }

    /// Whether the entry asks for a trend sparkline; `None` where it does not say.
    pub open spec fn sparkline(self) -> Option<bool> {
        match self {
            ComponentConfigView::String(_) => None,
            ComponentConfigView::Object(options) => options.sparkline,
        }
    }

    /// The sparkline's width in cells; `None` where the entry does not say.
    pub open spec fn sparkline_length(self) -> Option<usize> {
        match self {
            ComponentConfigView::String(_) => None,
            ComponentConfigView::Object(options) => options.sparkline_length,
        }
    }

    /// The seconds between two samples; `None` where the entry does not say.
    pub open spec fn sparkline_update_freq(self) -> Option<u64> {
        match self {
            ComponentConfigView::String(_) => None,
            ComponentConfigView::Object(options) => options.sparkline_update_freq,
        }
    }

    /// Whether the sparkline is scaled logarithmically; `None` where the entry
    /// does not say.
    pub open spec fn sparkline_logarithmic(self) -> Option<bool> {
        match self {
            ComponentConfigView::String(_) => None,
            ComponentConfigView::Object(options) => options.sparkline_logarithmic,
        }
    }
}

impl ConfigView {
    /// The entries of the region called `bar`; `None` for any name but
    /// `left`, `middle` and `right`.
    pub open spec fn region(self, bar: Seq<char>) -> Option<Seq<ComponentConfigView>> {
        if bar == "left"@ {
            Some(self.bars.left)
        } else if bar == "middle"@ {
            Some(self.bars.middle)
        } else if bar == "right"@ {
            Some(self.bars.right)
        } else {
            None
        }
    }

    /// All entries, left region first, then middle, then right.
    pub open spec fn entries(self) -> Seq<ComponentConfigView> {
        self.bars.left + self.bars.middle + self.bars.right
    }
}

impl View for ComponentOptions {
    type V = ComponentOptionsView;

    open spec fn view(&self) -> ComponentOptionsView {
        ComponentOptionsView {
            name: self.name@,
            sparkline: self.sparkline,
            sparkline_length: self.sparkline_length,
            sparkline_update_freq: self.sparkline_update_freq,
            sparkline_logarithmic: self.sparkline_logarithmic,
        }
    }
}

impl DeepView for ComponentOptions {
    type V = ComponentOptionsView;

    open spec fn deep_view(&self) -> ComponentOptionsView {
        self@
    }
}

impl View for ComponentConfig {
    type V = ComponentConfigView;

    open spec fn view(&self) -> ComponentConfigView {
        match self {
            ComponentConfig::String(name) => ComponentConfigView::String(name@),
            ComponentConfig::Object(options) => ComponentConfigView::Object(options@),
        }
    }
}

impl DeepView for ComponentConfig {
    type V = ComponentConfigView;

    open spec fn deep_view(&self) -> ComponentConfigView {
        self@
    }
}

impl View for BarsConfig {
    type V = BarsConfigView;

    open spec fn view(&self) -> BarsConfigView {
        BarsConfigView {
            left: self.left.deep_view(),
            middle: self.middle.deep_view(),
            right: self.right.deep_view(),
        }
    }
}

impl View for Config {
    type V = ConfigView;

    open spec fn view(&self) -> ConfigView {
        ConfigView { bars: self.bars@, colorize: self.colorize }
    }
}

impl DeepView for Config {
    type V = ConfigView;

    open spec fn deep_view(&self) -> ConfigView {
        self@
    }
}

impl Clone for ComponentOptions {
    fn clone(&self) -> (r: Self)
        ensures
            r@ == self@,
    {
        ComponentOptions {
            name: self.name.clone(),
            sparkline: self.sparkline,
            sparkline_length: self.sparkline_length,
            sparkline_update_freq: self.sparkline_update_freq,
            sparkline_logarithmic: self.sparkline_logarithmic,
        }
    }
}

impl Clone for ComponentConfig {
    fn clone(&self) -> (r: Self)
        ensures
            r@ == self@,
    {
        match self {
            ComponentConfig::String(name) => ComponentConfig::String(name.clone()),
            ComponentConfig::Object(options) => ComponentConfig::Object(options.clone()),
        }
    }
}

/// A copy of a region, entry by entry.
pub fn clone_entries(entries: &Vec<ComponentConfig>) -> (r: Vec<ComponentConfig>)
    ensures
        r.deep_view() == entries.deep_view(),
{
    let mut r: Vec<ComponentConfig> = Vec::new();
    let mut i: usize = 0;
    while i < entries.len()
        invariant
            i <= entries.len(),
            r.len() == i,
            forall|k: int| 0 <= k < i ==> r[k]@ == entries[k]@,
        decreases entries.len() - i,
    {
        r.push(entries[i].clone());
        i = i + 1;
    }
    assert(r.deep_view() =~= entries.deep_view());
    r
}

impl Clone for BarsConfig {
    fn clone(&self) -> (r: Self)
        ensures
            r@ == self@,
    {
        BarsConfig {
            left: clone_entries(&self.left),
            middle: clone_entries(&self.middle),
            right: clone_entries(&self.right),
        }
    }
}

impl Clone for Config {
    fn clone(&self) -> (r: Self)
        ensures
            r@ == self@,
    {
        Config { bars: self.bars.clone(), colorize: self.colorize }
    }
}

impl ComponentConfig {
    /// The widget name of the entry.
    pub fn name(&self) -> (r: &str)
        ensures
            r@ == self@.name(),
    {
        match self {
            ComponentConfig::String(name) => name.as_str(),
            ComponentConfig::Object(options) => options.name.as_str(),
        }
    }

    /// Whether the entry asks for a trend sparkline; `None` where it does not say.
    pub fn sparkline(&self) -> (r: Option<bool>)
        ensures
            r == self@.sparkline(),
    {
        match self {
            ComponentConfig::String(_) => None,
            ComponentConfig::Object(options) => options.sparkline,
        }
    }

    /// The sparkline's width in cells; `None` where the entry does not say.
    pub fn sparkline_length(&self) -> (r: Option<usize>)
        ensures
            r == self@.sparkline_length(),
    {
        match self {
            ComponentConfig::String(_) => None,
            ComponentConfig::Object(options) => options.sparkline_length,
        }
    }

    /// The seconds between two samples; `None` where the entry does not say.
    pub fn sparkline_update_freq(&self) -> (r: Option<u64>)
        ensures
            r == self@.sparkline_update_freq(),
    {
        match self {
            ComponentConfig::String(_) => None,
            ComponentConfig::Object(options) => options.sparkline_update_freq,
        }
    }

    /// Whether the sparkline is scaled logarithmically; `None` where the entry
    /// does not say.
    pub fn sparkline_logarithmic(&self) -> (r: Option<bool>)
        ensures
            r == self@.sparkline_logarithmic(),
    {
        match self {
            ComponentConfig::String(_) => None,
            ComponentConfig::Object(options) => options.sparkline_logarithmic,
        }
    }
}

/// A bare entry named `name`.
pub open spec fn bare(name: Seq<char>) -> ComponentConfigView {
    ComponentConfigView::String(name)
}

/// The layout that is used where no configuration file exists.
pub open spec fn default_layout() -> ConfigView {
    ConfigView {
        bars: BarsConfigView {
            left: seq![bare("workspaces"@)],
            middle: seq![bare("time"@), bare("weather"@)],
            right: seq![
                bare("temperature"@),
                bare("cpu"@),
                bare("ram"@),
                bare("wifi"@),
                bare("brightness"@),
                bare("volume"@),
                bare("separator"@),
                bare("battery"@),
            ],
        },
        colorize: true,
    }
}

fn named(name: &str) -> (r: ComponentConfig)
    ensures
        r@ == bare(name@),
{
    ComponentConfig::String(String::from_str(name))
}

impl Default for Config {
    fn default() -> (r: Self)
        ensures
            r@ == default_layout(),
    {
        let mut left: Vec<ComponentConfig> = Vec::new();
        left.push(named("workspaces"));
        let mut middle: Vec<ComponentConfig> = Vec::new();
        middle.push(named("time"));
        middle.push(named("weather"));
        let mut right: Vec<ComponentConfig> = Vec::new();
        right.push(named("temperature"));
        right.push(named("cpu"));
        right.push(named("ram"));
        right.push(named("wifi"));
        right.push(named("brightness"));
        right.push(named("volume"));
        right.push(named("separator"));
        right.push(named("battery"));
        assert(left.deep_view() =~= default_layout().bars.left);
        assert(middle.deep_view() =~= default_layout().bars.middle);
        assert(right.deep_view() =~= default_layout().bars.right);
        Config { bars: BarsConfig { left, middle, right }, colorize: true }
    }
}

impl Config {
    /// The entries of the region called `bar`; `None` for any name but
    /// `left`, `middle` and `right`.
    pub fn get_components_for_bar(&self, bar: &str) -> (r: Option<&Vec<ComponentConfig>>)
        ensures
            r.deep_view() == self@.region(bar@),
            bar@ == "left"@ ==> r == Some(&self.bars.left),
            bar@ != "left"@ && bar@ == "middle"@ ==> r == Some(&self.bars.middle),
            bar@ != "left"@ && bar@ != "middle"@ && bar@ == "right"@ ==> r == Some(&self.bars.right),
    {
        if str_eq(bar, "left") {
            Some(&self.bars.left)
        } else if str_eq(bar, "middle") {
            Some(&self.bars.middle)
        } else if str_eq(bar, "right") {
            Some(&self.bars.right)
        } else {
            None
        }
    }
}

} // verus!
