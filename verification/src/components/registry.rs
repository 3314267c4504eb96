//! Widgets that are made straight from a JSON object of settings, by the
//! name of their kind.

use vstd::prelude::*;
use vstd::string::*;
use crate::component_manager::{or_default, Component, ComponentError};
use crate::components::Wifi;
use crate::document::{count_option, flag_option, read_count, read_flag};
use crate::json::{lemma_object_value, Json, JsonValue};
use crate::readings::{borrowed, Readings};
use crate::text::str_eq;
use crate::tree::{as_text, at, text_at};

verus! {

/// The kinds of widget that can be made from a JSON object of settings.
#[derive(Debug)]
pub struct ConfigurableComponentRegistry {
    factories: Vec<String>,
}

/// The settings of the wireless widget.
pub struct WifiSettings {
    pub sparkline: bool,
    pub sparkline_length: usize,
    pub sparkline_update_freq: u64,
    pub sparkline_logarithmic: bool,
}

/// The settings that a JSON value holds for the wireless widget: an object
/// whose options, as far as it has them, are of the right kind; each option
/// that it leaves out has its default. `None` for any other value.
pub open spec fn wifi_settings(value: JsonValue) -> Option<WifiSettings> {
    match value {
        JsonValue::Object(members) => match (
            flag_option(members, "sparkline"@),
            count_option(members, "sparkline_length"@, usize::MAX as u64),
            count_option(members, "sparkline_update_freq"@, u64::MAX),
            flag_option(members, "sparkline_logarithmic"@),
        ) {
            (Some(sparkline), Some(length), Some(freq), Some(logarithmic)) => Some(
                WifiSettings {
                    sparkline: or_default(sparkline, false),
                    sparkline_length: or_default(length, 10) as usize,
                    sparkline_update_freq: or_default(freq, 2),
                    sparkline_logarithmic: or_default(logarithmic, false),
                },
            ),
            _ => None,
        },
        _ => None,
    }
}

/// The name of the kind that a JSON value of settings is meant for: its
/// text `component`; `unknown` where it has none.
pub open spec fn component_name(value: JsonValue) -> Seq<char> {
    match as_text(at(value, "component"@)) {
        Some(name) => name,
        None => "unknown"@,
    }
}

impl ConfigurableComponentRegistry {
    /// The names of the kinds that can be made.
    pub closed spec fn names(self) -> Seq<Seq<char>> {
        self.factories.deep_view()
    }

    /// Whether the kind `name` can be made.
    pub open spec fn has(self, name: Seq<char>) -> bool {
        self.names().contains(name)
    }

    /// A registry that can make the wireless widget.
    pub fn new() -> (r: Self)
        ensures
            r.names() == seq!["wifi"@],
    {
        let mut registry = ConfigurableComponentRegistry { factories: Vec::new() };
        assert(registry.names() =~= Seq::<Seq<char>>::empty());
        registry.register_wifi();
        registry
    }

    fn knows(&self, name: &str) -> (r: bool)
        ensures
            r == self.has(name@),
    {
        let mut i: usize = 0;
        while i < self.factories.len()
            invariant
                i <= self.factories.len(),
                forall|k: int| 0 <= k < i ==> self.names()[k] != name@,
            decreases self.factories.len() - i,
        {
            assert(self.names()[i as int] == self.factories[i as int]@);
            if str_eq(self.factories[i].as_str(), name) {
                return true;
            }
            i = i + 1;
        }
        false
    }

    /// Makes the wireless widget one of the kinds that can be made.
    pub fn register_wifi(&mut self)
        ensures
            final(self).names() == if old(self).has("wifi"@) {
                old(self).names()
            } else {
                old(self).names().push("wifi"@)
            },
    {
        if !self.knows("wifi") {
            self.factories.push(String::from_str("wifi"));
            assert(self.names() =~= old(self).names().push("wifi"@));
        }
    }

    /// Makes the widget of the kind `component_name` from a JSON value of
    /// settings. `None` where no such kind can be made, and where the
    /// value holds no settings for it.
    pub fn try_create(&self, component_name: &str, value: &Json, readings: &Readings) -> (r: Option<
        Result<Component, ComponentError>,
    >)
        ensures
            match r {
                Some(Ok(Component::Wifi(wifi))) => {
                    &&& self.has(component_name@)
                    &&& component_name@ == "wifi"@
                    &&& wifi_settings(value.deep_view()) matches Some(settings)
                    &&& wifi.fresh(
                        settings.sparkline,
                        settings.sparkline_length,
                        settings.sparkline_update_freq,
                        settings.sparkline_logarithmic,
                        borrowed(&readings.wifi),
                        readings.now,
                    )
                },
                Some(_) => false,
                None => !(self.has(component_name@) && component_name@ == "wifi"@ && wifi_settings(
                    value.deep_view(),
                ) is Some),
            },
    {
        if !self.knows(component_name) || !str_eq(component_name, "wifi") {
            return None;
        }
        match value {
            Json::Object(members) => {
                proof {
                    lemma_object_value(*members);
                }
                match (
                    read_flag(members, "sparkline"),
                    read_count(members, "sparkline_length", usize::MAX as u64),
                    read_count(members, "sparkline_update_freq", u64::MAX),
                    read_flag(members, "sparkline_logarithmic"),
                ) {
                    (Some(sparkline), Some(length), Some(freq), Some(logarithmic)) => {
                        let wifi = Wifi::with_config(
                            match sparkline {
                                Some(flag) => flag,
                                None => false,
                            },
                            match length {
                                Some(n) => n as usize,
                                None => 10,
                            },
                            match freq {
                                Some(n) => n,
                                None => 2,
                            },
                            match logarithmic {
                                Some(flag) => flag,
                                None => false,
                            },
                            readings.wifi.as_ref(),
                            readings.now,
                        );
                        Some(Ok(Component::Wifi(wifi)))
                    },
                    _ => None,
                }
            },
            _ => None,
        }
    }

    /// The name of the kind that a JSON value of settings is meant for.
    pub fn extract_component_name(value: &Json) -> (r: String)
        ensures
            r@ == component_name(value.deep_view()),
    {
        match text_at(value, "component") {
            Some(name) => name,
            None => String::from_str("unknown"),
        }
    }
}

} // verus!
