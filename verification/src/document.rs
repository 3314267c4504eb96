//! The configuration document: which JSON trees are configurations, which
//! configuration each one is, and the tree that a configuration is written as.
//!
//! A document is an object with a boolean `colorize` and an object `bars`
//! whose members `left`, `middle` and `right` are arrays of entries. An entry
//! is a string, the widget's name, or an object with a string `name` (or,
//! failing that, `component`) and any of the options `sparkline`,
//! `sparkline_length`, `sparkline_update_freq` and `sparkline_logarithmic`.
//! Members that are not named here are ignored. An entry of any other shape
//! stands for a widget called `unknown`.

use vstd::prelude::*;
use vstd::string::*;
use crate::config::{
    BarsConfig, BarsConfigView, ComponentConfig, ComponentConfigView, ComponentOptions,
    ComponentOptionsView, Config, ConfigError, ConfigSource, ConfigView,
};
use crate::json::{find_member, lemma_array_value, lemma_object_value, member, parsed_json, pretty_json, Json, JsonValue};

verus! {

/// The name an entry is given where its shape is not recognised.
pub open spec fn unknown_entry() -> ComponentConfigView {
    ComponentConfigView::String("unknown"@)
}

/// The name of an entry written as an object: its `name` where that is a
/// string, else its `component` where that is a string.
pub open spec fn entry_name(members: Seq<(Seq<char>, JsonValue)>) -> Option<Seq<char>> {
    match member(members, "name"@) {
        Some(JsonValue::String(name)) => Some(name),
        _ => match member(members, "component"@) {
            Some(JsonValue::String(name)) => Some(name),
            _ => None,
        },
    }
}

/// An optional boolean member: absent or `null` is `Some(None)`, a boolean is
/// `Some(Some(_))`, anything else is `None`.
pub open spec fn flag_option(members: Seq<(Seq<char>, JsonValue)>, key: Seq<char>) -> Option<Option<bool>> {
    match member(members, key) {
        None => Some(None),
        Some(JsonValue::Null) => Some(None),
        Some(JsonValue::Bool(b)) => Some(Some(b)),
        _ => None,
    }
}

/// An optional member holding a count of at most `max`: absent or `null` is
/// `Some(None)`, such a count is `Some(Some(_))`, anything else is `None`.
pub open spec fn count_option(members: Seq<(Seq<char>, JsonValue)>, key: Seq<char>, max: u64) -> Option<Option<u64>> {
    match member(members, key) {
        None => Some(None),
        Some(JsonValue::Null) => Some(None),
        Some(JsonValue::Number(Some(n), _)) => if n <= max {
            Some(Some(n))
        } else {
            None
        },
        _ => None,
    }
}

/// The entry that an object with these members is, if it is one.
pub open spec fn object_entry(members: Seq<(Seq<char>, JsonValue)>) -> Option<ComponentOptionsView> {
    match (
        entry_name(members),
        flag_option(members, "sparkline"@),
        count_option(members, "sparkline_length"@, usize::MAX as u64),
        count_option(members, "sparkline_update_freq"@, u64::MAX),
        flag_option(members, "sparkline_logarithmic"@),
    ) {
        (Some(name), Some(sparkline), Some(length), Some(freq), Some(logarithmic)) => Some(
            ComponentOptionsView {
                name,
                sparkline,
                sparkline_length: match length {
                    Some(n) => Some(n as usize),
                    None => None,
                },
                sparkline_update_freq: freq,
                sparkline_logarithmic: logarithmic,
            },
        ),
        _ => None,
    }
}

/// The entry that a list element stands for.
pub open spec fn entry_of(value: JsonValue) -> ComponentConfigView {
    match value {
        JsonValue::String(name) => ComponentConfigView::String(name),
        JsonValue::Object(members) => match object_entry(members) {
            Some(options) => ComponentConfigView::Object(options),
            None => unknown_entry(),
        },
        _ => unknown_entry(),
    }
}

/// The region that a member of `bars` stands for: an array, entry by entry.
pub open spec fn region_of(value: Option<JsonValue>) -> Option<Seq<ComponentConfigView>> {
    match value {
        Some(JsonValue::Array(items)) => Some(Seq::new(items.len(), |i: int| entry_of(items[i]))),
        _ => None,
    }
}

/// The three regions that the value of `bars` stands for.
pub open spec fn bars_of(value: Option<JsonValue>) -> Option<BarsConfigView> {
    match value {
        Some(JsonValue::Object(members)) => match (
            region_of(member(members, "left"@)),
            region_of(member(members, "middle"@)),
            region_of(member(members, "right"@)),
        ) {
            (Some(left), Some(middle), Some(right)) => Some(BarsConfigView { left, middle, right }),
            _ => None,
        },
        _ => None,
    }
}

/// The configuration that a JSON tree is, or `None` where it is none.
pub open spec fn config_of(value: JsonValue) -> Option<ConfigView> {
    match value {
        JsonValue::Object(members) => match (bars_of(member(members, "bars"@)), member(members, "colorize"@)) {
            (Some(bars), Some(JsonValue::Bool(colorize))) => Some(ConfigView { bars, colorize }),
            _ => None,
        },
        _ => None,
    }
}

/// The configuration that a text is, or `None` where it is none.
pub open spec fn config_of_text(text: Seq<char>) -> Option<ConfigView> {
    match parsed_json(text) {
        Some(value) => config_of(value),
        None => None,
    }
}

/// The configuration that is to be had from what was found at the path: the
/// default layout where there is no file, the file's configuration where its
/// text is one, none otherwise.
pub open spec fn available(source: ConfigSource) -> Option<ConfigView> {
    match source {
        ConfigSource::Missing => Some(crate::config::default_layout()),
        ConfigSource::Unreadable(_) => None,
        ConfigSource::Text(text) => config_of_text(text@),
    }
}

/// Whether `error` is the error that `source` is refused with.
pub open spec fn rejection(source: ConfigSource, error: ConfigError) -> bool {
    match source {
        ConfigSource::Missing => false,
        ConfigSource::Unreadable(reason) => error matches ConfigError::Unreadable(text) && text@ == reason@,
        ConfigSource::Text(text) => if parsed_json(text@) is None {
            error is Syntax
        } else {
            error == ConfigError::Malformed
        },
    }
}

pub(crate) fn read_flag(members: &Vec<(String, Json)>, key: &str) -> (r: Option<Option<bool>>)
    ensures
        r == flag_option(members.deep_view(), key@),
{
    match find_member(members, key) {
        None => Some(None),
        Some(Json::Null) => Some(None),
        Some(Json::Bool(b)) => Some(Some(*b)),
        Some(_) => None,
    }
}

pub(crate) fn read_count(members: &Vec<(String, Json)>, key: &str, max: u64) -> (r: Option<Option<u64>>)
    ensures
        r == count_option(members.deep_view(), key@, max),
{
    match find_member(members, key) {
        None => Some(None),
        Some(Json::Null) => Some(None),
        Some(Json::Number(Some(n), _)) => if *n <= max {
            Some(Some(*n))
        } else {
            None
        },
        Some(_) => None,
    }
}

fn read_name(members: &Vec<(String, Json)>) -> (r: Option<String>)
    ensures
        r.deep_view() == entry_name(members.deep_view()),
{
    match find_member(members, "name") {
        Some(Json::String(name)) => Some(name.clone()),
        _ => match find_member(members, "component") {
            Some(Json::String(name)) => Some(name.clone()),
            _ => None,
        },
    }
}

fn read_object_entry(members: &Vec<(String, Json)>) -> (r: Option<ComponentOptions>)
    ensures
        r.deep_view() == object_entry(members.deep_view()),
{
    let name = read_name(members);
    let sparkline = read_flag(members, "sparkline");
    let length = read_count(members, "sparkline_length", usize::MAX as u64);
    let freq = read_count(members, "sparkline_update_freq", u64::MAX);
    let logarithmic = read_flag(members, "sparkline_logarithmic");
    match (name, sparkline, length, freq, logarithmic) {
        (Some(name), Some(sparkline), Some(length), Some(freq), Some(logarithmic)) => Some(
            ComponentOptions {
                name,
                sparkline,
                sparkline_length: match length {
                    Some(n) => Some(n as usize),
                    None => None,
                },
                sparkline_update_freq: freq,
                sparkline_logarithmic: logarithmic,
            },
        ),
        _ => None,
    }
}

fn read_entry(json: &Json) -> (r: ComponentConfig)
    ensures
        r@ == entry_of(json.deep_view()),
{
    match json {
        Json::String(name) => ComponentConfig::String(name.clone()),
        Json::Object(members) => {
            proof {
                lemma_object_value(*members);
            }
            match read_object_entry(members) {
                Some(options) => ComponentConfig::Object(options),
                None => ComponentConfig::String(String::from_str("unknown")),
            }
        },
        _ => ComponentConfig::String(String::from_str("unknown")),
    }
}

fn read_region(json: Option<&Json>) -> (r: Option<Vec<ComponentConfig>>)
    ensures
        r.deep_view() == region_of(json.deep_view()),
{
    match json {
        Some(Json::Array(items)) => {
            proof {
                lemma_array_value(*items);
            }
            let mut entries: Vec<ComponentConfig> = Vec::new();
            let mut i: usize = 0;
            while i < items.len()
                invariant
                    i <= items.len(),
                    entries.len() == i,
                    forall|k: int| 0 <= k < i ==> entries[k]@ == entry_of(#[trigger] items[k].deep_view()),
                decreases items.len() - i,
            {
                entries.push(read_entry(&items[i]));
                i = i + 1;
            }
            assert(entries.deep_view() =~= region_of(json.deep_view())->0);
            Some(entries)
        },
        _ => None,
    }
}

fn read_bars(json: Option<&Json>) -> (r: Option<BarsConfig>)
    ensures
        match r {
            Some(bars) => bars_of(json.deep_view()) == Some(bars@),
            None => bars_of(json.deep_view()) is None,
        },
{
    match json {
        Some(Json::Object(members)) => {
            proof {
                lemma_object_value(*members);
            }
            let left = read_region(find_member(members, "left"));
            let middle = read_region(find_member(members, "middle"));
            let right = read_region(find_member(members, "right"));
            match (left, middle, right) {
                (Some(left), Some(middle), Some(right)) => Some(BarsConfig { left, middle, right }),
                _ => None,
            }
        },
        _ => None,
    }
}

/// The tree that an entry is written as: a bare name as a string, an entry
/// with options as an object of all five members, `null` for an option that
/// is not set.
pub open spec fn entry_document(entry: ComponentConfigView) -> JsonValue {
    match entry {
        ComponentConfigView::String(name) => JsonValue::String(name),
        ComponentConfigView::Object(options) => JsonValue::Object(
            seq![
                ("name"@, JsonValue::String(options.name)),
                ("sparkline"@, flag_document(options.sparkline)),
                ("sparkline_length"@, count_document(match options.sparkline_length {
                    Some(n) => Some(n as u64),
                    None => None,
                })),
                ("sparkline_update_freq"@, count_document(options.sparkline_update_freq)),
                ("sparkline_logarithmic"@, flag_document(options.sparkline_logarithmic)),
            ],
        ),
    }
}

/// The tree that an optional boolean is written as.
pub open spec fn flag_document(flag: Option<bool>) -> JsonValue {
    match flag {
        Some(b) => JsonValue::Bool(b),
        None => JsonValue::Null,
    }
}

/// The tree that an optional count is written as.
pub open spec fn count_document(count: Option<u64>) -> JsonValue {
    match count {
        Some(n) => JsonValue::Number(Some(n), if n <= i64::MAX as u64 {
            Some(n as i64)
        } else {
            None
        }),
        None => JsonValue::Null,
    }
}

/// The tree that a region is written as.
pub open spec fn region_document(entries: Seq<ComponentConfigView>) -> JsonValue {
    JsonValue::Array(Seq::new(entries.len(), |i: int| entry_document(entries[i])))
}

/// The tree that a configuration is written as.
pub open spec fn document_of(config: ConfigView) -> JsonValue {
    JsonValue::Object(
        seq![
            (
                "bars"@,
                JsonValue::Object(
                    seq![
                        ("left"@, region_document(config.bars.left)),
                        ("middle"@, region_document(config.bars.middle)),
                        ("right"@, region_document(config.bars.right)),
                    ],
                ),
            ),
            ("colorize"@, JsonValue::Bool(config.colorize)),
        ],
    )
}

fn write_flag(flag: Option<bool>) -> (r: Json)
    ensures
        r.deep_view() == flag_document(flag),
{
    match flag {
        Some(b) => Json::Bool(b),
        None => Json::Null,
    }
}

fn write_count(count: Option<u64>) -> (r: Json)
    ensures
        r.deep_view() == count_document(count),
{
    match count {
        Some(n) => Json::Number(Some(n), if n <= i64::MAX as u64 {
            Some(n as i64)
        } else {
            None
        }),
        None => Json::Null,
    }
}

fn keyed(key: &str, value: Json) -> (r: (String, Json))
    ensures
        r.deep_view() == (key@, value.deep_view()),
{
    (String::from_str(key), value)
}

fn write_entry(entry: &ComponentConfig) -> (r: Json)
    ensures
        r.deep_view() == entry_document(entry@),
{
    match entry {
        ComponentConfig::String(name) => Json::String(name.clone()),
        ComponentConfig::Object(options) => {
            let mut members: Vec<(String, Json)> = Vec::new();
            members.push(keyed("name", Json::String(options.name.clone())));
            members.push(keyed("sparkline", write_flag(options.sparkline)));
            members.push(keyed("sparkline_length", write_count(match options.sparkline_length {
                Some(n) => Some(n as u64),
                None => None,
            })));
            members.push(keyed("sparkline_update_freq", write_count(options.sparkline_update_freq)));
            members.push(keyed("sparkline_logarithmic", write_flag(options.sparkline_logarithmic)));
            proof {
                lemma_object_value(members);
                assert(members.deep_view() =~= entry_document(entry@)->Object_0);
            }
            Json::Object(members)
        },
    }
}

fn write_region(entries: &Vec<ComponentConfig>) -> (r: Json)
    ensures
        r.deep_view() == region_document(entries.deep_view()),
{
    let mut items: Vec<Json> = Vec::new();
    let mut i: usize = 0;
    while i < entries.len()
        invariant
            i <= entries.len(),
            items.len() == i,
            forall|k: int| 0 <= k < i ==> #[trigger] items[k].deep_view() == entry_document(entries[k]@),
        decreases entries.len() - i,
    {
        items.push(write_entry(&entries[i]));
        i = i + 1;
    }
    proof {
        lemma_array_value(items);
        assert(items.deep_view() =~= region_document(entries.deep_view())->Array_0);
    }
    Json::Array(items)
}

impl Config {
    /// Reads a configuration from a JSON tree. A tree that is no
    /// configuration document gives `Malformed`.
    pub fn from_json(json: &Json) -> (r: Result<Config, ConfigError>)
        ensures
            match r {
                Ok(config) => config_of(json.deep_view()) == Some(config@),
                Err(error) => config_of(json.deep_view()) is None && error == ConfigError::Malformed,
            },
    {
        match json {
            Json::Object(members) => {
                proof {
                    lemma_object_value(*members);
                }
                let bars = read_bars(find_member(members, "bars"));
                match (bars, find_member(members, "colorize")) {
                    (Some(bars), Some(Json::Bool(colorize))) => Ok(Config { bars, colorize: *colorize }),
                    _ => Err(ConfigError::Malformed),
                }
            },
            _ => Err(ConfigError::Malformed),
        }
    }

    /// Reads a configuration from JSON text.
    ///
    /// A text that is no JSON gives `Syntax`; JSON that is no configuration
    /// document gives `Malformed`.
    pub fn parse(text: &str) -> (r: Result<Config, ConfigError>)
        ensures
            match r {
                Ok(config) => config_of_text(text@) == Some(config@),
                Err(ConfigError::Syntax(_)) => parsed_json(text@) is None,
                Err(ConfigError::Malformed) => parsed_json(text@) is Some && config_of_text(text@) is None,
                Err(ConfigError::Unreadable(_)) => false,
            },
    {
        match Json::parse(text) {
            Ok(json) => Config::from_json(&json),
            Err(message) => Err(ConfigError::Syntax(message)),
        }
    }

    /// The text that is written to the configuration file: the document as
    /// indented JSON. `None` where the writer reports an error.
    pub fn save(&self) -> (r: Option<String>)
        ensures
            r.deep_view() == pretty_json(document_of(self@)),
    {
        self.to_json().to_pretty_string()
    }

    /// The configuration to start with, given what was found at its path, and
    /// whether the file has to be created: where there is no file, the
    /// default layout is used and has to be written out.
    pub fn load(source: &ConfigSource) -> (r: Result<(Config, bool), ConfigError>)
        ensures
            match r {
                Ok((config, create)) => available(*source) == Some(config@) && create == (source is Missing),
                Err(error) => available(*source) is None && rejection(*source, error),
            },
    {
        match source {
            ConfigSource::Missing => Ok((Config::default(), true)),
            ConfigSource::Unreadable(reason) => Err(ConfigError::Unreadable(reason.clone())),
            ConfigSource::Text(text) => match Config::parse(text.as_str()) {
                Ok(config) => Ok((config, false)),
                Err(error) => Err(error),
            },
        }
    }

    /// The configuration to switch to, given what is now found at the path.
    /// Nothing of `self` is changed; where the file has gone, the default
    /// layout is the answer.
    pub fn reload(&self, source: &ConfigSource) -> (r: Result<Config, ConfigError>)
        ensures
            match r {
                Ok(config) => available(*source) == Some(config@),
                Err(error) => available(*source) is None && rejection(*source, error),
            },
    {
        match source {
            ConfigSource::Missing => Ok(Config::default()),
            ConfigSource::Unreadable(reason) => Err(ConfigError::Unreadable(reason.clone())),
            ConfigSource::Text(text) => Config::parse(text.as_str()),
        }
    }

    /// The JSON tree that this configuration is written as.
    pub fn to_json(&self) -> (r: Json)
        ensures
            r.deep_view() == document_of(self@),
    {
        let mut bars: Vec<(String, Json)> = Vec::new();
        bars.push(keyed("left", write_region(&self.bars.left)));
        bars.push(keyed("middle", write_region(&self.bars.middle)));
        bars.push(keyed("right", write_region(&self.bars.right)));
        let mut root: Vec<(String, Json)> = Vec::new();
        proof {
            lemma_object_value(bars);
            assert(bars.deep_view() =~= document_of(self@)->Object_0[0].1->Object_0);
        }
        root.push(keyed("bars", Json::Object(bars)));
        root.push(keyed("colorize", Json::Bool(self.colorize)));
        proof {
            lemma_object_value(root);
            assert(root.deep_view() =~= document_of(self@)->Object_0);
        }
        Json::Object(root)
    }
}


/// The member found under `key` in a list of members with distinct keys.
proof fn lemma_member_at(members: Seq<(Seq<char>, JsonValue)>, k: int)
    requires
        0 <= k < members.len(),
        forall|j: int| 0 <= j < k ==> (#[trigger] members[j]).0 != members[k].0,
    ensures
        member(members, members[k].0) == Some(members[k].1),
    decreases k,
{
    if k > 0 {
        let rest = members.drop_first();
        assert(rest[k - 1] == members[k]);
        assert forall|j: int| 0 <= j < k - 1 implies (#[trigger] rest[j]).0 != rest[k - 1].0 by {
            assert(rest[j] == members[j + 1]);
        }
        lemma_member_at(rest, k - 1);
    }
}

/// An entry that is written out and read back is the same entry.
pub proof fn lemma_entry_round_trip(entry: ComponentConfigView)
    ensures
        entry_of(entry_document(entry)) == entry,
{
    reveal_strlit("name");
    reveal_strlit("sparkline");
    reveal_strlit("sparkline_length");
    reveal_strlit("sparkline_update_freq");
    reveal_strlit("sparkline_logarithmic");
    match entry {
        ComponentConfigView::String(_) => {},
        ComponentConfigView::Object(options) => {
            let members = entry_document(entry)->Object_0;
            assert("name"@.len() == 4);
            assert("sparkline"@.len() == 9);
            assert("sparkline_length"@.len() == 16);
            assert("sparkline_update_freq"@.len() == 21);
            assert("sparkline_logarithmic"@.len() == 21);
            assert("sparkline_update_freq"@[10] != "sparkline_logarithmic"@[10]);
            assert(members[0].0 == "name"@);
            assert(members[1].0 == "sparkline"@);
            assert(members[2].0 == "sparkline_length"@);
            assert(members[3].0 == "sparkline_update_freq"@);
            assert(members[4].0 == "sparkline_logarithmic"@);
            lemma_member_at(members, 0);
            lemma_member_at(members, 1);
            lemma_member_at(members, 2);
            lemma_member_at(members, 3);
            lemma_member_at(members, 4);
        },
    }
}

/// A configuration that is written out as a tree and read back is the same
/// configuration.
pub proof fn lemma_document_round_trip(config: ConfigView)
    ensures
        config_of(document_of(config)) == Some(config),
{
    reveal_strlit("bars");
    reveal_strlit("colorize");
    reveal_strlit("left");
    reveal_strlit("middle");
    reveal_strlit("right");
    let root = document_of(config)->Object_0;
    let bars = root[0].1->Object_0;
    assert("bars"@.len() == 4);
    assert("colorize"@.len() == 8);
    assert("left"@.len() == 4);
    assert("middle"@.len() == 6);
    assert("right"@.len() == 5);
    assert(root[0].0 == "bars"@);
    assert(root[1].0 == "colorize"@);
    assert(bars[0].0 == "left"@);
    assert(bars[1].0 == "middle"@);
    assert(bars[2].0 == "right"@);
    lemma_member_at(root, 0);
    lemma_member_at(root, 1);
    lemma_member_at(bars, 0);
    lemma_member_at(bars, 1);
    lemma_member_at(bars, 2);
    lemma_region_round_trip(config.bars.left);
    lemma_region_round_trip(config.bars.middle);
    lemma_region_round_trip(config.bars.right);
}

/// A region that is written out and read back is the same region.
pub proof fn lemma_region_round_trip(entries: Seq<ComponentConfigView>)
    ensures
        region_of(Some(region_document(entries))) == Some(entries),
{
    let items = region_document(entries)->Array_0;
    assert forall|i: int| 0 <= i < entries.len() implies entry_of(items[i]) == entries[i] by {
        lemma_entry_round_trip(entries[i]);
    }
    assert(region_of(Some(region_document(entries)))->0 =~= entries);
}

} // verus!
