use catfood_bar::component_manager::{Component, ComponentError, ComponentManager, ManagerError};
use catfood_bar::components::battery::BatteryError;
use catfood_bar::config::{ComponentConfig, ComponentOptions, Config, ConfigError, ConfigSource};
use catfood_bar::json::Json;
use catfood_bar::readings::{BatteryReading, ClockReading, Readings};

fn names(entries: &Vec<ComponentConfig>) -> Vec<&str> {
    entries.iter().map(|entry| entry.name()).collect()
}

fn clock() -> ClockReading {
    ClockReading { text: "2024-05-01 12:30:00".to_string(), hour: 12 }
}

fn readings_with_battery() -> Readings {
    let mut readings = Readings::empty(100, clock());
    readings.battery = BatteryReading::Found { percentage: 80, is_charging: false };
    readings
}

fn bare(name: &str) -> ComponentConfig {
    ComponentConfig::String(name.to_string())
}

#[test]
fn test_default_config() {
    let config = Config::default();
    assert_eq!(names(&config.bars.left), vec!["workspaces"]);
    assert_eq!(names(&config.bars.middle), vec!["time", "weather"]);
    assert_eq!(config.bars.right.len(), 8);
}

#[test]
fn test_config_serialization() {
    let config = Config::default();
    let json = config.save().unwrap();
    let parsed: Config = Config::parse(&json).unwrap();
    assert_eq!(config.bars.left, parsed.bars.left);
    assert_eq!(config.bars.middle, parsed.bars.middle);
    assert_eq!(config.bars.right, parsed.bars.right);
}

#[test]
fn test_component_creation() {
    let component_names = vec!["time", "weather", "temperature"];
    let readings = readings_with_battery();
    for name in component_names {
        let result = Component::new(&bare(name), None, &readings);
        assert!(result.is_ok(), "Failed to create component: {}", name);
    }
}

#[test]
fn test_component_manager() {
    let readings = readings_with_battery();
    let manager = ComponentManager::new(&ConfigSource::Missing, None, &readings);
    assert!(manager.is_ok());

    let (manager, create) = manager.unwrap();
    assert!(create);
    let left_components = manager.get_bar_components("left");
    assert!(!left_components.is_empty());

    let middle_components = manager.get_bar_components("middle");
    assert_eq!(middle_components.len(), 2);

    let right_components = manager.get_bar_components("right");
    assert_eq!(right_components.len(), 8);
}

#[test]
fn default_config_has_colors_switched_on() {
    let config = Config::default();
    assert!(config.colorize);
    assert_eq!(
        names(&config.bars.right),
        vec!["temperature", "cpu", "ram", "wifi", "brightness", "volume", "separator", "battery"]
    );
}

#[test]
fn get_components_for_bar_knows_three_regions() {
    let config = Config::default();
    assert_eq!(names(config.get_components_for_bar("left").unwrap()), vec!["workspaces"]);
    assert_eq!(names(config.get_components_for_bar("middle").unwrap()), vec!["time", "weather"]);
    assert_eq!(config.get_components_for_bar("right").unwrap().len(), 8);
    assert!(config.get_components_for_bar("top").is_none());
    assert!(config.get_components_for_bar("Left").is_none());
    assert!(config.get_components_for_bar("").is_none());
}

#[test]
fn entry_getters_give_options_or_none() {
    let plain = bare("cpu");
    assert_eq!(plain.name(), "cpu");
    assert_eq!(plain.sparkline(), None);
    assert_eq!(plain.sparkline_length(), None);
    assert_eq!(plain.sparkline_update_freq(), None);
    assert_eq!(plain.sparkline_logarithmic(), None);
    let rich = ComponentConfig::Object(ComponentOptions {
        name: "wifi".to_string(),
        sparkline: Some(true),
        sparkline_length: Some(12),
        sparkline_update_freq: Some(4),
        sparkline_logarithmic: Some(false),
    });
    assert_eq!(rich.name(), "wifi");
    assert_eq!(rich.sparkline(), Some(true));
    assert_eq!(rich.sparkline_length(), Some(12));
    assert_eq!(rich.sparkline_update_freq(), Some(4));
    assert_eq!(rich.sparkline_logarithmic(), Some(false));
}

#[test]
fn parse_reads_bare_names_and_objects() {
    let text = r#"{"bars":{"left":["workspaces"],"middle":[{"name":"cpu","sparkline":true,"sparkline_length":5}],
        "right":[{"component":"wifi","sparkline_update_freq":7,"sparkline_logarithmic":true,"other":[1,2]}]},
        "colorize":false,"extra":1}"#;
    let config = Config::parse(text).unwrap();
    assert!(!config.colorize);
    assert_eq!(config.bars.left, vec![bare("workspaces")]);
    assert_eq!(
        config.bars.middle,
        vec![ComponentConfig::Object(ComponentOptions {
            name: "cpu".to_string(),
            sparkline: Some(true),
            sparkline_length: Some(5),
            sparkline_update_freq: None,
            sparkline_logarithmic: None,
        })]
    );
    assert_eq!(
        config.bars.right,
        vec![ComponentConfig::Object(ComponentOptions {
            name: "wifi".to_string(),
            sparkline: None,
            sparkline_length: None,
            sparkline_update_freq: Some(7),
            sparkline_logarithmic: Some(true),
        })]
    );
}

#[test]
fn parse_prefers_name_over_component() {
    let text = r#"{"bars":{"left":[{"component":"ram","name":"cpu"}],"middle":[],"right":[]},"colorize":true}"#;
    let config = Config::parse(text).unwrap();
    assert_eq!(names(&config.bars.left), vec!["cpu"]);
}

#[test]
fn parse_takes_other_shapes_as_unknown() {
    let text = r#"{"bars":{"left":[42, null, ["time"], {"sparkline":true}, {"name":7},
        {"name":"cpu","sparkline":"yes"}, {"name":"cpu","sparkline_length":-1}, {"name":"cpu","sparkline_length":1.5}],
        "middle":[],"right":[]},"colorize":true}"#;
    let config = Config::parse(text).unwrap();
    assert_eq!(config.bars.left.len(), 8);
    for entry in &config.bars.left {
        assert_eq!(entry, &bare("unknown"));
    }
}

#[test]
fn parse_reads_null_options_as_unset() {
    let text = r#"{"bars":{"left":[{"name":"cpu","sparkline":null,"sparkline_length":null}],"middle":[],"right":[]},
        "colorize":true}"#;
    let config = Config::parse(text).unwrap();
    assert_eq!(
        config.bars.left,
        vec![ComponentConfig::Object(ComponentOptions {
            name: "cpu".to_string(),
            sparkline: None,
            sparkline_length: None,
            sparkline_update_freq: None,
            sparkline_logarithmic: None,
        })]
    );
}

#[test]
fn parse_rejects_text_that_is_no_json() {
    assert!(matches!(Config::parse("{not json"), Err(ConfigError::Syntax(_))));
    assert!(matches!(Config::parse(""), Err(ConfigError::Syntax(_))));
}

#[test]
fn parse_rejects_json_that_is_no_document() {
    assert_eq!(Config::parse("[]"), Err(ConfigError::Malformed));
    assert_eq!(Config::parse(r#"{"bars":{"left":[],"middle":[],"right":[]}}"#), Err(ConfigError::Malformed));
    assert_eq!(Config::parse(r#"{"bars":{"left":[],"middle":[]},"colorize":true}"#), Err(ConfigError::Malformed));
    assert_eq!(
        Config::parse(r#"{"bars":{"left":[],"middle":[],"right":"time"},"colorize":true}"#),
        Err(ConfigError::Malformed)
    );
    assert_eq!(
        Config::parse(r#"{"bars":{"left":[],"middle":[],"right":[]},"colorize":"yes"}"#),
        Err(ConfigError::Malformed)
    );
}

#[test]
fn from_json_and_to_json_round_trip() {
    let config = Config {
        bars: catfood_bar::config::BarsConfig {
            left: vec![bare("workspaces"), bare("unknown")],
            middle: vec![ComponentConfig::Object(ComponentOptions {
                name: "wifi".to_string(),
                sparkline: Some(true),
                sparkline_length: Some(20),
                sparkline_update_freq: Some(u64::MAX),
                sparkline_logarithmic: Some(true),
            })],
            right: vec![],
        },
        colorize: false,
    };
    let json = config.to_json();
    assert_eq!(Config::from_json(&json), Ok(config.clone()));
    let text = config.save().unwrap();
    assert_eq!(Config::parse(&text), Ok(config));
}

#[test]
fn to_json_writes_the_document_shape() {
    let config = Config {
        bars: catfood_bar::config::BarsConfig { left: vec![bare("time")], middle: vec![], right: vec![] },
        colorize: true,
    };
    let expected = Json::Object(vec![
        (
            "bars".to_string(),
            Json::Object(vec![
                ("left".to_string(), Json::Array(vec![Json::String("time".to_string())])),
                ("middle".to_string(), Json::Array(vec![])),
                ("right".to_string(), Json::Array(vec![])),
            ]),
        ),
        ("colorize".to_string(), Json::Bool(true)),
    ]);
    assert_eq!(config.to_json(), expected);
}

#[test]
fn json_parse_builds_the_tree() {
    let json = Json::parse(r#"{"b":[1,-2,1.5,"x",null,true],"a":{}}"#).unwrap();
    let expected = Json::Object(vec![
        ("a".to_string(), Json::Object(vec![])),
        (
            "b".to_string(),
            Json::Array(vec![
                Json::Number(Some(1), Some(1)),
                Json::Number(None, Some(-2)),
                Json::Number(None, None),
                Json::String("x".to_string()),
                Json::Null,
                Json::Bool(true),
            ]),
        ),
    ]);
    assert_eq!(json, expected);
    assert!(Json::parse("{").is_err());
}

#[test]
fn json_pretty_string_is_indented_json() {
    let json = Json::Object(vec![("a".to_string(), Json::Array(vec![Json::Number(Some(1), Some(1))]))]);
    assert_eq!(json.to_pretty_string().unwrap(), "{\n  \"a\": [\n    1\n  ]\n}");
}

#[test]
fn load_uses_the_default_where_there_is_no_file() {
    let (config, create) = Config::load(&ConfigSource::Missing).unwrap();
    assert!(create);
    assert_eq!(config, Config::default());
}

#[test]
fn load_reads_the_file_and_does_not_ask_to_write_it() {
    let text = r#"{"bars":{"left":["time"],"middle":[],"right":[]},"colorize":false}"#.to_string();
    let (config, create) = Config::load(&ConfigSource::Text(text)).unwrap();
    assert!(!create);
    assert_eq!(names(&config.bars.left), vec!["time"]);
}

#[test]
fn load_and_reload_report_each_error() {
    let unreadable = ConfigSource::Unreadable("permission denied".to_string());
    assert_eq!(Config::load(&unreadable), Err(ConfigError::Unreadable("permission denied".to_string())));
    let current = Config::default();
    assert_eq!(current.reload(&unreadable), Err(ConfigError::Unreadable("permission denied".to_string())));
    assert!(matches!(current.reload(&ConfigSource::Text("nope".to_string())), Err(ConfigError::Syntax(_))));
    assert_eq!(current.reload(&ConfigSource::Text("{}".to_string())), Err(ConfigError::Malformed));
    assert_eq!(current.reload(&ConfigSource::Missing), Ok(Config::default()));
}

#[test]
fn manager_start_fails_without_a_battery() {
    let readings = Readings::empty(0, clock());
    let result = ComponentManager::new(&ConfigSource::Missing, None, &readings);
    assert_eq!(
        result.err(),
        Some(ManagerError::Component(ComponentError::Battery(BatteryError::NotFound)))
    );
    let mut unavailable = Readings::empty(0, clock());
    unavailable.battery = BatteryReading::Failed("no access".to_string());
    let result = ComponentManager::new(&ConfigSource::Missing, None, &unavailable);
    assert_eq!(
        result.err(),
        Some(ManagerError::Component(ComponentError::Battery(BatteryError::Unavailable("no access".to_string()))))
    );
}

#[test]
fn manager_start_fails_on_a_bad_configuration() {
    let readings = readings_with_battery();
    let result = ComponentManager::new(&ConfigSource::Text("{}".to_string()), None, &readings);
    assert_eq!(result.err(), Some(ManagerError::Config(ConfigError::Malformed)));
}
