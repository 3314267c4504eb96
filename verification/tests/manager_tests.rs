use catfood_bar::bars::{Alignment, LeftBar, MiddleBar, RightBar};
use catfood_bar::component_manager::{
    builtin_kind, initial_probes, Component, ComponentError, ComponentManager, Kind, ManagerError, Probe,
};
use catfood_bar::components::battery::BatteryError;
use catfood_bar::config::{BarsConfig, ComponentConfig, ComponentOptions, Config, ConfigError, ConfigSource};
use catfood_bar::lua_component::{LuaComponentRegistry, ScriptFile};
use catfood_bar::readings::{BatteryReading, ClockReading, CommandOutput, Readings, VolumeReading};
use catfood_bar::style::{Color, Span};

fn plain(text: &str) -> Span {
    Span { content: text.to_string(), fg: None, bg: None }
}

fn colored(text: &str, fg: Color) -> Span {
    Span { content: text.to_string(), fg: Some(fg), bg: None }
}

fn bare(name: &str) -> ComponentConfig {
    ComponentConfig::String(name.to_string())
}

fn with_options(name: &str, sparkline: Option<bool>, length: Option<usize>, freq: Option<u64>) -> ComponentConfig {
    ComponentConfig::Object(ComponentOptions {
        name: name.to_string(),
        sparkline,
        sparkline_length: length,
        sparkline_update_freq: freq,
        sparkline_logarithmic: None,
    })
}

fn layout(left: Vec<ComponentConfig>, middle: Vec<ComponentConfig>, right: Vec<ComponentConfig>) -> Config {
    Config { bars: BarsConfig { left, middle, right }, colorize: false }
}

fn readings(now: u64) -> Readings {
    let mut readings = Readings::empty(now, ClockReading { text: "2024-05-01 12:30:00".to_string(), hour: 12 });
    readings.battery = BatteryReading::Found { percentage: 80, is_charging: false };
    readings
}

fn render(components: &Vec<&Component>, colorize: bool) -> Vec<Vec<Span>> {
    components.iter().map(|component| component.render_as_spans_with_muting_and_colorize(colorize)).collect()
}

const SCENARIO: &str =
    r#"{"bars":{"left":["workspaces"],"middle":["time"],"right":["time"]},"colorize":false}"#;

#[test]
fn unknown_names_give_the_error_widget() {
    for name in ["", "clock", "Time", "time ", "cpu2", "unknown", "battery!", "\u{1f600}"] {
        let component = Component::new(&bare(name), None, &Readings::empty(0, ClockReading {
            text: String::new(),
            hour: 0,
        }));
        assert!(matches!(component, Ok(Component::ErrorIcon(_))), "{}", name);
        let empty = LuaComponentRegistry::new();
        let component = Component::new(&with_options(name, Some(true), Some(3), Some(1)), Some(&empty), &readings(0));
        assert!(matches!(component, Ok(Component::ErrorIcon(_))), "{}", name);
    }
}

#[test]
fn builtin_names_give_their_kind() {
    let expected = [
        ("workspaces", Kind::Workspaces),
        ("windows", Kind::Windows),
        ("time", Kind::Time),
        ("weather", Kind::Weather),
        ("temperature", Kind::Temperature),
        ("cpu", Kind::Cpu),
        ("ram", Kind::Ram),
        ("wifi", Kind::Wifi),
        ("brightness", Kind::Brightness),
        ("volume", Kind::Volume),
        ("battery", Kind::Battery),
        ("separator", Kind::Separator),
        ("space", Kind::Space),
    ];
    for (name, kind) in expected {
        assert_eq!(builtin_kind(name), Some(kind));
    }
    assert_eq!(builtin_kind("error"), None);
    assert_eq!(builtin_kind("vpn"), None);
    assert_eq!(builtin_kind("lua"), None);
    let now = readings(7);
    assert!(matches!(Component::new(&bare("workspaces"), None, &now), Ok(Component::Workspaces(_))));
    assert!(matches!(Component::new(&bare("windows"), None, &now), Ok(Component::Windows(_))));
    assert!(matches!(Component::new(&bare("time"), None, &now), Ok(Component::Time(_))));
    assert!(matches!(Component::new(&bare("weather"), None, &now), Ok(Component::Weather(_))));
    assert!(matches!(Component::new(&bare("temperature"), None, &now), Ok(Component::Temperature(_))));
    assert!(matches!(Component::new(&bare("brightness"), None, &now), Ok(Component::Brightness(_))));
    assert!(matches!(Component::new(&bare("volume"), None, &now), Ok(Component::Volume(_))));
    assert!(matches!(Component::new(&bare("battery"), None, &now), Ok(Component::Battery(_))));
    assert!(matches!(Component::new(&bare("separator"), None, &now), Ok(Component::Separator(_))));
    assert!(matches!(Component::new(&bare("space"), None, &now), Ok(Component::Space(_))));
}

#[test]
fn options_have_their_defaults() {
    let now = readings(7);
    match Component::new(&bare("cpu"), None, &now).unwrap() {
        Component::Cpu(cpu) => {
            assert!(!cpu.sparkline.enabled);
            assert_eq!(cpu.sparkline.length, 10);
            assert_eq!(cpu.update_interval, 3);
            assert_eq!(cpu.last_update, 7);
        }
        other => panic!("{:?}", other),
    }
    match Component::new(&bare("ram"), None, &now).unwrap() {
        Component::Ram(ram) => {
            assert!(!ram.sparkline.enabled);
            assert_eq!(ram.sparkline.length, 10);
            assert_eq!(ram.update_interval, 2);
        }
        other => panic!("{:?}", other),
    }
    match Component::new(&bare("wifi"), None, &now).unwrap() {
        Component::Wifi(wifi) => {
            assert!(!wifi.sparkline.enabled);
            assert!(!wifi.sparkline.logarithmic);
            assert_eq!(wifi.sparkline.length, 10);
            assert_eq!(wifi.update_interval, 2);
        }
        other => panic!("{:?}", other),
    }
    let entry = ComponentConfig::Object(ComponentOptions {
        name: "wifi".to_string(),
        sparkline: Some(true),
        sparkline_length: Some(4),
        sparkline_update_freq: Some(9),
        sparkline_logarithmic: Some(true),
    });
    match Component::new(&entry, None, &now).unwrap() {
        Component::Wifi(wifi) => {
            assert!(wifi.sparkline.enabled);
            assert!(wifi.sparkline.logarithmic);
            assert_eq!(wifi.sparkline.length, 4);
            assert_eq!(wifi.update_interval, 9);
        }
        other => panic!("{:?}", other),
    }
}

#[test]
fn battery_is_the_one_widget_that_can_fail() {
    let mut without = readings(0);
    without.battery = BatteryReading::Missing;
    assert_eq!(
        Component::new(&bare("battery"), None, &without).err(),
        Some(ComponentError::Battery(BatteryError::NotFound))
    );
    for name in ["time", "cpu", "wifi", "volume", "nothing"] {
        assert!(Component::new(&bare(name), None, &without).is_ok());
    }
}

#[test]
fn a_name_in_several_regions_has_one_widget_made_for_its_first_entry() {
    let config = layout(
        vec![with_options("cpu", Some(true), Some(4), Some(1)), bare("time")],
        vec![bare("cpu"), bare("time")],
        vec![with_options("cpu", Some(false), Some(9), Some(8)), with_options("ram", None, Some(3), None), bare("ram")],
    );
    let manager = ComponentManager::build(config, LuaComponentRegistry::new(), &readings(5)).unwrap();
    let left = manager.get_bar_components("left");
    let middle = manager.get_bar_components("middle");
    let right = manager.get_bar_components("right");
    assert_eq!((left.len(), middle.len(), right.len()), (2, 2, 3));
    assert!(std::ptr::eq(left[0], middle[0]));
    assert!(std::ptr::eq(left[0], right[0]));
    assert!(std::ptr::eq(left[1], middle[1]));
    assert!(std::ptr::eq(right[1], right[2]));
    match left[0] {
        Component::Cpu(cpu) => {
            assert!(cpu.sparkline.enabled);
            assert_eq!(cpu.sparkline.length, 4);
            assert_eq!(cpu.update_interval, 1);
        }
        other => panic!("{:?}", other),
    }
    match right[1] {
        Component::Ram(ram) => assert_eq!(ram.sparkline.length, 3),
        other => panic!("{:?}", other),
    }
}

#[test]
fn a_name_twice_in_one_region_keeps_its_first_entry() {
    let config = layout(
        vec![with_options("cpu", None, Some(2), None), with_options("cpu", None, Some(7), None)],
        vec![],
        vec![],
    );
    let manager = ComponentManager::build(config, LuaComponentRegistry::new(), &readings(5)).unwrap();
    let left = manager.get_bar_components("left");
    assert_eq!(left.len(), 2);
    assert!(std::ptr::eq(left[0], left[1]));
    match left[0] {
        Component::Cpu(cpu) => assert_eq!(cpu.sparkline.length, 2),
        other => panic!("{:?}", other),
    }
}

#[test]
fn regions_share_the_time_widget() {
    let (manager, create) =
        ComponentManager::new(&ConfigSource::Text(SCENARIO.to_string()), None, &readings(0)).unwrap();
    assert!(!create);
    assert!(!manager.get_colorize());
    let middle = manager.get_bar_components("middle");
    let right = manager.get_bar_components("right");
    let direct = manager.get("time").unwrap();
    assert_eq!(middle.len(), 1);
    assert_eq!(right.len(), 1);
    assert!(std::ptr::eq(middle[0], right[0]));
    assert!(std::ptr::eq(middle[0], direct));
    assert!(matches!(direct, Component::Time(_)));
    assert!(matches!(manager.get_bar_components("left")[0], Component::Workspaces(_)));
    assert!(manager.get("cpu").is_none());
    assert!(manager.get_bar_components("top").is_empty());
}

#[test]
fn a_failed_reload_leaves_the_regions_as_they_were() {
    let (mut manager, _) =
        ComponentManager::new(&ConfigSource::Text(SCENARIO.to_string()), None, &readings(0)).unwrap();
    let before: Vec<Vec<Vec<Span>>> =
        ["left", "middle", "right"].iter().map(|bar| render(&manager.get_bar_components(bar), true)).collect();
    let mut later = readings(50);
    later.clock = ClockReading { text: "later".to_string(), hour: 23 };
    let broken = ConfigSource::Text("{ this is not json".to_string());
    assert!(matches!(manager.reload(&broken, None, &later), Err(ManagerError::Config(ConfigError::Syntax(_)))));
    let unreadable = ConfigSource::Unreadable("denied".to_string());
    assert_eq!(
        manager.reload(&unreadable, None, &later),
        Err(ManagerError::Config(ConfigError::Unreadable("denied".to_string())))
    );
    let no_document = ConfigSource::Text("[1, 2]".to_string());
    assert_eq!(manager.reload(&no_document, None, &later), Err(ManagerError::Config(ConfigError::Malformed)));
    let mut no_battery = readings(50);
    no_battery.battery = BatteryReading::Missing;
    let wants_battery = ConfigSource::Text(
        r#"{"bars":{"left":["cpu"],"middle":["battery"],"right":[]},"colorize":true}"#.to_string(),
    );
    assert_eq!(
        manager.reload(&wants_battery, None, &no_battery),
        Err(ManagerError::Component(ComponentError::Battery(BatteryError::NotFound)))
    );
    let after: Vec<Vec<Vec<Span>>> =
        ["left", "middle", "right"].iter().map(|bar| render(&manager.get_bar_components(bar), true)).collect();
    assert_eq!(before, after);
    assert!(!manager.get_colorize());
    assert!(manager.get("cpu").is_none());
}

#[test]
fn a_reload_that_succeeds_swaps_everything() {
    let (mut manager, _) =
        ComponentManager::new(&ConfigSource::Text(SCENARIO.to_string()), None, &readings(0)).unwrap();
    let plugin = ScriptFile {
        file_name: "disk.lua".to_string(),
        source: Some(r#"return { render = function() return "disk" end }"#.to_string()),
    };
    let next = ConfigSource::Text(
        r#"{"bars":{"left":["disk"],"middle":["space"],"right":["mystery"]},"colorize":true}"#.to_string(),
    );
    assert_eq!(manager.reload(&next, Some(&vec![plugin]), &readings(9)), Ok(()));
    assert!(manager.get_colorize());
    assert!(manager.get("time").is_none());
    assert!(manager.get("workspaces").is_none());
    assert_eq!(render(&manager.get_bar_components("left"), true), vec![vec![plain("disk")]]);
    assert_eq!(render(&manager.get_bar_components("middle"), true), vec![vec![plain(" ")]]);
    assert_eq!(render(&manager.get_bar_components("right"), true), vec![vec![plain(" \u{ef}\u{b1} ")]]);
    assert_eq!(manager.reload(&ConfigSource::Text(SCENARIO.to_string()), None, &readings(9)), Ok(()));
    assert!(manager.get("disk").is_none());
    assert!(matches!(manager.get("time"), Some(Component::Time(_))));
}

#[test]
fn a_reload_without_a_file_goes_back_to_the_default() {
    let (mut manager, _) =
        ComponentManager::new(&ConfigSource::Text(SCENARIO.to_string()), None, &readings(0)).unwrap();
    assert_eq!(manager.reload(&ConfigSource::Missing, None, &readings(1)), Ok(()));
    assert_eq!(manager.get_bar_components("right").len(), 8);
    assert!(manager.get_colorize());
}

#[test]
fn building_twice_renders_the_same() {
    let config = Config::default();
    let mut now = readings(3);
    now.volume = Some(VolumeReading { level: 20, is_muted: true });
    now.brightness = Some(CommandOutput { success: true, stdout: "(40%)".to_string(), stderr: String::new() });
    let first = ComponentManager::build(config.clone(), LuaComponentRegistry::new(), &now).unwrap();
    let second = ComponentManager::build(config, LuaComponentRegistry::new(), &now).unwrap();
    for bar in ["left", "middle", "right"] {
        for colorize in [true, false] {
            assert_eq!(
                render(&first.get_bar_components(bar), colorize),
                render(&second.get_bar_components(bar), colorize)
            );
        }
    }
}

#[test]
fn a_pass_refreshes_every_widget_and_a_failing_plugin_shows_its_marker() {
    let failing = ScriptFile {
        file_name: "bad.lua".to_string(),
        source: Some(
            r#"return { update = function() error("boom") end, render = function() return "bad" end }"#.to_string(),
        ),
    };
    let source = ConfigSource::Text(
        r#"{"bars":{"left":["bad","battery"],"middle":["time"],"right":["volume"]},"colorize":true}"#.to_string(),
    );
    let (mut manager, _) = ComponentManager::new(&source, Some(&vec![failing]), &readings(0)).unwrap();
    let mut later = readings(10);
    later.clock = ClockReading { text: "2024-05-01 20:00:00".to_string(), hour: 20 };
    later.volume = Some(VolumeReading { level: 55, is_muted: true });
    later.battery = BatteryReading::Missing;
    assert!(manager.plugin_failures().is_empty());
    let outcome = manager.update(&later);
    assert_eq!(outcome, Err(ComponentError::Battery(BatteryError::NotFound)));
    let failures = manager.plugin_failures();
    assert_eq!(failures.len(), 1);
    assert_eq!(failures[0].0, "bad");
    assert!(failures[0].1.contains("boom"));
    assert_eq!(
        render(&manager.get_bar_components("middle"), true),
        vec![vec![colored("2024-05-01 20:00:00", Color::Magenta)]]
    );
    assert_eq!(
        render(&manager.get_bar_components("right"), true),
        vec![vec![colored("\u{f075f} 55%", Color::DarkGray)]]
    );
    assert_eq!(
        render(&manager.get_bar_components("left"), true),
        vec![vec![plain("\u{274c} bad")], vec![colored("\u{f0079} 80%", Color::Green)]]
    );
    let mut fine = readings(20);
    fine.battery = BatteryReading::Found { percentage: 9, is_charging: false };
    assert_eq!(manager.update(&fine), Ok(()));
    assert_eq!(manager.plugin_failures().len(), 1);
    assert_eq!(
        render(&manager.get_bar_components("left"), true)[1],
        vec![colored("\u{f0079} 9%", Color::Red)]
    );
}

#[test]
fn a_pass_without_failures_is_ok() {
    let (mut manager, _) =
        ComponentManager::new(&ConfigSource::Text(SCENARIO.to_string()), None, &readings(0)).unwrap();
    assert_eq!(manager.update(&readings(1)), Ok(()));
    let (mut manager, _) = ComponentManager::new(&ConfigSource::Missing, None, &readings(0)).unwrap();
    let mut later = readings(10);
    later.battery = BatteryReading::Failed("gone".to_string());
    assert_eq!(
        manager.update(&later),
        Err(ComponentError::Battery(BatteryError::Unavailable("gone".to_string())))
    );
    assert_eq!(manager.update(&readings(1)), Ok(()));
}

#[test]
fn probes_name_the_sources_that_are_due() {
    let config = layout(vec![bare("cpu"), bare("time")], vec![bare("volume"), bare("cpu")], vec![bare("battery")]);
    assert_eq!(initial_probes(&config), vec![Probe::Volume, Probe::Battery]);
    assert_eq!(
        initial_probes(&Config::default()),
        vec![Probe::Workspaces, Probe::Wifi, Probe::Brightness, Probe::Volume, Probe::Battery]
    );
    let manager = ComponentManager::build(config, LuaComponentRegistry::new(), &readings(100)).unwrap();
    assert_eq!(manager.probes(100), vec![Probe::Volume]);
    assert_eq!(manager.probes(102), vec![Probe::Volume]);
    assert_eq!(manager.probes(103), vec![Probe::Cpu, Probe::Volume, Probe::Battery]);
    assert_eq!(manager.probes(5), vec![Probe::Volume]);
}

#[test]
fn muted_volume_is_drawn_dark_gray() {
    let mut now = readings(0);
    now.volume = Some(VolumeReading { level: 20, is_muted: true });
    let volume = Component::new(&bare("volume"), None, &now).unwrap();
    assert!(volume.is_muted());
    assert_eq!(volume.render_as_spans_with_colorize(true), vec![plain("\u{f075f} 20%")]);
    assert_eq!(
        volume.render_as_spans_with_muting_and_colorize(true),
        vec![colored("\u{f075f} 20%", Color::DarkGray)]
    );
    assert_eq!(
        volume.render_as_spans_with_muting_and_colorize(false),
        vec![colored("\u{f075f} 20%", Color::DarkGray)]
    );
    let time = Component::new(&bare("time"), None, &now).unwrap();
    assert!(!time.is_muted());
    assert_eq!(time.render_as_spans_with_muting_and_colorize(false), vec![plain("2024-05-01 12:30:00")]);
    let separator = Component::new(&bare("separator"), None, &now).unwrap();
    assert_eq!(separator.render_as_spans_with_colorize(true), vec![plain(" | ")]);
    let space = Component::new(&bare("space"), None, &now).unwrap();
    assert_eq!(space.render_as_spans_with_colorize(true), vec![plain(" ")]);
}

#[test]
fn regions_draw_their_widgets_as_one_line() {
    let config = Config {
        bars: BarsConfig {
            left: vec![bare("time"), bare("separator"), bare("volume")],
            middle: vec![],
            right: vec![bare("space"), bare("nothing")],
        },
        colorize: true,
    };
    let mut now = readings(0);
    now.volume = Some(VolumeReading { level: 3, is_muted: true });
    let manager = ComponentManager::build(config, LuaComponentRegistry::new(), &now).unwrap();
    let left = LeftBar::new().render(&manager).unwrap();
    assert_eq!(left.alignment, Alignment::Left);
    assert_eq!(left.fg, Color::White);
    assert_eq!(
        left.spans,
        vec![
            colored("2024-05-01 12:30:00", Color::Yellow),
            plain(" | "),
            colored("\u{f075f} 3%", Color::DarkGray),
        ]
    );
    assert!(MiddleBar::new().render(&manager).is_none());
    let right = RightBar::new().render(&manager).unwrap();
    assert_eq!(right.alignment, Alignment::Right);
    assert_eq!(right.spans, vec![plain(" "), plain(" \u{ef}\u{b1} ")]);
}

#[test]
fn vpn_is_no_built_in_kind() {
    let entry = bare("vpn");
    assert!(matches!(Component::new(&entry, None, &readings(0)), Ok(Component::ErrorIcon(_))));
    let empty = LuaComponentRegistry::new();
    assert!(matches!(Component::new(&entry, Some(&empty), &readings(0)), Ok(Component::ErrorIcon(_))));
    let mut registry = LuaComponentRegistry::new();
    registry.load_component("vpn", r#"return { render = function() return "tunnel" end }"#).unwrap();
    let widget = Component::new(&entry, Some(&registry), &readings(0)).unwrap();
    assert!(matches!(widget, Component::Lua(_)));
    assert_eq!(widget.render_as_spans_with_colorize(true), vec![plain("tunnel")]);
}

#[test]
fn a_copy_of_a_plugin_keeps_its_update_hook() {
    let counting = r#"
        local n = 0
        return { update = function() n = n + 1 end, render = function() return "n" .. n end }
    "#;
    let mut registry = LuaComponentRegistry::new();
    registry.load_component("count", counting).unwrap();
    let entry = bare("count");
    let mut widget = Component::new(&entry, Some(&registry), &readings(0)).unwrap();
    assert_eq!(widget.update(&readings(1)), Ok(()));
    assert_eq!(widget.update(&readings(2)), Ok(()));
    assert_eq!(widget.render_as_spans_with_colorize(false), vec![plain("n2")]);
}

#[test]
fn start_and_reload_name_their_error() {
    let unreadable = ConfigSource::Unreadable("denied".to_string());
    assert_eq!(
        ComponentManager::new(&unreadable, None, &readings(0)).err(),
        Some(ManagerError::Config(ConfigError::Unreadable("denied".to_string())))
    );
    assert!(matches!(
        ComponentManager::new(&ConfigSource::Text("{".to_string()), None, &readings(0)).err(),
        Some(ManagerError::Config(ConfigError::Syntax(_)))
    ));
    let mut busy = readings(0);
    busy.battery = BatteryReading::Failed("busy".to_string());
    assert_eq!(
        ComponentManager::new(&ConfigSource::Missing, None, &busy).err(),
        Some(ManagerError::Component(ComponentError::Battery(BatteryError::Unavailable("busy".to_string()))))
    );
}
