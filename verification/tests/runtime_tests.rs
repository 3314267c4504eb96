use catfood_bar::bars::Alignment;
use catfood_bar::cli::{find_bar_executable, handle_bar_cli, is_bar_running, Cli, Commands, Launch, LifecycleError, Task};
use catfood_bar::component_manager::{Component, ComponentError, ManagerError};
use catfood_bar::components::battery::BatteryError;
use catfood_bar::components::registry::ConfigurableComponentRegistry;
use catfood_bar::components::{Sparkline, SystemBar};
use catfood_bar::config::{ConfigError, ConfigSource};
use catfood_bar::json::Json;
use catfood_bar::lua_component::PluginError;
use catfood_bar::readings::{BatteryReading, ClockReading, CommandOutput, Readings, VolumeReading, WifiReading};
use catfood_bar::reload::Key;
use catfood_bar::runtime::App;
use catfood_bar::style::{Color, Span};

fn plain(text: &str) -> Span {
    Span { content: text.to_string(), fg: None, bg: None }
}

fn colored(text: &str, fg: Color) -> Span {
    Span { content: text.to_string(), fg: Some(fg), bg: None }
}

fn readings(now: u64) -> Readings {
    let mut readings = Readings::empty(now, ClockReading { text: "2024-05-01 12:30:00".to_string(), hour: 12 });
    readings.battery = BatteryReading::Found { percentage: 80, is_charging: false };
    readings
}

fn draw(data: &[u64], logarithmic: bool) -> String {
    let mut sparkline = Sparkline::new(true, data.len(), logarithmic);
    for value in data {
        sparkline.update(*value);
    }
    sparkline.render()
}

#[test]
fn logarithmic_scale_draws_eighths_of_the_logarithm() {
    assert_eq!(draw(&[1, 10, 100, 1000, 10000], true), " \u{2582}\u{2584}\u{2586}\u{2588}");
    assert_eq!(draw(&[1, 10, 100, 1000, 10000], false), "    \u{2588}");
    assert_eq!(draw(&[8, 64], true), "\u{2584}\u{2588}");
    assert_eq!(draw(&[2, 256], true), "\u{2581}\u{2588}");
    assert_eq!(draw(&[3, 4, 8], true), "\u{2584}\u{2585}\u{2588}");
    assert_eq!(draw(&[0, 5, 5], true), " \u{2588}\u{2588}");
    assert_eq!(draw(&[1, 1], true), "  ");
    assert_eq!(draw(&[1, 1], false), "\u{2588}\u{2588}");
    assert_eq!(draw(&[1, 2], true), " \u{2588}");
}

#[test]
fn logarithmic_scale_draws_huge_samples() {
    assert_eq!(draw(&[u64::MAX - 1, u64::MAX], true), "\u{2587}\u{2588}");
    assert_eq!(draw(&[4294967296, u64::MAX], true), "\u{2584}\u{2588}");
    assert_eq!(draw(&[4294967295, u64::MAX], true), "\u{2583}\u{2588}");
    assert_eq!(draw(&[2, u64::MAX], true), " \u{2588}");
    assert_eq!(draw(&[256, u64::MAX], true), "\u{2581}\u{2588}");
    assert_eq!(draw(&[255, u64::MAX], true), " \u{2588}");
}

#[test]
fn registry_makes_the_wireless_widget_from_settings() {
    let registry = ConfigurableComponentRegistry::new();
    let mut now = readings(9);
    now.wifi = Some(WifiReading { link: Some(("connected".to_string(), "home".to_string())), bytes: None });
    let settings = Json::parse(r#"{"component":"wifi","sparkline":true,"sparkline_length":6}"#).unwrap();
    match registry.try_create("wifi", &settings, &now) {
        Some(Ok(Component::Wifi(wifi))) => {
            assert!(wifi.sparkline.enabled);
            assert_eq!(wifi.sparkline.length, 6);
            assert_eq!(wifi.update_interval, 2);
            assert!(!wifi.sparkline.logarithmic);
            assert_eq!(wifi.network, "home");
            assert_eq!(wifi.last_update, 9);
        }
        other => panic!("{:?}", other),
    }
    assert!(matches!(registry.try_create("wifi", &Json::parse("{}").unwrap(), &now), Some(Ok(Component::Wifi(_)))));
    assert!(registry.try_create("cpu", &settings, &now).is_none());
    assert!(registry.try_create("", &settings, &now).is_none());
    assert!(registry.try_create("wifi", &Json::parse(r#"{"sparkline":1}"#).unwrap(), &now).is_none());
    assert!(registry.try_create("wifi", &Json::parse(r#"["wifi"]"#).unwrap(), &now).is_none());
    let mut again = ConfigurableComponentRegistry::new();
    again.register_wifi();
    assert!(again.try_create("wifi", &settings, &now).is_some());
}

#[test]
fn component_name_is_read_from_the_settings() {
    let name = |text: &str| ConfigurableComponentRegistry::extract_component_name(&Json::parse(text).unwrap());
    assert_eq!(name(r#"{"component":"wifi"}"#), "wifi");
    assert_eq!(name(r#"{"component":5}"#), "unknown");
    assert_eq!(name(r#"{"name":"wifi"}"#), "unknown");
    assert_eq!(name(r#""wifi""#), "unknown");
    assert_eq!(name(r#"[]"#), "unknown");
}

#[test]
fn system_bar_shows_the_readings_side_by_side() {
    let mut now = readings(0);
    now.brightness = Some(CommandOutput { success: true, stdout: "(40%)".to_string(), stderr: String::new() });
    now.volume = Some(VolumeReading { level: 33, is_muted: true });
    now.wifi = Some(WifiReading { link: Some(("connected".to_string(), "home".to_string())), bytes: None });
    let mut bar = SystemBar::new(&now).unwrap();
    let line = bar.render();
    assert_eq!(line.alignment, Alignment::Right);
    assert_eq!(line.fg, Color::White);
    let texts: Vec<&str> = line.spans.iter().map(|span| span.content.as_str()).collect();
    assert_eq!(
        texts,
        vec![
            "\u{f2c9} ", "0\u{b0}C", " ", "\u{f0ee0} ", "0%", " ", "\u{f035b} ", "0%", " | ", "\u{f0928} ", "home",
            " | ", "\u{f00e0} ", "40%", " ", "\u{f057e} ", "33%", " | ", "\u{f0079} ", "80%",
        ]
    );
    assert!(line.spans.iter().all(|span| span.fg.is_none() && span.bg.is_none()));
    let mut later = readings(5);
    later.cpu = Some(12);
    later.ram = Some(34);
    later.temperature = Some("56".to_string());
    later.battery = BatteryReading::Found { percentage: 79, is_charging: true };
    assert_eq!(bar.update(&later), Ok(()));
    let line = bar.render();
    let texts: Vec<&str> = line.spans.iter().map(|span| span.content.as_str()).collect();
    assert_eq!(texts[1], "56\u{b0}C");
    assert_eq!(texts[4], "12%");
    assert_eq!(texts[7], "34%");
    assert_eq!(texts[9], "\u{f0928} ");
    assert_eq!(texts[10], "home");
    assert_eq!(texts[13], "");
    assert_eq!(texts[16], "0%");
    assert_eq!(texts[19], "79%");
    let mut without = readings(10);
    without.battery = BatteryReading::Missing;
    assert_eq!(bar.update(&without), Err(BatteryError::NotFound));
    assert_eq!(SystemBar::new(&without).err(), Some(BatteryError::NotFound));
}

#[test]
fn commands_name_their_task() {
    assert_eq!(Cli { command: Commands::Bar { no_kitten: true } }.task(), Task::StartBar { no_kitten: true });
    assert_eq!(Cli { command: Commands::Bar { no_kitten: false } }.task(), Task::StartBar { no_kitten: false });
    assert_eq!(Cli { command: Commands::Menu { categories: true } }.task(), Task::AnnounceMenu);
    assert_eq!(Cli { command: Commands::Notifications { dnd: false } }.task(), Task::AnnounceNotifications);
}

#[test]
fn the_bar_goes_into_a_panel_unless_told_or_running() {
    assert_eq!(handle_bar_cli(true, None), Launch::RunHere);
    assert_eq!(handle_bar_cli(true, Some(true)), Launch::RunHere);
    assert_eq!(handle_bar_cli(false, Some(true)), Launch::Refuse);
    assert_eq!(handle_bar_cli(false, Some(false)), Launch::SpawnInPanel);
    assert_eq!(handle_bar_cli(false, None), Launch::SpawnInPanel);
}

#[test]
fn the_pid_file_names_the_process_to_look_for() {
    assert_eq!(is_bar_running(None), Ok(None));
    assert_eq!(is_bar_running(Some("4242\n")), Ok(Some(4242)));
    assert_eq!(is_bar_running(Some("")), Err(LifecycleError::InvalidPid));
    assert_eq!(is_bar_running(Some("abc")), Err(LifecycleError::InvalidPid));
}

#[test]
fn the_first_place_that_holds_the_program_wins() {
    let places = vec![
        ("/usr/bin/catfood-bar".to_string(), false),
        ("/home/me/target/debug/catfood-bar".to_string(), true),
        ("/home/me/target/release/catfood-bar".to_string(), true),
    ];
    assert_eq!(find_bar_executable(&places), Some("/home/me/target/debug/catfood-bar".to_string()));
    assert_eq!(find_bar_executable(&vec![("/a".to_string(), false)]), None);
    assert_eq!(find_bar_executable(&vec![]), None);
}

#[test]
fn errors_read_as_sentences() {
    assert_eq!(
        ConfigError::Unreadable("denied".to_string()).describe(),
        "configuration file could not be read: denied"
    );
    assert_eq!(ConfigError::Syntax("eof".to_string()).describe(), "configuration file is not JSON: eof");
    assert_eq!(ConfigError::Malformed.describe(), "configuration file is not a layout of the bar");
    assert_eq!(BatteryError::NotFound.describe(), "Unable to find any batteries");
    assert_eq!(
        BatteryError::Unavailable("busy".to_string()).describe(),
        "Unable to access battery information: busy"
    );
    assert_eq!(PluginError::Script("x".to_string()).describe(), "Failed to load Lua script: x");
    assert_eq!(PluginError::MissingRender("y".to_string()).describe(), "Failed to get render function: y");
    assert_eq!(
        ComponentError::Battery(BatteryError::NotFound).describe(),
        "Unable to find any batteries"
    );
    assert_eq!(
        ManagerError::Component(ComponentError::Battery(BatteryError::NotFound)).describe(),
        "Unable to find any batteries"
    );
    assert_eq!(
        ManagerError::Config(ConfigError::Malformed).describe(),
        "configuration file is not a layout of the bar"
    );
}

const LAYOUT: &str = r#"{"bars":{"left":["time"],"middle":[],"right":["volume","battery"]},"colorize":true}"#;

#[test]
fn the_bar_starts_ticks_reloads_and_quits() {
    let (mut app, create) = App::new(&ConfigSource::Text(LAYOUT.to_string()), None, &readings(0)).unwrap();
    assert!(!create);
    assert!(app.is_running());
    let frame = app.render();
    assert_eq!(frame.left.as_ref().unwrap().spans, vec![colored("2024-05-01 12:30:00", Color::Yellow)]);
    assert_eq!(frame.left.as_ref().unwrap().alignment, Alignment::Left);
    assert!(frame.middle.is_none());
    assert_eq!(
        frame.right.as_ref().unwrap().spans,
        vec![colored("\u{f057e} 0%", Color::White), colored("\u{f0079} 80%", Color::Green)]
    );
    let mut later = readings(10);
    later.clock = ClockReading { text: "2024-05-01 23:00:00".to_string(), hour: 23 };
    later.volume = Some(VolumeReading { level: 70, is_muted: false });
    assert_eq!(app.update_components(&later), None);
    assert_eq!(app.render().left.unwrap().spans, vec![colored("2024-05-01 23:00:00", Color::Magenta)]);
    let mut starving = readings(20);
    starving.battery = BatteryReading::Missing;
    let record = app.update_components(&starving).unwrap();
    assert_eq!(record.category, "SYSTEM");
    assert_eq!(record.message, "Unable to find any batteries");
    let before = app.render();
    let record = app.reload(&ConfigSource::Text("oops".to_string()), None, &readings(30)).unwrap();
    assert_eq!(record.category, "CONFIG");
    assert!(record.message.starts_with("Failed to reload configuration: configuration file is not JSON: "));
    assert_eq!(app.render(), before);
    let next = r#"{"bars":{"left":[],"middle":["space"],"right":[]},"colorize":false}"#;
    assert_eq!(app.reload(&ConfigSource::Text(next.to_string()), None, &readings(40)), None);
    let frame = app.render();
    assert!(frame.left.is_none());
    assert_eq!(frame.middle.unwrap().spans, vec![plain(" ")]);
    assert!(app.component_manager().get("time").is_none());
    app.on_key_event(Key::Char('x'), false);
    app.on_key_event(Key::Char('c'), false);
    assert!(app.is_running());
    app.on_key_event(Key::Char('q'), false);
    assert!(!app.is_running());
    let (mut app, create) = App::new(&ConfigSource::Missing, None, &readings(0)).unwrap();
    assert!(create);
    app.on_key_event(Key::Char('C'), true);
    assert!(!app.is_running());
    let (mut app, _) = App::new(&ConfigSource::Missing, None, &readings(0)).unwrap();
    app.quit();
    assert!(!app.is_running());
}

#[test]
fn the_bar_does_not_start_without_its_layout() {
    assert_eq!(
        App::new(&ConfigSource::Text("[]".to_string()), None, &readings(0)).err(),
        Some(ManagerError::Config(ConfigError::Malformed))
    );
    let mut without = readings(0);
    without.battery = BatteryReading::Missing;
    assert_eq!(
        App::new(&ConfigSource::Missing, None, &without).err(),
        Some(ManagerError::Component(ComponentError::Battery(BatteryError::NotFound)))
    );
}

#[test]
fn fixed_right_bar_shows_the_private_network_too() {
    let mut now = readings(0);
    now.vpn = Some(catfood_bar::readings::VpnReading {
        status: "connected".to_string(),
        country: "Sweden".to_string(),
        short: "SE".to_string(),
    });
    let bar = catfood_bar::components::right_bar::RightBar::new(&now).unwrap();
    let line = bar.render();
    assert_eq!(line.alignment, Alignment::Right);
    let texts: Vec<&str> = line.spans.iter().map(|span| span.content.as_str()).collect();
    assert_eq!(
        texts,
        vec![
            "\u{f2c9} ", "0\u{b0}C", " ", "\u{f0ee0} ", "0%", " ", "\u{f035b} ", "0%", " | ", "\u{f092e} ", "Off",
            " ", "\u{f023} ", "SE", " | ", "\u{f00e0} ", "", " ", "\u{f057e} ", "0%", " | ", "\u{f0079} ", "80%",
        ]
    );
    let mut without = readings(0);
    without.battery = BatteryReading::Failed("x".to_string());
    assert_eq!(
        catfood_bar::components::right_bar::RightBar::new(&without).err(),
        Some(BatteryError::Unavailable("x".to_string()))
    );
}

#[test]
fn failed_plugins_get_their_line_for_the_log() {
    let failing = catfood_bar::lua_component::ScriptFile {
        file_name: "bad.lua".to_string(),
        source: Some(
            r#"return { update = function() error("boom") end, render = function() return "bad" end }"#.to_string(),
        ),
    };
    let layout = r#"{"bars":{"left":["bad"],"middle":["time"],"right":[]},"colorize":true}"#;
    let (mut app, _) = App::new(&ConfigSource::Text(layout.to_string()), Some(&vec![failing]), &readings(0)).unwrap();
    assert!(app.plugin_failures().is_empty());
    assert_eq!(app.update_components(&readings(1)), None);
    let lines = app.plugin_failures();
    assert_eq!(lines.len(), 1);
    assert_eq!(lines[0].category, "COMPONENT_BAD");
    assert!(lines[0].message.contains("boom"));
    assert_eq!(app.render().left.unwrap().spans, vec![plain("\u{274c} bad")]);
    assert_eq!(app.render().middle.unwrap().spans, vec![colored("2024-05-01 12:30:00", Color::Yellow)]);
}

#[test]
fn processor_sensors_are_told_by_their_label() {
    assert!(catfood_bar::sources::is_cpu_sensor("CPU Temperature"));
    assert!(catfood_bar::sources::is_cpu_sensor("coretemp Core 0"));
    assert!(catfood_bar::sources::is_cpu_sensor("Package id 0"));
    assert!(!catfood_bar::sources::is_cpu_sensor("nvme Composite"));
    assert!(!catfood_bar::sources::is_cpu_sensor(""));
    assert!(!catfood_bar::sources::names_cpu_sensor("CPU"));
    assert!(catfood_bar::sources::names_cpu_sensor("cpu"));
}
