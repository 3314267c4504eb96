use catfood_bar::components::apps::{colors_for, get_app_icon, get_brand_color, icon_for};
use catfood_bar::components::battery::{Battery, BatteryError};
use catfood_bar::components::brightness::{get_system_brightness, Brightness};
use catfood_bar::components::weather::{get_weather_icon, icon_for as weather_icon_for, Weather};
use catfood_bar::components::workspaces::color_of_workspace;
use catfood_bar::components::{
    Cpu, ErrorIcon, Ram, Separator, Space, Sparkline, Temperature, Time, Volume, Vpn, Wifi, Windows, Workspaces,
};
use catfood_bar::readings::{
    BatteryReading, ClockReading, CommandOutput, VolumeReading, VpnReading, WeatherReport, WifiReading,
    WindowReading, WindowsReading, WorkspacesReading,
};
use catfood_bar::style::{Color, Span};
use catfood_bar::wayland_client::WorkspaceInfo;

fn plain(text: &str) -> Span {
    Span { content: text.to_string(), fg: None, bg: None }
}

fn colored(text: &str, fg: Color) -> Span {
    Span { content: text.to_string(), fg: Some(fg), bg: None }
}

fn boxed(text: &str, bg: Color, fg: Color) -> Span {
    Span { content: text.to_string(), fg: Some(fg), bg: Some(bg) }
}

fn output(success: bool, stdout: &str) -> CommandOutput {
    CommandOutput { success, stdout: stdout.to_string(), stderr: String::new() }
}

#[test]
fn space_is_one_blank() {
    assert_eq!(Space::new().render(), " ");
}

#[test]
fn separator_shows_its_text() {
    assert_eq!(Separator::new().render(), " | ");
    assert_eq!(Separator::with_separator("::").render(), "::");
    assert_eq!(Separator::with_separator("").render(), "");
}

#[test]
fn error_icon_shows_the_glyph() {
    assert_eq!(ErrorIcon::new().render(), " \u{ef}\u{b1} ");
    assert_eq!(ErrorIcon::new().render_as_spans(), vec![plain(" \u{ef}\u{b1} ")]);
}

#[test]
fn span_builders_set_one_colour_each() {
    let span = Span::raw("x".to_string());
    assert_eq!(span, plain("x"));
    assert_eq!(span.clone().fg(Color::Red), colored("x", Color::Red));
    assert_eq!(span.clone().bg(Color::Blue).fg(Color::Black), boxed("x", Color::Blue, Color::Black));
    assert_eq!(Span::tinted("y".to_string(), true, Color::Green), colored("y", Color::Green));
    assert_eq!(Span::tinted("y".to_string(), false, Color::Green), plain("y"));
}

#[test]
fn sparkline_starts_with_zeros() {
    let sparkline = Sparkline::new(true, 4, false);
    assert_eq!(sparkline.data, vec![0, 0, 0, 0]);
    assert_eq!(sparkline.length, 4);
    assert!(sparkline.enabled);
    assert!(!sparkline.logarithmic);
    assert_eq!(sparkline.render(), "    ");
    assert_eq!(sparkline.render_with_spaces(), "    ");
}

#[test]
fn sparkline_keeps_the_last_samples() {
    let mut sparkline = Sparkline::new(true, 3, false);
    sparkline.update(5);
    assert_eq!(sparkline.data, vec![0, 0, 5]);
    sparkline.update(6);
    sparkline.update(7);
    sparkline.update(8);
    assert_eq!(sparkline.data, vec![6, 7, 8]);
}

#[test]
fn sparkline_that_is_off_ignores_samples() {
    let mut sparkline = Sparkline::new(false, 3, false);
    sparkline.update(5);
    assert_eq!(sparkline.data, vec![0, 0, 0]);
    assert_eq!(sparkline.render(), "");
    assert_eq!(sparkline.render_with_spaces(), "   ");
}

#[test]
fn sparkline_without_cells_takes_no_sample() {
    let mut sparkline = Sparkline::new(true, 0, false);
    sparkline.update(5);
    assert_eq!(sparkline.data, Vec::<u64>::new());
    assert_eq!(sparkline.render(), "");
}

#[test]
fn sparkline_draws_eighths_of_the_largest() {
    let mut sparkline = Sparkline::new(true, 9, false);
    for value in [0, 1, 2, 3, 4, 5, 6, 7, 8] {
        sparkline.update(value);
    }
    assert_eq!(sparkline.max_value(), 8);
    assert_eq!(sparkline.render(), " \u{2581}\u{2582}\u{2583}\u{2584}\u{2585}\u{2586}\u{2587}\u{2588}");
    let mut percent = Sparkline::new(true, 4, false);
    for value in [10, 50, 99, 100] {
        percent.update(value);
    }
    assert_eq!(percent.render(), " \u{2584}\u{2587}\u{2588}");
}

#[test]
fn sparkline_draws_huge_samples() {
    let mut sparkline = Sparkline::new(true, 2, false);
    sparkline.update(u64::MAX / 2);
    sparkline.update(u64::MAX);
    assert_eq!(sparkline.render(), "\u{2583}\u{2588}");
}

#[test]
fn time_shows_the_clock_reading() {
    let morning = ClockReading { text: "2024-05-01 06:00:00".to_string(), hour: 6 };
    let time = Time::at(&morning);
    assert_eq!(time.time_string, "2024-05-01 06:00:00");
    assert_eq!(time.render_as_spans(true), vec![colored("2024-05-01 06:00:00", Color::Yellow)]);
    assert_eq!(time.render_as_spans(false), vec![plain("2024-05-01 06:00:00")]);
    let mut time = time;
    time.set(&ClockReading { text: "2024-05-01 18:00:00".to_string(), hour: 18 });
    assert_eq!(time.render_as_spans(true), vec![colored("2024-05-01 18:00:00", Color::Magenta)]);
    time.set(&ClockReading { text: "a".to_string(), hour: 17 });
    assert_eq!(time.render_as_spans(true), vec![colored("a", Color::Yellow)]);
    time.set(&ClockReading { text: "b".to_string(), hour: 5 });
    assert_eq!(time.render_as_spans(true), vec![colored("b", Color::Magenta)]);
}

#[test]
fn time_reads_the_wall_clock() {
    let mut time = Time::new();
    assert_eq!(time.time_string.len(), 19);
    assert_eq!(&time.time_string[4..5], "-");
    assert_eq!(&time.time_string[10..11], " ");
    assert_eq!(&time.time_string[13..14], ":");
    assert!(time.hour < 24);
    assert_eq!(time.time_string[11..13].parse::<u32>().unwrap(), time.hour);
    time.update();
    assert_eq!(time.cached_span_content, time.time_string);
    let clock = ClockReading::now();
    assert!(clock.hour < 24);
}

#[test]
fn brightness_finds_the_first_percentage() {
    let run = output(true, "Device 'intel_backlight'\n\tCurrent brightness: 12000 (50%)\n\tMax brightness: 24000 (100%)\n");
    assert_eq!(get_system_brightness(Some(&run)), Some("50%".to_string()));
    let brightness = Brightness::new(Some(&run));
    assert_eq!(brightness.level, "50%");
    assert_eq!(brightness.render(), "\u{f00e0} 50%");
    assert_eq!(brightness.render_as_spans(true), vec![colored("\u{f00e0} 50%", Color::White)]);
    assert_eq!(brightness.render_as_spans(false), vec![plain("\u{f00e0} 50%")]);
}

#[test]
fn brightness_is_empty_without_a_percentage() {
    assert_eq!(get_system_brightness(Some(&output(true, "no number here %"))), None);
    assert_eq!(get_system_brightness(Some(&output(false, "50%"))), None);
    assert_eq!(get_system_brightness(None), None);
    let mut brightness = Brightness::new(Some(&output(true, "7%")));
    assert_eq!(brightness.level, "7%");
    brightness.update(Some(&output(false, "50%")));
    assert_eq!(brightness.level, "");
    assert_eq!(brightness.render(), "\u{f00e0} ");
    assert_eq!(Brightness::with_level(Some("3%".to_string())).cached_span_content, "\u{f00e0} 3%");
}

#[test]
fn volume_shows_level_and_mute() {
    let volume = Volume::new(Some(VolumeReading { level: 45, is_muted: false }));
    assert_eq!(volume.level, "45");
    assert_eq!(volume.render(), "\u{f057e} 45%");
    assert_eq!(volume.render_as_spans(true), vec![colored("\u{f057e} 45%", Color::White)]);
    assert_eq!(volume.render_as_spans(false), vec![plain("\u{f057e} 45%")]);
    let mut volume = volume;
    volume.update(Some(VolumeReading { level: 30, is_muted: true }));
    assert!(volume.is_muted);
    assert_eq!(volume.render(), "\u{f075f} 30%");
    assert_eq!(volume.render_as_spans(true), vec![plain("\u{f075f} 30%")]);
    volume.update(None);
    assert_eq!(volume.render(), "\u{f057e} 0%");
    assert!(!volume.is_muted);
    volume.update(Some(VolumeReading { level: -5, is_muted: false }));
    assert_eq!(volume.level, "-5");
}

#[test]
fn battery_needs_a_battery() {
    assert_eq!(Battery::new(&BatteryReading::Missing, 0).err(), Some(BatteryError::NotFound));
    assert_eq!(
        Battery::new(&BatteryReading::Failed("busy".to_string()), 0).err(),
        Some(BatteryError::Unavailable("busy".to_string()))
    );
    let battery = Battery::new(&BatteryReading::Found { percentage: 76, is_charging: true }, 10).unwrap();
    assert_eq!(battery.percentage, "76");
    assert!(battery.is_charging);
    assert_eq!(battery.last_update, 10);
    assert_eq!(battery.update_interval, 3);
    assert_eq!(battery.render(), "\u{f0084} 76%");
}

#[test]
fn battery_colour_follows_the_charge() {
    let at = |percentage: i32, is_charging: bool| {
        Battery::new(&BatteryReading::Found { percentage, is_charging }, 0).unwrap().render_as_spans(true)[0].fg
    };
    assert_eq!(at(5, true), Some(Color::Green));
    assert_eq!(at(10, false), Some(Color::Red));
    assert_eq!(at(11, false), Some(Color::Yellow));
    assert_eq!(at(25, false), Some(Color::Yellow));
    assert_eq!(at(26, false), Some(Color::Green));
    assert_eq!(at(-1, false), Some(Color::Red));
    let battery = Battery::new(&BatteryReading::Found { percentage: 50, is_charging: false }, 0).unwrap();
    assert_eq!(battery.render_as_spans(false), vec![plain("\u{f0079} 50%")]);
}

#[test]
fn battery_updates_only_when_due() {
    let mut battery = Battery::new(&BatteryReading::Found { percentage: 50, is_charging: false }, 100).unwrap();
    let next = BatteryReading::Found { percentage: 49, is_charging: true };
    assert_eq!(battery.update(&next, 102), Ok(()));
    assert_eq!(battery.percentage, "50");
    assert_eq!(battery.update(&BatteryReading::Missing, 102), Ok(()));
    assert_eq!(battery.update(&next, 103), Ok(()));
    assert_eq!(battery.percentage, "49");
    assert_eq!(battery.last_update, 103);
    assert_eq!(battery.cached_span_content, "\u{f0084} 49%");
    assert_eq!(battery.update(&BatteryReading::Missing, 106), Err(BatteryError::NotFound));
    assert_eq!(battery.percentage, "49");
    assert_eq!(battery.last_update, 103);
    assert_eq!(battery.update(&next, 50), Ok(()));
    assert_eq!(battery.last_update, 103);
}

#[test]
fn cpu_shows_the_load_when_due() {
    let mut cpu = Cpu::new(100);
    assert_eq!(cpu.usage, "0");
    assert_eq!(cpu.render(), "\u{f0ee0} 0%");
    assert_eq!(cpu.update_interval, 3);
    cpu.update(Some(42), 102);
    assert_eq!(cpu.usage, "0");
    cpu.update(Some(42), 103);
    assert_eq!(cpu.usage, "42");
    assert_eq!(cpu.last_update, 103);
    assert_eq!(cpu.render_as_spans(true), vec![colored("\u{f0ee0} 42%", Color::White)]);
    cpu.update(None, 106);
    assert_eq!(cpu.usage, "42");
    assert_eq!(cpu.last_update, 106);
    cpu.update(Some(90), 109);
    assert_eq!(cpu.render_as_spans(true), vec![colored("\u{f0ee0} 90%", Color::Red)]);
    assert_eq!(cpu.render_as_spans(false), vec![plain("\u{f0ee0} 90%")]);
    cpu.update(Some(89), 112);
    assert_eq!(cpu.render_as_spans(true), vec![colored("\u{f0ee0} 89%", Color::White)]);
}

#[test]
fn cpu_with_a_trend_draws_it() {
    let mut cpu = Cpu::with_config(true, 3, 1, 0);
    assert_eq!(cpu.cached_span_content, "\u{f0ee0}    ");
    cpu.update(Some(50), 1);
    cpu.update(Some(100), 2);
    assert_eq!(cpu.sparkline.data, vec![0, 50, 100]);
    assert_eq!(cpu.cached_span_content, "\u{f0ee0}  \u{2584}\u{2588}");
    assert_eq!(cpu.render(), "\u{f0ee0} 100%");
}

#[test]
fn ram_is_green_below_ninety() {
    let mut ram = Ram::new(0);
    assert_eq!(ram.update_interval, 2);
    ram.update(Some(89), 2);
    assert_eq!(ram.render_as_spans(true), vec![colored("\u{f035b} 89%", Color::Green)]);
    ram.update(Some(95), 4);
    assert_eq!(ram.render_as_spans(true), vec![colored("\u{f035b} 95%", Color::Red)]);
    let with_trend = Ram::with_config(true, 2, 5, 7);
    assert_eq!(with_trend.cached_span_content, "\u{f035b}   ");
    assert_eq!(with_trend.update_interval, 5);
    assert_eq!(with_trend.last_update, 7);
}

#[test]
fn temperature_shows_degrees() {
    let mut temperature = Temperature::new(0);
    assert_eq!(temperature.render(), "\u{f2c9} 0\u{b0}C");
    temperature.update(&Some("79".to_string()), 4);
    assert_eq!(temperature.value, "0");
    temperature.update(&Some("79".to_string()), 5);
    assert_eq!(temperature.render_as_spans(true), vec![colored("\u{f2c9} 79\u{b0}C", Color::Yellow)]);
    temperature.update(&Some("80".to_string()), 10);
    assert_eq!(temperature.render_as_spans(true), vec![colored("\u{f2c9} 80\u{b0}C", Color::Red)]);
    temperature.update(&None, 15);
    assert_eq!(temperature.value, "80");
    assert_eq!(temperature.last_update, 15);
    temperature.update(&Some("-3".to_string()), 20);
    assert_eq!(temperature.render_as_spans(true), vec![colored("\u{f2c9} -3\u{b0}C", Color::Yellow)]);
    assert_eq!(temperature.render_as_spans(false), vec![plain("\u{f2c9} -3\u{b0}C")]);
}

fn link(status: &str, network: &str, bytes: Option<u64>) -> WifiReading {
    WifiReading { link: Some((status.to_string(), network.to_string())), bytes }
}

#[test]
fn wifi_shows_the_network() {
    let wifi = Wifi::new(Some(&link("connected", "home", None)), 0);
    assert_eq!(wifi.render(), "\u{f0928} home");
    assert_eq!(wifi.render_as_spans(true), vec![colored("\u{f0928} home", Color::Blue)]);
    let off = Wifi::new(None, 0);
    assert_eq!(off.status, "disconnected");
    assert_eq!(off.render(), "\u{f092e} Off");
    assert_eq!(off.render_as_spans(true), vec![colored("\u{f092e} Off", Color::Red)]);
    assert_eq!(off.render_as_spans(false), vec![plain("\u{f092e} Off")]);
    let nameless = Wifi::new(Some(&link("connected", "", None)), 0);
    assert_eq!(nameless.render(), "\u{f0928} Off");
    let no_link = Wifi::new(Some(&WifiReading { link: None, bytes: Some(1) }), 0);
    assert_eq!(no_link.status, "disconnected");
}

#[test]
fn wifi_updates_when_due_and_keeps_on_silence() {
    let mut wifi = Wifi::new(Some(&link("connected", "home", None)), 0);
    wifi.update(Some(&link("disconnected", "", None)), 1);
    assert_eq!(wifi.status, "connected");
    wifi.update(Some(&link("disconnected", "", None)), 2);
    assert_eq!(wifi.status, "disconnected");
    assert_eq!(wifi.cached_span_content, "\u{f092e} Off");
    wifi.update(None, 4);
    assert_eq!(wifi.status, "disconnected");
    assert_eq!(wifi.last_update, 4);
    wifi.update(Some(&WifiReading { link: None, bytes: None }), 6);
    assert_eq!(wifi.last_update, 6);
    assert_eq!(wifi.cached_span_content, "\u{f092e} Off");
}

#[test]
fn wifi_trend_counts_traffic_between_readings() {
    let mut wifi = Wifi::with_config(true, 3, 1, false, Some(&link("connected", "home", None)), 0);
    assert_eq!(wifi.cached_span_content, "\u{f0928}    ");
    wifi.update(Some(&link("connected", "home", Some(1000))), 1);
    assert_eq!(wifi.sparkline.data, vec![0, 0, 0]);
    assert_eq!(wifi.last_bytes, Some(1000));
    wifi.update(Some(&link("connected", "home", Some(1400))), 2);
    wifi.update(Some(&link("connected", "home", Some(2200))), 3);
    assert_eq!(wifi.sparkline.data, vec![0, 400, 800]);
    assert_eq!(wifi.cached_span_content, "\u{f0928}  \u{2584}\u{2588}");
    wifi.update(Some(&link("connected", "home", Some(100))), 4);
    assert_eq!(wifi.sparkline.data, vec![400, 800, 0]);
    wifi.update(Some(&link("connected", "home", None)), 5);
    assert_eq!(wifi.sparkline.data, vec![400, 800, 0]);
    assert_eq!(wifi.last_bytes, Some(100));
}

#[test]
fn vpn_shows_the_short_name() {
    let reading = VpnReading { status: "connected".to_string(), country: "Germany".to_string(), short: "DE".to_string() };
    let vpn = Vpn::new(Some(&reading), 0);
    assert_eq!(vpn.render(), "\u{ef}\u{20ac}\u{a3} DE");
    assert_eq!(vpn.render_as_spans(true), vec![colored("\u{ef}\u{20ac}\u{a3} DE", Color::Magenta)]);
    let mut off = Vpn::new(None, 0);
    assert_eq!(off.status, "disconnected");
    assert_eq!(off.short, "--");
    assert_eq!(off.render_as_spans(true), vec![colored("\u{ef}\u{20ac}\u{a3} --", Color::DarkGray)]);
    assert_eq!(off.render_as_spans(false), vec![plain("\u{ef}\u{20ac}\u{a3} --")]);
    off.update(Some(&reading), 4);
    assert_eq!(off.short, "--");
    off.update(Some(&reading), 5);
    assert_eq!(off.short, "DE");
    assert_eq!(off.country, "Germany");
    off.update(None, 10);
    assert_eq!(off.short, "DE");
    assert_eq!(off.last_update, 10);
}

#[test]
fn weather_shows_the_report() {
    let mut weather = Weather::new();
    assert_eq!(weather.render(), "\u{f0590} --\u{b0}C");
    assert_eq!(weather.render_as_spans(true), vec![colored("\u{f0590} --\u{b0}C", Color::White)]);
    weather.update(Some(&WeatherReport { temperature: "17".to_string(), condition: "Light Rain".to_string() }));
    assert_eq!(weather.get_weather_data().icon, "\u{f0597}");
    assert_eq!(weather.get_weather_data().condition, "Light Rain");
    assert_eq!(weather.render(), "\u{f0597} 17\u{b0}C");
    assert_eq!(weather.render_as_spans(true), vec![colored("\u{f0597} 17\u{b0}C", Color::Blue)]);
    assert_eq!(weather.render_as_spans(false), vec![plain("\u{f0597} 17\u{b0}C")]);
    weather.update(None);
    assert_eq!(weather.render(), "\u{f0597} 17\u{b0}C");
}

#[test]
fn weather_icon_follows_the_first_word_that_fits() {
    assert_eq!(get_weather_icon("Sunny"), "\u{f0599}");
    assert_eq!(get_weather_icon("CLEAR"), "\u{f0599}");
    assert_eq!(get_weather_icon("Partly cloudy"), "\u{f0590}");
    assert_eq!(get_weather_icon("Overcast"), "\u{f0590}");
    assert_eq!(get_weather_icon("Patchy light drizzle"), "\u{f0597}");
    assert_eq!(get_weather_icon("Heavy snow"), "\u{f0598}");
    assert_eq!(get_weather_icon("Thundery outbreaks"), "\u{f0593}");
    assert_eq!(get_weather_icon("Stormy"), "\u{f0593}");
    assert_eq!(get_weather_icon("Freezing fog"), "\u{f0591}");
    assert_eq!(get_weather_icon("Mist"), "\u{f0591}");
    assert_eq!(get_weather_icon("Windy"), "\u{f059d}");
    assert_eq!(get_weather_icon("Unknown"), "\u{f0590}");
    assert_eq!(get_weather_icon("clear rain"), "\u{f0599}");
    assert_eq!(weather_icon_for("Sunny"), "\u{f0590}");
    assert_eq!(weather_icon_for("sunny"), "\u{f0599}");
}

#[test]
fn weather_colour_follows_the_condition() {
    let colour = |condition: &str| {
        let mut weather = Weather::new();
        weather.update(Some(&WeatherReport { temperature: "1".to_string(), condition: condition.to_string() }));
        weather.render_as_spans(true)[0].fg
    };
    assert_eq!(colour("Sunny"), Some(Color::Yellow));
    assert_eq!(colour("Cloudy"), Some(Color::Gray));
    assert_eq!(colour("Rain"), Some(Color::Blue));
    assert_eq!(colour("Sleet"), Some(Color::Cyan));
    assert_eq!(colour("Storm"), Some(Color::Magenta));
    assert_eq!(colour("Fog"), Some(Color::DarkGray));
    assert_eq!(colour("Wind"), Some(Color::LightGreen));
    assert_eq!(colour("Hail"), Some(Color::White));
}

#[test]
fn app_icons_by_title_and_class() {
    assert_eq!(get_app_icon("kitty", "nvim main.rs"), "\u{e62b}");
    assert_eq!(get_app_icon("kitty", "editing in NeoVim"), "\u{e62b}");
    assert_eq!(get_app_icon("kitty", "vim notes"), "\u{e7c5}");
    assert_eq!(get_app_icon("kitty", "htop"), "\u{f051a}");
    assert_eq!(get_app_icon("kitty", "SSH host"), "\u{f08c0}");
    assert_eq!(get_app_icon("kitty", "zsh"), "\u{f011b}");
    assert_eq!(get_app_icon("Firefox", "Mozilla"), "\u{f0239}");
    assert_eq!(get_app_icon("firefox-developer-edition", ""), "\u{f0239}");
    assert_eq!(get_app_icon("steam", ""), "\u{f04d3}");
    assert_eq!(get_app_icon("minecraft", ""), "\u{f0373}");
    assert_eq!(get_app_icon("something-else", "untitled"), "\u{f035c}");
    assert_eq!(icon_for("Firefox", ""), "\u{f035c}");
    assert_eq!(icon_for("firefox", ""), "\u{f0239}");
}

#[test]
fn brand_colours_by_title_and_class() {
    assert_eq!(get_brand_color("kitty", "nvim"), (Color::Rgb(0, 107, 84), Color::White));
    assert_eq!(get_brand_color("kitty", "btop"), (Color::Rgb(255, 152, 0), Color::Black));
    assert_eq!(get_brand_color("kitty", "nano x"), (Color::Rgb(103, 117, 140), Color::White));
    assert_eq!(get_brand_color("FIREFOX", ""), (Color::Rgb(255, 119, 0), Color::Black));
    assert_eq!(get_brand_color("chromium", ""), (Color::Rgb(66, 133, 244), Color::Black));
    assert_eq!(get_brand_color("aseprite", ""), (Color::Rgb(255, 255, 255), Color::Black));
    assert_eq!(get_brand_color("minecraft", ""), (Color::Rgb(46, 125, 50), Color::White));
    assert_eq!(get_brand_color("nothing", ""), (Color::Gray, Color::White));
    assert_eq!(colors_for("FIREFOX", ""), (Color::Gray, Color::White));
}

fn window(address: &str, class: &str, title: &str, workspace: i32) -> WindowReading {
    WindowReading { address: address.to_string(), class: class.to_string(), title: title.to_string(), workspace }
}

#[test]
fn windows_show_ordinary_workspaces_only() {
    let reading = WindowsReading {
        windows: vec![
            window("0x1", "firefox", "Mozilla", 1),
            window("0x2", "kitty", "scratch", -99),
            window("0x3", "kitty", "nvim", 2),
            window("0x4", "kitty", "zero", 0),
        ],
        active: "0x3".to_string(),
    };
    let windows = Windows::new(Some(&reading));
    assert_eq!(windows.windows.len(), 2);
    assert_eq!(windows.windows[0].address, "0x1");
    assert_eq!(windows.windows[0].icon, "\u{f0239}");
    assert_eq!(windows.windows[1].address, "0x3");
    assert_eq!(windows.windows[1].title, "nvim");
    assert_eq!(
        windows.render(),
        vec![colored(" \u{f0239} ", Color::White), boxed(" \u{e62b} ", Color::Rgb(0, 107, 84), Color::White)]
    );
    assert_eq!(windows.render_as_spans(false), windows.render());
    let mut windows = windows;
    windows.update(None);
    assert!(windows.windows.is_empty());
    assert_eq!(windows.active_window, "");
    assert_eq!(windows.render(), Vec::<Span>::new());
}

fn workspace(id: &str, name: &str) -> WorkspaceInfo {
    WorkspaceInfo { id: id.to_string(), name: name.to_string(), is_active: false }
}

#[test]
fn workspaces_mark_the_active_one() {
    let reading = WorkspacesReading {
        workspaces: Some(vec![workspace("1", "1"), workspace("2", "2"), workspace("9", "mail"), workspace("8", "8")]),
        active: Some(Some("2".to_string())),
    };
    let workspaces = Workspaces::new(Some(&reading));
    assert_eq!(workspaces.workspaces, vec!["1", "2", "mail", "8"]);
    assert_eq!(workspaces.active_workspace, "2");
    assert_eq!(
        workspaces.render(),
        vec![
            colored(" 1 ", Color::Red),
            boxed(" 2 ", Color::Yellow, Color::Black),
            plain(" mail "),
            colored(" 8 ", Color::Red),
        ]
    );
    let mut workspaces = workspaces;
    workspaces.update(Some(&WorkspacesReading {
        workspaces: Some(vec![workspace("9", "mail")]),
        active: Some(Some("9".to_string())),
    }));
    assert_eq!(workspaces.render(), vec![boxed(" mail ", Color::White, Color::Black)]);
    workspaces.update(Some(&WorkspacesReading { workspaces: Some(vec![workspace("9", "mail")]), active: Some(None) }));
    assert_eq!(workspaces.active_workspace, "mail");
    workspaces.update(Some(&WorkspacesReading { workspaces: Some(vec![workspace("9", "mail")]), active: None }));
    assert_eq!(workspaces.active_workspace, "mail");
    workspaces.update(Some(&WorkspacesReading {
        workspaces: Some(vec![workspace("9", "mail")]),
        active: Some(Some("3".to_string())),
    }));
    assert_eq!(workspaces.active_workspace, "");
    workspaces.update(None);
    assert!(workspaces.workspaces.is_empty());
    assert_eq!(workspaces.render_as_spans(true), Vec::<Span>::new());
}

#[test]
fn workspace_colours_go_round_in_sevens() {
    assert_eq!(color_of_workspace("1"), Some(Color::Red));
    assert_eq!(color_of_workspace("2"), Some(Color::Yellow));
    assert_eq!(color_of_workspace("3"), Some(Color::Green));
    assert_eq!(color_of_workspace("4"), Some(Color::Cyan));
    assert_eq!(color_of_workspace("5"), Some(Color::Blue));
    assert_eq!(color_of_workspace("6"), Some(Color::Magenta));
    assert_eq!(color_of_workspace("7"), Some(Color::LightRed));
    assert_eq!(color_of_workspace("8"), Some(Color::Red));
    assert_eq!(color_of_workspace("+15"), Some(Color::Red));
    assert_eq!(color_of_workspace("0"), None);
    assert_eq!(color_of_workspace("mail"), None);
    assert_eq!(color_of_workspace("-1"), None);
    assert_eq!(color_of_workspace(""), None);
}
