use catfood_bar::json::Json;
use catfood_bar::logging::{
    log_component_error, log_config_error, log_file_watcher_error, log_system_error, rotate_log_if_needed,
    start_banner, LogRecord,
};
use catfood_bar::readings::{CommandOutput, VpnReading, WifiReading, WindowReading, WindowsReading};
use catfood_bar::scan::{is_whitespace, lines_of, split_first, split_on, trimmed, without_trailing, words_of};
use catfood_bar::sources::{
    fetch_weather, get_country_short_name, get_network_usage, get_system_volume, get_vpn_status, get_wifi_status,
    parse_pid,
};
use catfood_bar::text::{
    concat3, decimal_string, parse_bounded, parse_u32, parse_u64, signed_decimal_string, str_contains,
    str_ends_with, str_eq, str_starts_with, to_chars,
};
use catfood_bar::tree::{flag_at, get, get_item, int_at, text_at};
use catfood_bar::wayland_client::{
    find_focused_window, get_windows, get_workspaces, hyprland_active_window, hyprland_active_workspace,
    select_backend, sway_active_workspace, sway_windows, Backend, Query, WaylandManager, WindowInfo, WorkspaceInfo,
};

fn output(success: bool, stdout: &str) -> CommandOutput {
    CommandOutput { success, stdout: stdout.to_string(), stderr: String::new() }
}

fn strings(items: &[&str]) -> Vec<String> {
    items.iter().map(|item| item.to_string()).collect()
}

#[test]
fn text_basics() {
    assert!(str_eq("abc", "abc"));
    assert!(!str_eq("abc", "abd"));
    assert!(!str_eq("abc", "ab"));
    assert!(str_eq("", ""));
    assert_eq!(catfood_bar::text::concat("ab", "cd"), "abcd");
    assert_eq!(concat3("a", "", "c"), "ac");
    assert_eq!(to_chars("h\u{e9}!"), vec!['h', '\u{e9}', '!']);
    assert!(str_contains("a [MUTED] b", "[MUTED]"));
    assert!(str_contains("abc", ""));
    assert!(str_contains("", ""));
    assert!(!str_contains("ab", "abc"));
    assert!(!str_contains("abcabd", "abx"));
    assert!(str_contains("ababc", "abc"));
    assert!(str_starts_with("wifi:x", "wifi:"));
    assert!(!str_starts_with("wif", "wifi:"));
    assert!(!str_starts_with("xwifi:", "wifi:"));
    assert!(str_ends_with("disk.lua", ".lua"));
    assert!(!str_ends_with("lua", ".lua"));
    assert!(str_ends_with("x", ""));
}

#[test]
fn unsigned_numbers_parse_as_in_std() {
    assert_eq!(parse_u32("0"), Some(0));
    assert_eq!(parse_u32("42"), Some(42));
    assert_eq!(parse_u32("+42"), Some(42));
    assert_eq!(parse_u32("007"), Some(7));
    assert_eq!(parse_u32("4294967295"), Some(u32::MAX));
    assert_eq!(parse_u32("4294967296"), None);
    assert_eq!(parse_u32("00000000000000000000000001"), Some(1));
    assert_eq!(parse_u32(""), None);
    assert_eq!(parse_u32("+"), None);
    assert_eq!(parse_u32("-1"), None);
    assert_eq!(parse_u32("-0"), None);
    assert_eq!(parse_u32("++1"), None);
    assert_eq!(parse_u32("1 "), None);
    assert_eq!(parse_u32(" 1"), None);
    assert_eq!(parse_u32("1.0"), None);
    assert_eq!(parse_u32("12a"), None);
    assert_eq!(parse_u32("\u{661}"), None);
    assert_eq!(parse_u64("18446744073709551615"), Some(u64::MAX));
    assert_eq!(parse_u64("18446744073709551616"), None);
    assert_eq!(parse_u64("99999999999999999999999"), None);
    assert_eq!(parse_bounded("10", 10), Some(10));
    assert_eq!(parse_bounded("11", 10), None);
    for text in ["0", "42", "+42", "", "+", "-1", "4294967295", "4294967296", "1 ", "x"] {
        assert_eq!(parse_u32(text), text.parse::<u32>().ok(), "{}", text);
    }
}

#[test]
fn numbers_are_written_as_in_std() {
    assert_eq!(decimal_string(0), "0");
    assert_eq!(decimal_string(9), "9");
    assert_eq!(decimal_string(10), "10");
    assert_eq!(decimal_string(1234567890), "1234567890");
    assert_eq!(decimal_string(u64::MAX), u64::MAX.to_string());
    assert_eq!(signed_decimal_string(0), "0");
    assert_eq!(signed_decimal_string(-1), "-1");
    assert_eq!(signed_decimal_string(45), "45");
    assert_eq!(signed_decimal_string(i64::MIN), i64::MIN.to_string());
    assert_eq!(signed_decimal_string(i64::MAX), i64::MAX.to_string());
}

#[test]
fn split_matches_std() {
    for (text, sep) in [("a:b:c", ':'), ("", ':'), (":", ':'), ("a::", ':'), ("wifi:connected:home", ':'), ("abc", ':')] {
        let expected: Vec<String> = text.split(sep).map(|piece| piece.to_string()).collect();
        assert_eq!(split_on(text, sep), expected, "{:?}", text);
    }
    assert_eq!(split_on("a:b:", ':'), strings(&["a", "b", ""]));
}

#[test]
fn lines_match_std() {
    for text in ["", "a", "a\n", "a\nb", "a\r\nb\r\n", "a\n\n", "\n", "a\r", "a\rb\n", "\r\n", "x\ny\r"] {
        let expected: Vec<String> = text.lines().map(|line| line.to_string()).collect();
        assert_eq!(lines_of(text), expected, "{:?}", text);
    }
    assert_eq!(lines_of("one\r\ntwo\nthree"), strings(&["one", "two", "three"]));
}

#[test]
fn words_match_std() {
    for text in ["", " ", "a", " a  b\tc\n", "Volume: 0.45 [MUTED]", "\u{a0}x\u{3000}y\u{2003}", "a\u{200b}b"] {
        let expected: Vec<String> = text.split_whitespace().map(|word| word.to_string()).collect();
        assert_eq!(words_of(text), expected, "{:?}", text);
    }
    assert_eq!(words_of("Volume: 0.45 [MUTED]"), strings(&["Volume:", "0.45", "[MUTED]"]));
}

#[test]
fn white_space_matches_std() {
    for code in 0u32..0x3100 {
        if let Some(c) = char::from_u32(code) {
            assert_eq!(is_whitespace(c), c.is_whitespace(), "{:x}", code);
        }
    }
    assert!(!is_whitespace('\u{feff}'));
}

#[test]
fn trimming_matches_std() {
    for text in ["", "  ", " a ", "a", "\t a b \n", "\u{a0}x\u{3000}", " Germany"] {
        assert_eq!(trimmed(text), text.trim(), "{:?}", text);
    }
    assert_eq!(without_trailing("wlan0:", ':'), "wlan0");
    assert_eq!(without_trailing("wlan0:::", ':'), "wlan0");
    assert_eq!(without_trailing("wlan0", ':'), "wlan0");
    assert_eq!(without_trailing(":::", ':'), "");
    assert_eq!(split_first("Country: Germany: x", ':'), Some(("Country".to_string(), " Germany: x".to_string())));
    assert_eq!(split_first("no colon", ':'), None);
    assert_eq!(split_first(":", ':'), Some((String::new(), String::new())));
}

#[test]
fn wifi_status_reads_the_first_wifi_line() {
    let connected = output(true, "ethernet:connected:Wired\nwifi:connected:home\nwifi:disconnected:\n");
    assert_eq!(get_wifi_status(Some(&connected)), Some(("connected".to_string(), "home".to_string())));
    let upper = output(true, "wifi:CONNECTED:cafe\n");
    assert_eq!(get_wifi_status(Some(&upper)), Some(("connected".to_string(), "cafe".to_string())));
    let off = output(true, "wifi:unavailable:--\n");
    assert_eq!(get_wifi_status(Some(&off)), Some(("disconnected".to_string(), String::new())));
    let none = output(true, "ethernet:connected:Wired\nloopback:unmanaged:\n");
    assert_eq!(get_wifi_status(Some(&none)), Some(("disconnected".to_string(), String::new())));
    let short = output(true, "wifi:connected\nwifi:connected:second\n");
    assert_eq!(get_wifi_status(Some(&short)), Some(("connected".to_string(), "second".to_string())));
    let with_colon = output(true, "wifi:connected:my:net\n");
    assert_eq!(get_wifi_status(Some(&with_colon)), Some(("connected".to_string(), "my".to_string())));
    assert_eq!(get_wifi_status(Some(&output(true, ""))), Some(("disconnected".to_string(), String::new())));
    assert_eq!(get_wifi_status(Some(&output(false, "wifi:connected:home\n"))), None);
    assert_eq!(get_wifi_status(None), None);
}

const NET_DEV: &str = "Inter-|   Receive                                                |  Transmit
 face |bytes    packets errs drop fifo frame compressed multicast|bytes    packets errs drop fifo colls carrier compressed
    lo:  1000      10    0    0    0     0          0         0     1000      10    0    0    0     0       0          0
  eth0:  5000      50    0    0    0     0          0         0     7000      70    0    0    0     0       0          0
 wlan0: 123456    100    0    0    0     0          0         0   654321     200    0    0    0     0       0          0
wlp3s0:      1      1    0    0    0     0          0         0        2       2    0    0    0     0       0          0
";

#[test]
fn network_usage_adds_received_and_sent() {
    assert_eq!(get_network_usage(Some(NET_DEV)), Some(123456 + 654321));
    assert_eq!(get_network_usage(None), None);
    assert_eq!(get_network_usage(Some("")), None);
    assert_eq!(get_network_usage(Some("a\nb\n")), None);
    let headings_only = "h1\nh2\n  eth0: 1 2 3 4 5 6 7 8 9 10\n";
    assert_eq!(get_network_usage(Some(headings_only)), None);
    let in_heading = "wlan0: 1 0 0 0 0 0 0 0 2 0\nh2\n";
    assert_eq!(get_network_usage(Some(in_heading)), None);
    let wl = "h1\nh2\nwl0: 10 0 0 0 0 0 0 0 20 0\n";
    assert_eq!(get_network_usage(Some(wl)), Some(30));
    let wifi = "h1\nh2\nwifi0: 3 0 0 0 0 0 0 0 4 0\n";
    assert_eq!(get_network_usage(Some(wifi)), Some(7));
    let short = "h1\nh2\nwlan0: 1 2 3\nwlan1: 5 0 0 0 0 0 0 0 6 0\n";
    assert_eq!(get_network_usage(Some(short)), Some(11));
    let bad = "h1\nh2\nwlan0: x 0 0 0 0 0 0 0 6 0\nwlan1: 5 0 0 0 0 0 0 0 6 0\n";
    assert_eq!(get_network_usage(Some(bad)), None);
    let overflow = "h1\nh2\nwlan0: 18446744073709551615 0 0 0 0 0 0 0 1 0\n";
    assert_eq!(get_network_usage(Some(overflow)), None);
}

#[test]
fn wifi_reading_is_made_of_both_sources() {
    let run = output(true, "wifi:connected:home\n");
    let reading = WifiReading::from_outputs(Some(&run), Some(NET_DEV));
    assert_eq!(reading.link, Some(("connected".to_string(), "home".to_string())));
    assert_eq!(reading.bytes, Some(777777));
    let nothing = WifiReading::from_outputs(None, None);
    assert_eq!(nothing, WifiReading { link: None, bytes: None });
}

fn vpn(status: &str, country: &str, short: &str) -> VpnReading {
    VpnReading { status: status.to_string(), country: country.to_string(), short: short.to_string() }
}

#[test]
fn vpn_status_reads_status_and_country() {
    let connected = output(true, "Status: Connected\nServer: de123\nCountry: Germany\nCity: Berlin\n");
    assert_eq!(get_vpn_status(Some(&connected)), Some(vpn("connected", "Germany", "DE")));
    let elsewhere = output(true, "Status: Connected\nCountry: Atlantis\n");
    assert_eq!(get_vpn_status(Some(&elsewhere)), Some(vpn("connected", "Atlantis", "--")));
    let off = output(true, "Status: Disconnected\n");
    assert_eq!(get_vpn_status(Some(&off)), Some(vpn("disconnected", "", "--")));
    let country_only = output(true, "Country: France\n");
    assert_eq!(get_vpn_status(Some(&country_only)), Some(vpn("disconnected", "France", "--")));
    let nameless = output(true, "Status: Connected\n");
    assert_eq!(get_vpn_status(Some(&nameless)), Some(vpn("connected", "", "--")));
    let twice = output(true, "Country: France\nStatus: Connected\nCountry:  Sweden \n");
    assert_eq!(get_vpn_status(Some(&twice)), Some(vpn("connected", "Sweden", "SE")));
    let failed = output(false, "Status: Connected\nCountry: Germany\n");
    assert_eq!(get_vpn_status(Some(&failed)), Some(vpn("disconnected", "", "--")));
    assert_eq!(get_vpn_status(None), None);
}

#[test]
fn country_codes() {
    assert_eq!(get_country_short_name("United States"), "US");
    assert_eq!(get_country_short_name("United Kingdom"), "GB");
    assert_eq!(get_country_short_name("Germany"), "DE");
    assert_eq!(get_country_short_name("UAE"), "AE");
    assert_eq!(get_country_short_name("Taiwan"), "TW");
    assert_eq!(get_country_short_name("germany"), "--");
    assert_eq!(get_country_short_name(""), "--");
    assert_eq!(get_country_short_name("Narnia"), "--");
}

#[test]
fn volume_line_gives_the_second_word_and_the_mute_mark() {
    assert_eq!(get_system_volume(&output(true, "Volume: 0.45\n")), Some(("0.45".to_string(), false)));
    assert_eq!(get_system_volume(&output(true, "Volume: 1.00 [MUTED]\n")), Some(("1.00".to_string(), true)));
    assert_eq!(get_system_volume(&output(true, "Volume:\n")), None);
    assert_eq!(get_system_volume(&output(true, "")), None);
    assert_eq!(get_system_volume(&output(false, "Volume: 0.45\n")), None);
}

#[test]
fn pid_files_hold_a_number() {
    assert_eq!(parse_pid("1234\n"), Some(1234));
    assert_eq!(parse_pid("  77  "), Some(77));
    assert_eq!(parse_pid(""), None);
    assert_eq!(parse_pid("12 34"), None);
    assert_eq!(parse_pid("-5"), None);
    assert_eq!(parse_pid("4294967296"), None);
}

#[test]
fn tree_accessors_are_lenient() {
    let json = Json::parse(r#"{"id":7,"name":"x","on":true,"list":[10,20],"neg":-3,"big":18446744073709551615}"#)
        .unwrap();
    assert_eq!(int_at(&json, "id"), Some(7));
    assert_eq!(int_at(&json, "neg"), Some(-3));
    assert_eq!(int_at(&json, "big"), None);
    assert_eq!(int_at(&json, "name"), None);
    assert_eq!(int_at(&json, "missing"), None);
    assert_eq!(text_at(&json, "name"), Some("x".to_string()));
    assert_eq!(text_at(&json, "id"), None);
    assert_eq!(flag_at(&json, "on"), Some(true));
    assert_eq!(flag_at(&json, "id"), None);
    assert_eq!(get(&json, "list"), Some(&Json::Array(vec![Json::Number(Some(10), Some(10)), Json::Number(Some(20), Some(20))])));
    assert_eq!(get(&json, "nope"), None);
    assert_eq!(get(&Json::Null, "id"), None);
    let list = get(&json, "list").unwrap();
    assert_eq!(get_item(list, 1), Some(&Json::Number(Some(20), Some(20))));
    assert_eq!(get_item(list, 2), None);
    assert_eq!(get_item(&json, 0), None);
}

fn workspace(id: &str, name: &str, is_active: bool) -> WorkspaceInfo {
    WorkspaceInfo { id: id.to_string(), name: name.to_string(), is_active }
}

#[test]
fn compositor_is_chosen_by_the_environment() {
    assert_eq!(select_backend(true, true), Backend::Hyprland);
    assert_eq!(select_backend(true, false), Backend::Hyprland);
    assert_eq!(select_backend(false, true), Backend::Sway);
    assert_eq!(select_backend(false, false), Backend::Generic);
}

#[test]
fn hyprland_answers_are_read() {
    let list = Json::parse(r#"[{"id":1,"name":"1"},{"id":-98,"name":"special:scratch"},{"name":5},7]"#).unwrap();
    assert_eq!(
        get_workspaces(&list, Backend::Hyprland),
        Some(vec![
            workspace("1", "1", false),
            workspace("-98", "special:scratch", false),
            workspace("0", "", false),
            workspace("0", "", false),
        ])
    );
    assert_eq!(get_workspaces(&Json::parse("{}").unwrap(), Backend::Hyprland), None);
    assert_eq!(hyprland_active_workspace(&Json::parse(r#"{"id":3,"name":"3"}"#).unwrap()), "3");
    assert_eq!(hyprland_active_workspace(&Json::parse(r#"{}"#).unwrap()), "0");
    assert_eq!(hyprland_active_window(&Json::parse(r#"{"address":"0xabc"}"#).unwrap()), Some("0xabc".to_string()));
    assert_eq!(hyprland_active_window(&Json::parse(r#"{"address":5}"#).unwrap()), None);
    let clients = Json::parse(
        r#"[{"address":"0x1","title":"a","class":"kitty","workspace":{"id":1}},
            {"address":"0x2","title":"b","class":"kitty","workspace":{"id":-99}},
            {"address":"0x3","title":"c","class":"kitty","workspace":{"id":0}},
            {"address":"0x4","title":"d","workspace":{"id":2}},
            {"address":"0x5","title":"e","class":"firefox"},
            {"address":"0x6","title":"f","class":"firefox","workspace":{"id":4}}]"#,
    )
    .unwrap();
    assert_eq!(
        get_windows(&clients),
        Some(vec![
            WindowInfo { id: "0x1".to_string(), title: "a".to_string(), class: "kitty".to_string() },
            WindowInfo { id: "0x6".to_string(), title: "f".to_string(), class: "firefox".to_string() },
        ])
    );
    assert_eq!(get_windows(&Json::Null), None);
}

#[test]
fn sway_answers_are_read() {
    let list = Json::parse(r#"[{"num":1,"name":"1: web","focused":false},{"num":2,"name":"2","focused":true}]"#)
        .unwrap();
    let workspaces = get_workspaces(&list, Backend::Sway).unwrap();
    assert_eq!(workspaces, vec![workspace("1", "1: web", false), workspace("2", "2", true)]);
    assert_eq!(sway_active_workspace(&workspaces), Some("2".to_string()));
    assert_eq!(sway_active_workspace(&vec![workspace("1", "1", false)]), None);
    assert_eq!(sway_active_workspace(&vec![]), None);
    let tree = Json::parse(
        r#"{"id":1,"nodes":[
              {"id":2,"nodes":[
                 {"id":3,"focused":false,"window_properties":{"title":"t3","class":"c3"},"nodes":[],"floating_nodes":[]},
                 {"id":4,"focused":true,"window_properties":{"title":"t4","class":"c4"}}],
               "floating_nodes":[{"id":5,"window_properties":{"title":"t5","class":"c5"}}]},
              {"id":6,"window_properties":{"title":"t6"}}],
            "floating_nodes":[{"id":7,"window_properties":{"title":"t7","class":"c7"}}]}"#,
    )
    .unwrap();
    let window = |id: &str, title: &str, class: &str| WindowInfo {
        id: id.to_string(),
        title: title.to_string(),
        class: class.to_string(),
    };
    assert_eq!(
        sway_windows(&tree),
        vec![window("3", "t3", "c3"), window("4", "t4", "c4"), window("5", "t5", "c5"), window("7", "t7", "c7")]
    );
    assert_eq!(find_focused_window(&tree, 128), Some("4".to_string()));
    assert_eq!(find_focused_window(&tree, 1), None);
    assert_eq!(find_focused_window(&Json::Null, 128), None);
    let focused_without_id =
        Json::parse(r#"{"focused":true,"window_properties":{},"nodes":[{"id":9,"focused":true,"window_properties":{}}]}"#)
            .unwrap();
    assert_eq!(find_focused_window(&focused_without_id, 128), None);
}

#[test]
fn client_list_must_be_complete() {
    let clients = Json::parse(
        r#"[{"address":"0x1","class":"kitty","title":"a","workspace":{"id":1,"name":"1"},"extra":true},
            {"address":"0x2","class":"firefox","title":"b","workspace":{"id":-99}}]"#,
    )
    .unwrap();
    let active = Json::parse(r#"{"address":"0x2"}"#).unwrap();
    assert_eq!(
        WindowsReading::from_json(&clients, Some(&active)),
        Some(WindowsReading {
            windows: vec![
                WindowReading {
                    address: "0x1".to_string(),
                    class: "kitty".to_string(),
                    title: "a".to_string(),
                    workspace: 1
                },
                WindowReading {
                    address: "0x2".to_string(),
                    class: "firefox".to_string(),
                    title: "b".to_string(),
                    workspace: -99
                },
            ],
            active: "0x2".to_string(),
        })
    );
    assert_eq!(WindowsReading::from_json(&clients, None).unwrap().active, "");
    assert_eq!(WindowsReading::from_json(&clients, Some(&Json::parse("{}").unwrap())).unwrap().active, "");
    assert_eq!(
        WindowsReading::from_json(&Json::parse("[]").unwrap(), None),
        Some(WindowsReading { windows: vec![], active: String::new() })
    );
    for broken in [
        r#"{}"#,
        r#"[{"address":"0x1","class":"kitty","title":"a"}]"#,
        r#"[{"address":"0x1","class":"kitty","title":"a","workspace":{"id":"1"}}]"#,
        r#"[{"address":"0x1","class":"kitty","title":"a","workspace":{"id":2147483648}}]"#,
        r#"[{"address":1,"class":"kitty","title":"a","workspace":{"id":1}}]"#,
        r#"[5]"#,
    ] {
        assert_eq!(WindowsReading::from_json(&Json::parse(broken).unwrap(), None), None, "{}", broken);
    }
}

#[test]
fn weather_answer_is_read() {
    let answer = Json::parse(
        r#"{"current_condition":[{"temp_C":"17","weatherDesc":[{"value":"Light rain"}]}],"weather":[]}"#,
    )
    .unwrap();
    assert_eq!(fetch_weather(&answer), Some(("17".to_string(), "Light rain".to_string())));
    let bare = Json::parse(r#"{"current_condition":[{}]}"#).unwrap();
    assert_eq!(fetch_weather(&bare), Some(("--".to_string(), "Unknown".to_string())));
    let numeric = Json::parse(r#"{"current_condition":[{"temp_C":17,"weatherDesc":{"value":"x"}}]}"#).unwrap();
    assert_eq!(fetch_weather(&numeric), Some(("--".to_string(), "Unknown".to_string())));
    assert_eq!(fetch_weather(&Json::parse(r#"{"current_condition":[]}"#).unwrap()), None);
    assert_eq!(fetch_weather(&Json::parse(r#"{"current_condition":{}}"#).unwrap()), None);
    assert_eq!(fetch_weather(&Json::parse(r#"{}"#).unwrap()), None);
    assert_eq!(fetch_weather(&Json::Null), None);
}

#[test]
fn log_records_have_their_category() {
    assert_eq!(
        log_file_watcher_error("lost"),
        LogRecord { category: "FILE_WATCHER".to_string(), message: "lost".to_string() }
    );
    assert_eq!(log_config_error("bad"), LogRecord { category: "CONFIG".to_string(), message: "bad".to_string() });
    assert_eq!(
        log_component_error("wifi", "down"),
        LogRecord { category: "COMPONENT_WIFI".to_string(), message: "down".to_string() }
    );
    assert_eq!(
        log_component_error("BRIGHTNESS", "x"),
        LogRecord { category: "COMPONENT_BRIGHTNESS".to_string(), message: "x".to_string() }
    );
    assert_eq!(
        log_system_error("Left Bar", "oops"),
        LogRecord { category: "SYSTEM".to_string(), message: "oops".to_string() }
    );
}

#[test]
fn log_lines_carry_time_category_and_message() {
    let record = log_config_error("Failed to reload configuration: bad");
    assert_eq!(
        record.line_at("2024-05-01T10:00:00+00:00"),
        "2024-05-01T10:00:00+00:00 [ERROR] [CONFIG] Failed to reload configuration: bad"
    );
    let line = record.line();
    assert!(line.ends_with(" [ERROR] [CONFIG] Failed to reload configuration: bad"));
    assert!(line.len() > " [ERROR] [CONFIG] Failed to reload configuration: bad".len() + 19);
    assert_eq!(start_banner("T"), "\n\n=== catfoodBar started at T ===");
}

#[test]
fn the_log_is_cut_to_its_last_thousand_lines() {
    let long: String = (0..1500).map(|i| format!("line {}\n", i)).collect();
    assert_eq!(rotate_log_if_needed(&long, 1024 * 1024), None);
    assert_eq!(rotate_log_if_needed(&long, 100), None);
    let cut = rotate_log_if_needed(&long, 1024 * 1024 + 1).unwrap();
    let kept: Vec<&str> = cut.split('\n').collect();
    assert_eq!(kept.len(), 1000);
    assert_eq!(kept[0], "line 500");
    assert_eq!(kept[999], "line 1499");
    let short: String = (0..1000).map(|i| format!("line {}\n", i)).collect();
    assert_eq!(rotate_log_if_needed(&short, 5_000_000), None);
    let one_more: String = (0..1001).map(|i| format!("{}\n", i)).collect();
    let cut = rotate_log_if_needed(&one_more, 5_000_000).unwrap();
    assert!(cut.starts_with("1\n2\n"));
    assert!(cut.ends_with("\n1000"));
}

#[test]
fn the_manager_knows_command_and_answer() {
    let hyprland = WaylandManager::new(true, true);
    let sway = WaylandManager::new(false, true);
    let generic = WaylandManager::new(false, false);
    assert_eq!(hyprland.backend, Backend::Hyprland);
    assert_eq!(hyprland.command(Query::Workspaces), strings(&["hyprctl", "workspaces", "-j"]));
    assert_eq!(hyprland.command(Query::Windows), strings(&["hyprctl", "clients", "-j"]));
    assert_eq!(hyprland.command(Query::ActiveWorkspace), strings(&["hyprctl", "activeworkspace", "-j"]));
    assert_eq!(hyprland.command(Query::ActiveWindow), strings(&["hyprctl", "activewindow", "-j"]));
    assert_eq!(sway.command(Query::Workspaces), strings(&["i3-msg", "-t", "get_workspaces"]));
    assert_eq!(sway.command(Query::Windows), strings(&["i3-msg", "-t", "get_tree"]));
    assert_eq!(sway.command(Query::ActiveWorkspace), strings(&["i3-msg", "-t", "get_workspaces"]));
    assert_eq!(sway.command(Query::ActiveWindow), strings(&["i3-msg", "-t", "get_tree"]));
    assert_eq!(generic.command(Query::Workspaces), Vec::<String>::new());
    let list = Json::parse(r#"[{"id":4,"num":1,"name":"one","focused":true}]"#).unwrap();
    assert_eq!(hyprland.get_workspaces(&list), Some(vec![workspace("4", "one", false)]));
    assert_eq!(sway.get_workspaces(&list), Some(vec![workspace("1", "one", true)]));
    assert_eq!(generic.get_workspaces(&list), Some(vec![]));
    assert_eq!(hyprland.get_workspaces(&Json::Null), None);
    assert_eq!(hyprland.get_active_workspace(&Json::parse(r#"{"id":4}"#).unwrap()), Some("4".to_string()));
    assert_eq!(sway.get_active_workspace(&list), Some("1".to_string()));
    assert_eq!(sway.get_active_workspace(&Json::Null), None);
    assert_eq!(generic.get_active_workspace(&list), None);
    let tree = Json::parse(r#"{"nodes":[{"id":8,"focused":true,"window_properties":{"title":"t","class":"c"}}]}"#)
        .unwrap();
    let window = WindowInfo { id: "8".to_string(), title: "t".to_string(), class: "c".to_string() };
    assert_eq!(sway.get_windows(&tree), Some(vec![window]));
    assert_eq!(sway.get_active_window(&tree), Some("8".to_string()));
    assert_eq!(hyprland.get_windows(&tree), None);
    assert_eq!(hyprland.get_active_window(&Json::parse(r#"{"address":"0x9"}"#).unwrap()), Some("0x9".to_string()));
    assert_eq!(generic.get_windows(&tree), Some(vec![]));
    assert_eq!(generic.get_active_window(&tree), None);
}
