//! Reading what the machine's tools print: the network manager's device
//! list, the kernel's interface counters, the private network's status, the
//! audio sink's volume line.

use vstd::prelude::*;
use vstd::string::*;
use crate::json::{Json, JsonValue};
use crate::readings::{CommandOutput, VpnReading, WifiReading, WindowReading, WindowReadingView, WindowsReading};
use crate::tree::{as_int, as_text, at, get, get_item, int_at, item, text_at};
use crate::scan::{
    lines, lines_of, split, split_first, split_on, split_once, strip_trailing, trim, trimmed, without_trailing,
    words, words_of,
};
use crate::text::{
    contains, lowercase, parse_u64, parse_unsigned, starts_with, str_contains, str_eq, str_starts_with, to_lowercase,
};

verus! {

/// The short name of a country; two dashes for a country that is not listed.
pub open spec fn country_code(country: Seq<char>) -> Seq<char> {
    if country == "United States"@ {
        "US"@
    } else if country == "United Kingdom"@ {
        "GB"@
    } else if country == "Germany"@ {
        "DE"@
    } else if country == "France"@ {
        "FR"@
    } else if country == "Netherlands"@ {
        "NL"@
    } else if country == "Sweden"@ {
        "SE"@
    } else if country == "Norway"@ {
        "NO"@
    } else if country == "Denmark"@ {
        "DK"@
    } else if country == "Finland"@ {
        "FI"@
    } else if country == "Switzerland"@ {
        "CH"@
    } else if country == "Austria"@ {
        "AT"@
    } else if country == "Belgium"@ {
        "BE"@
    } else if country == "Italy"@ {
        "IT"@
    } else if country == "Spain"@ {
        "ES"@
    } else if country == "Poland"@ {
        "PL"@
    } else if country == "Czech Republic"@ {
        "CZ"@
    } else if country == "Hungary"@ {
        "HU"@
    } else if country == "Romania"@ {
        "RO"@
    } else if country == "Bulgaria"@ {
        "BG"@
    } else if country == "Croatia"@ {
        "HR"@
    } else if country == "Slovakia"@ {
        "SK"@
    } else if country == "Slovenia"@ {
        "SI"@
    } else if country == "Estonia"@ {
        "EE"@
    } else if country == "Latvia"@ {
        "LV"@
    } else if country == "Lithuania"@ {
        "LT"@
    } else if country == "Portugal"@ {
        "PT"@
    } else if country == "Greece"@ {
        "GR"@
    } else if country == "Ireland"@ {
        "IE"@
    } else if country == "Luxembourg"@ {
        "LU"@
    } else if country == "Cyprus"@ {
        "CY"@
    } else if country == "Malta"@ {
        "MT"@
    } else if country == "Canada"@ {
        "CA"@
    } else if country == "Australia"@ {
        "AU"@
    } else if country == "New Zealand"@ {
        "NZ"@
    } else if country == "Japan"@ {
        "JP"@
    } else if country == "South Korea"@ {
        "KR"@
    } else if country == "Singapore"@ {
        "SG"@
    } else if country == "India"@ {
        "IN"@
    } else if country == "Brazil"@ {
        "BR"@
    } else if country == "Argentina"@ {
        "AR"@
    } else if country == "Chile"@ {
        "CL"@
    } else if country == "Mexico"@ {
        "MX"@
    } else if country == "South Africa"@ {
        "ZA"@
    } else if country == "Turkey"@ {
        "TR"@
    } else if country == "Israel"@ {
        "IL"@
    } else if country == "UAE"@ {
        "AE"@
    } else if country == "Saudi Arabia"@ {
        "SA"@
    } else if country == "Egypt"@ {
        "EG"@
    } else if country == "Morocco"@ {
        "MA"@
    } else if country == "Nigeria"@ {
        "NG"@
    } else if country == "Kenya"@ {
        "KE"@
    } else if country == "Thailand"@ {
        "TH"@
    } else if country == "Vietnam"@ {
        "VN"@
    } else if country == "Philippines"@ {
        "PH"@
    } else if country == "Indonesia"@ {
        "ID"@
    } else if country == "Malaysia"@ {
        "MY"@
    } else if country == "Hong Kong"@ {
        "HK"@
    } else if country == "Taiwan"@ {
        "TW"@
    } else {
        "--"@
    }
}

/// The short name of a country; two dashes for a country that is not listed.
pub fn get_country_short_name(country: &str) -> (r: String)
    ensures
        r@ == country_code(country@),
{
    let code = if str_eq(country, "United States") {
        "US"
    } else if str_eq(country, "United Kingdom") {
        "GB"
    } else if str_eq(country, "Germany") {
        "DE"
    } else if str_eq(country, "France") {
        "FR"
    } else if str_eq(country, "Netherlands") {
        "NL"
    } else if str_eq(country, "Sweden") {
        "SE"
    } else if str_eq(country, "Norway") {
        "NO"
    } else if str_eq(country, "Denmark") {
        "DK"
    } else if str_eq(country, "Finland") {
        "FI"
    } else if str_eq(country, "Switzerland") {
        "CH"
    } else if str_eq(country, "Austria") {
        "AT"
    } else if str_eq(country, "Belgium") {
        "BE"
    } else if str_eq(country, "Italy") {
        "IT"
    } else if str_eq(country, "Spain") {
        "ES"
    } else if str_eq(country, "Poland") {
        "PL"
    } else if str_eq(country, "Czech Republic") {
        "CZ"
    } else if str_eq(country, "Hungary") {
        "HU"
    } else if str_eq(country, "Romania") {
        "RO"
    } else if str_eq(country, "Bulgaria") {
        "BG"
    } else if str_eq(country, "Croatia") {
        "HR"
    } else if str_eq(country, "Slovakia") {
        "SK"
    } else if str_eq(country, "Slovenia") {
        "SI"
    } else if str_eq(country, "Estonia") {
        "EE"
    } else if str_eq(country, "Latvia") {
        "LV"
    } else if str_eq(country, "Lithuania") {
        "LT"
    } else if str_eq(country, "Portugal") {
        "PT"
    } else if str_eq(country, "Greece") {
        "GR"
    } else if str_eq(country, "Ireland") {
        "IE"
    } else if str_eq(country, "Luxembourg") {
        "LU"
    } else if str_eq(country, "Cyprus") {
        "CY"
    } else if str_eq(country, "Malta") {
        "MT"
    } else if str_eq(country, "Canada") {
        "CA"
    } else if str_eq(country, "Australia") {
        "AU"
    } else if str_eq(country, "New Zealand") {
        "NZ"
    } else if str_eq(country, "Japan") {
        "JP"
    } else if str_eq(country, "South Korea") {
        "KR"
    } else if str_eq(country, "Singapore") {
        "SG"
    } else if str_eq(country, "India") {
        "IN"
    } else if str_eq(country, "Brazil") {
        "BR"
    } else if str_eq(country, "Argentina") {
        "AR"
    } else if str_eq(country, "Chile") {
        "CL"
    } else if str_eq(country, "Mexico") {
        "MX"
    } else if str_eq(country, "South Africa") {
        "ZA"
    } else if str_eq(country, "Turkey") {
        "TR"
    } else if str_eq(country, "Israel") {
        "IL"
    } else if str_eq(country, "UAE") {
        "AE"
    } else if str_eq(country, "Saudi Arabia") {
        "SA"
    } else if str_eq(country, "Egypt") {
        "EG"
    } else if str_eq(country, "Morocco") {
        "MA"
    } else if str_eq(country, "Nigeria") {
        "NG"
    } else if str_eq(country, "Kenya") {
        "KE"
    } else if str_eq(country, "Thailand") {
        "TH"
    } else if str_eq(country, "Vietnam") {
        "VN"
    } else if str_eq(country, "Philippines") {
        "PH"
    } else if str_eq(country, "Indonesia") {
        "ID"
    } else if str_eq(country, "Malaysia") {
        "MY"
    } else if str_eq(country, "Hong Kong") {
        "HK"
    } else if str_eq(country, "Taiwan") {
        "TW"
    } else {
        "--"
    };
    String::from_str(code)
}

/// The wireless link that the network manager's device lines tell of. The
/// first line that begins with `wifi:` and has at least three fields between
/// colons decides: the link is connected, to the network of the third
/// field, where the second field says `connected` in any case; otherwise,
/// and without such a line, it is disconnected.
pub open spec fn wifi_link(device_lines: Seq<Seq<char>>) -> (Seq<char>, Seq<char>)
    decreases device_lines.len(),
{
    if device_lines.len() == 0 {
        ("disconnected"@, ""@)
    } else {
        let line = device_lines[0];
        let fields = split(line, ':');
        if starts_with(line, "wifi:"@) && fields.len() >= 3 {
            if lowercase(fields[1]) == "connected"@ {
                ("connected"@, fields[2])
            } else {
                ("disconnected"@, ""@)
            }
        } else {
            wifi_link(device_lines.drop_first())
        }
    }
}

/// The wireless link that a run of the network manager tells of; `None`
/// where the run was not taken or failed.
pub open spec fn wifi_status(output: Option<&CommandOutput>) -> Option<(Seq<char>, Seq<char>)> {
    match output {
        Some(run) => if run.success {
            Some(wifi_link(lines(run.stdout@)))
        } else {
            None
        },
        None => None,
    }
}

/// Reads the wireless link out of a run of the network manager.
pub fn get_wifi_status(output: Option<&CommandOutput>) -> (r: Option<(String, String)>)
    ensures
        r.deep_view() == wifi_status(output),
{
    let run = match output {
        Some(run) => run,
        None => {
            return None;
        },
    };
    if !run.success {
        return None;
    }
    let device_lines = lines_of(run.stdout.as_str());
    let ghost all = device_lines.deep_view();
    let mut i: usize = 0;
    assert(all.skip(0) =~= all);
    while i < device_lines.len()
        invariant
            i <= device_lines.len(),
            all == device_lines.deep_view(),
            wifi_status(output) == Some(wifi_link(all)),
            wifi_link(all) == wifi_link(all.skip(i as int)),
        decreases device_lines.len() - i,
    {
        let line = device_lines[i].as_str();
        proof {
            assert(all.skip(i as int)[0] == line@);
            assert(all.skip(i as int).drop_first() =~= all.skip(i + 1));
        }
        if str_starts_with(line, "wifi:") {
            let fields = split_on(line, ':');
            if fields.len() >= 3 {
                assert(fields.deep_view()[1] == fields[1]@);
                assert(fields.deep_view()[2] == fields[2]@);
                let state = to_lowercase(fields[1].as_str());
                if str_eq(state.as_str(), "connected") {
                    return Some((String::from_str("connected"), fields[2].clone()));
                } else {
                    return Some((String::from_str("disconnected"), String::from_str("")));
                }
            }
        }
        i = i + 1;
    }
    Some((String::from_str("disconnected"), String::from_str("")))
}

/// Whether an interface is a wireless one, by its name.
pub open spec fn is_wireless(interface: Seq<char>) -> bool {
    starts_with(interface, "wlan"@) || starts_with(interface, "wifi"@) || starts_with(interface, "wl"@)
}

/// The bytes that the first wireless interface among these counter lines
/// has moved: received plus sent, the second and the tenth word of its
/// line. `None` where no line of at least ten words names a wireless
/// interface, where one of the two counters of the first such line is no
/// number, and where their sum does not fit.
pub open spec fn wireless_bytes(counter_lines: Seq<Seq<char>>) -> Option<u64>
    decreases counter_lines.len(),
{
    if counter_lines.len() == 0 {
        None
    } else {
        let fields = words(counter_lines[0]);
        if fields.len() >= 10 && is_wireless(strip_trailing(fields[0], ':')) {
            match (parse_unsigned(fields[1], u64::MAX as nat), parse_unsigned(fields[9], u64::MAX as nat)) {
                (Some(received), Some(sent)) => if received + sent <= u64::MAX {
                    Some((received + sent) as u64)
                } else {
                    None
                },
                _ => None,
            }
        } else {
            wireless_bytes(counter_lines.drop_first())
        }
    }
}

/// The bytes that the wireless interface has moved, by the kernel's table
/// of interface counters, whose first two lines are headings.
pub open spec fn network_usage(content: Option<&str>) -> Option<u64> {
    match content {
        Some(text) => if lines(text@).len() > 2 {
            wireless_bytes(lines(text@).skip(2))
        } else {
            None
        },
        None => None,
    }
}

/// Reads the wireless interface's traffic out of the kernel's table of
/// interface counters.
pub fn get_network_usage(content: Option<&str>) -> (r: Option<u64>)
    ensures
        r == network_usage(content),
{
    let text = match content {
        Some(text) => text,
        None => {
            return None;
        },
    };
    let counter_lines = lines_of(text);
    let ghost all = counter_lines.deep_view();
    if counter_lines.len() <= 2 {
        return None;
    }
    let mut i: usize = 2;
    while i < counter_lines.len()
        invariant
            2 <= i <= counter_lines.len(),
            all == counter_lines.deep_view(),
            network_usage(content) == wireless_bytes(all.skip(2)),
            wireless_bytes(all.skip(2)) == wireless_bytes(all.skip(i as int)),
        decreases counter_lines.len() - i,
    {
        let line = counter_lines[i].as_str();
        proof {
            assert(all.skip(i as int)[0] == line@);
            assert(all.skip(i as int).drop_first() =~= all.skip(i + 1));
        }
        let fields = words_of(line);
        if fields.len() >= 10 {
            assert(fields.deep_view()[0] == fields[0]@);
            assert(fields.deep_view()[1] == fields[1]@);
            assert(fields.deep_view()[9] == fields[9]@);
            let interface = without_trailing(fields[0].as_str(), ':');
            if str_starts_with(interface.as_str(), "wlan") || str_starts_with(interface.as_str(), "wifi")
                || str_starts_with(interface.as_str(), "wl") {
                let received = match parse_u64(fields[1].as_str()) {
                    Some(n) => n,
                    None => {
                        return None;
                    },
                };
                let sent = match parse_u64(fields[9].as_str()) {
                    Some(n) => n,
                    None => {
                        return None;
                    },
                };
                return received.checked_add(sent);
            }
        }
        i = i + 1;
    }
    None
}

/// What the status lines of the private network say so far: whether one of
/// them reported a connection, and the country that the last line with a
/// country names.
pub open spec fn vpn_scan(status_lines: Seq<Seq<char>>) -> (bool, Seq<char>)
    decreases status_lines.len(),
{
    if status_lines.len() == 0 {
        (false, Seq::empty())
    } else {
        let (connected, country) = vpn_scan(status_lines.drop_last());
        let line = status_lines.last();
        if contains(line, "Status:"@) {
            (connected || contains(line, "Connected"@), country)
        } else if contains(line, "Country:"@) {
            match split_once(line, ':') {
                Some((_, value)) => (connected, trim(value)),
                None => (connected, country),
            }
        } else {
            (connected, country)
        }
    }
}

/// Whether `reading` is the state that a run of the private network's
/// status command tells of. A run that failed tells of a disconnected
/// network. Otherwise the network is connected where a status line says so;
/// its short name is that of the country where it is connected and the
/// country is named, two dashes otherwise.
pub open spec fn vpn_status_is(output: &CommandOutput, reading: VpnReading) -> bool {
    if !output.success {
        reading.status@ == "disconnected"@ && reading.country@ == ""@ && reading.short@ == "--"@
    } else {
        let (connected, country) = vpn_scan(lines(output.stdout@));
        &&& reading.status@ == if connected {
            "connected"@
        } else {
            "disconnected"@
        }
        &&& reading.country@ == country
        &&& reading.short@ == if connected && country.len() > 0 {
            country_code(country)
        } else {
            "--"@
        }
    }
}

/// Reads the state of the private network out of a run of its status
/// command; `None` where the run was not taken.
pub fn get_vpn_status(output: Option<&CommandOutput>) -> (r: Option<VpnReading>)
    ensures
        match (output, r) {
            (Some(run), Some(reading)) => vpn_status_is(run, reading),
            (None, None) => true,
            _ => false,
        },
{
    let run = match output {
        Some(run) => run,
        None => {
            return None;
        },
    };
    if !run.success {
        return Some(
            VpnReading {
                status: String::from_str("disconnected"),
                country: String::from_str(""),
                short: String::from_str("--"),
            },
        );
    }
    let status_lines = lines_of(run.stdout.as_str());
    let ghost all = status_lines.deep_view();
    let mut connected = false;
    let mut country = String::from_str("");
    let mut i: usize = 0;
    assert(all.take(0) =~= Seq::<Seq<char>>::empty());
    proof {
        reveal_strlit("");
        assert(""@ =~= Seq::<char>::empty());
    }
    while i < status_lines.len()
        invariant
            i <= status_lines.len(),
            all == status_lines.deep_view(),
            vpn_scan(all.take(i as int)) == (connected, country@),
        decreases status_lines.len() - i,
    {
        let line = status_lines[i].as_str();
        proof {
            assert(all.take(i + 1).drop_last() =~= all.take(i as int));
            assert(all.take(i + 1).last() == line@);
        }
        if str_contains(line, "Status:") {
            if str_contains(line, "Connected") {
                connected = true;
            }
        } else if str_contains(line, "Country:") {
            match split_first(line, ':') {
                Some((_, value)) => {
                    country = trimmed(value.as_str());
                },
                None => {},
            }
        }
        i = i + 1;
    }
    assert(all.take(i as int) =~= all);
    let short = if connected && country.as_str().unicode_len() > 0 {
        get_country_short_name(country.as_str())
    } else {
        String::from_str("--")
    };
    let status = if connected {
        String::from_str("connected")
    } else {
        String::from_str("disconnected")
    };
    Some(VpnReading { status, country, short })
}

/// What the volume line of the audio tool holds: its second word, which
/// is the volume as a fraction of one, and whether it is marked as muted.
/// `None` where the run failed or the line has no second word.
pub open spec fn volume_line(output: &CommandOutput) -> Option<(Seq<char>, bool)> {
    if output.success && words(output.stdout@).len() >= 2 {
        Some((words(output.stdout@)[1], contains(output.stdout@, "[MUTED]"@)))
    } else {
        None
    }
}

/// Reads the volume word and the mute mark out of a run of the audio tool.
pub fn get_system_volume(output: &CommandOutput) -> (r: Option<(String, bool)>)
    ensures
        r.deep_view() == volume_line(output),
{
    if !output.success {
        return None;
    }
    let is_muted = str_contains(output.stdout.as_str(), "[MUTED]");
    let fields = words_of(output.stdout.as_str());
    if fields.len() >= 2 {
        assert(fields.deep_view()[1] == fields[1]@);
        Some((fields[1].clone(), is_muted))
    } else {
        None
    }
}

impl WifiReading {
    /// The reading that a run of the network manager and the kernel's
    /// table of interface counters give.
    pub fn from_outputs(device_list: Option<&CommandOutput>, counters: Option<&str>) -> (r: WifiReading)
        ensures
            r.link.deep_view() == wifi_status(device_list),
            r.bytes == network_usage(counters),
    {
        WifiReading { link: get_wifi_status(device_list), bytes: get_network_usage(counters) }
    }
}


/// The window that an element of the compositor's client list stands for:
/// an object with the texts `address`, `class` and `title` and with an
/// object `workspace` whose `id` is an integer of 32 bits. Any other
/// element stands for none.
pub open spec fn client_of(value: JsonValue) -> Option<WindowReadingView> {
    match (
        as_text(at(value, "address"@)),
        as_text(at(value, "class"@)),
        as_text(at(value, "title"@)),
        as_int(at(at(value, "workspace"@), "id"@)),
    ) {
        (Some(address), Some(class), Some(title), Some(workspace)) => if i32::MIN <= workspace <= i32::MAX {
            Some(WindowReadingView { address, class, title, workspace: workspace as i32 })
        } else {
            None
        },
        _ => None,
    }
}

/// The windows that the elements of a client list stand for; `None` where
/// one of them stands for none.
pub open spec fn clients_of(elements: Seq<JsonValue>) -> Option<Seq<WindowReadingView>>
    decreases elements.len(),
{
    if elements.len() == 0 {
        Some(Seq::empty())
    } else {
        match (clients_of(elements.drop_last()), client_of(elements.last())) {
            (Some(before), Some(window)) => Some(before.push(window)),
            _ => None,
        }
    }
}

/// The address of the focused window by the compositor's answer: the text
/// `address` of the answer; empty where there is no answer or no such text.
pub open spec fn active_address(answer: Option<&Json>) -> Seq<char> {
    match answer {
        Some(json) => match as_text(at(json.deep_view(), "address"@)) {
            Some(address) => address,
            None => Seq::empty(),
        },
        None => Seq::empty(),
    }
}

fn client(json: &Json) -> (r: Option<WindowReading>)
    ensures
        r.deep_view() == client_of(json.deep_view()),
{
    let workspace = match get(json, "workspace") {
        Some(inner) => int_at(inner, "id"),
        None => None,
    };
    match (text_at(json, "address"), text_at(json, "class"), text_at(json, "title"), workspace) {
        (Some(address), Some(class), Some(title), Some(workspace)) => {
            if -0x8000_0000 <= workspace && workspace <= 0x7fff_ffff {
                Some(WindowReading { address, class, title, workspace: workspace as i32 })
            } else {
                None
            }
        },
        _ => None,
    }
}

impl WindowsReading {
    /// The reading that the compositor's client list and its answer on the
    /// focused window give; `None` where the client list is no list of
    /// windows.
    pub fn from_json(clients: &Json, active: Option<&Json>) -> (r: Option<WindowsReading>)
        ensures
            match r {
                Some(reading) => clients.deep_view() matches JsonValue::Array(elements) && clients_of(elements)
                    == Some(reading.windows.deep_view()) && reading.active@ == active_address(active),
                None => !(clients.deep_view() matches JsonValue::Array(elements) && clients_of(elements) is Some),
            },
    {
        match clients {
            Json::Array(elements) => {
                proof {
                    crate::json::lemma_array_value(*elements);
                }
                let ghost all = elements.deep_view();
                let mut windows: Vec<WindowReading> = Vec::new();
                let mut i: usize = 0;
                assert(all.take(0) =~= Seq::<JsonValue>::empty());
                assert(windows.deep_view() =~= Seq::<WindowReadingView>::empty());
                while i < elements.len()
                    invariant
                        i <= elements.len(),
                        all == elements.deep_view(),
                        clients.deep_view() == JsonValue::Array(all),
                        clients_of(all.take(i as int)) == Some(windows.deep_view()),
                    decreases elements.len() - i,
                {
                    let ghost before = windows.deep_view();
                    assert(all.take(i + 1).drop_last() =~= all.take(i as int));
                    assert(all.take(i + 1).last() == elements[i as int].deep_view());
                    match client(&elements[i]) {
                        Some(window) => {
                            windows.push(window);
                            assert(windows.deep_view() =~= before.push(window@));
                        },
                        None => {
                            proof {
                                lemma_clients_fail(all, i as int);
                            }
                            return None;
                        },
                    }
                    i = i + 1;
                }
                assert(all.take(i as int) =~= all);
                let address = match active {
                    Some(json) => match text_at(json, "address") {
                        Some(address) => address,
                        None => String::new(),
                    },
                    None => String::new(),
                };
                Some(WindowsReading { windows, active: address })
            },
            _ => None,
        }
    }
}

/// A client list with an element that stands for no window is no list of
/// windows.
proof fn lemma_clients_fail(elements: Seq<JsonValue>, i: int)
    requires
        0 <= i < elements.len(),
        client_of(elements[i]) is None,
    ensures
        clients_of(elements) is None,
    decreases elements.len(),
{
    if i < elements.len() - 1 {
        lemma_clients_fail(elements.drop_last(), i);
    }
}

/// What the weather service's answer says of the weather now: the
/// temperature in degrees Celsius as the answer writes it (two dashes
/// where it writes none) and the condition in words (`Unknown` where it
/// gives none). `None` where the answer lists no current condition.
pub open spec fn current_weather(answer: JsonValue) -> Option<(Seq<char>, Seq<char>)> {
    match at(answer, "current_condition"@) {
        JsonValue::Array(conditions) => if conditions.len() > 0 {
            let current = conditions[0];
            Some(
                (
                    match as_text(at(current, "temp_C"@)) {
                        Some(degrees) => degrees,
                        None => "--"@,
                    },
                    match as_text(at(item(at(current, "weatherDesc"@), 0), "value"@)) {
                        Some(condition) => condition,
                        None => "Unknown"@,
                    },
                ),
            )
        } else {
            None
        },
        _ => None,
    }
}

/// Reads the weather now out of the weather service's answer.
pub fn fetch_weather(answer: &Json) -> (r: Option<(String, String)>)
    ensures
        r.deep_view() == current_weather(answer.deep_view()),
{
    let conditions = match get(answer, "current_condition") {
        Some(conditions) => conditions,
        None => {
            return None;
        },
    };
    match conditions {
        Json::Array(elements) => {
            proof {
                crate::json::lemma_array_value(*elements);
            }
            if elements.len() == 0 {
                return None;
            }
            let current = &elements[0];
            let degrees = match text_at(current, "temp_C") {
                Some(degrees) => degrees,
                None => String::from_str("--"),
            };
            let described = match get(current, "weatherDesc") {
                Some(descriptions) => match get_item(descriptions, 0) {
                    Some(first) => text_at(first, "value"),
                    None => None,
                },
                None => None,
            };
            let condition = match described {
                Some(condition) => condition,
                None => String::from_str("Unknown"),
            };
            Some((degrees, condition))
        },
        _ => None,
    }
}

/// Whether a sensor is one of the processor, by its label in lower case:
/// the label names the processor, a core or the package.
pub open spec fn cpu_sensor(label: Seq<char>) -> bool {
    contains(label, "cpu"@) || contains(label, "core"@) || contains(label, "package"@)
}

/// Whether a sensor whose label is given in lower case is one of the
/// processor.
pub fn names_cpu_sensor(label: &str) -> (r: bool)
    ensures
        r == cpu_sensor(label@),
{
    str_contains(label, "cpu") || str_contains(label, "core") || str_contains(label, "package")
}

/// Whether a sensor is one of the processor, whatever the case of its label.
pub fn is_cpu_sensor(label: &str) -> (r: bool)
    ensures
        r == cpu_sensor(lowercase(label@)),
{
    let lowered = to_lowercase(label);
    names_cpu_sensor(lowered.as_str())
}

/// The process id that a PID file holds: its text without the white space
/// around it, read as a number of 32 bits.
pub open spec fn pid_of(content: Seq<char>) -> Option<nat> {
    parse_unsigned(trim(content), u32::MAX as nat)
}

/// Reads the process id out of the text of a PID file.
pub fn parse_pid(content: &str) -> (r: Option<u32>)
    ensures
        match r {
            Some(pid) => pid_of(content@) == Some(pid as nat),
            None => pid_of(content@) is None,
        },
{
    let text = trimmed(content);
    crate::text::parse_u32(text.as_str())
}

} // verus!
