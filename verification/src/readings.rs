//! What the outside world reported: the plain values that the widgets are
//! built from and refreshed with.
//!
//! Whoever runs the bar samples the machine (it runs the commands, asks the
//! compositor, reads the sensors) and hands the results over as values of
//! this module. A reading that is `None` was not taken.

use vstd::prelude::*;
use vstd::string::*;
use chrono::Timelike;
use crate::wayland_client::WorkspaceInfo;

verus! {

/// How a command ended and what it printed.
#[derive(Debug, PartialEq, Eq)]
pub struct CommandOutput {
    pub success: bool,
    pub stdout: String,
    pub stderr: String,
}

/// The wall clock at the moment of a reading: the local date and time as
/// text, and the hour of the day.
#[derive(Debug, PartialEq, Eq)]
pub struct ClockReading {
    pub text: String,
    pub hour: u32,
}

/// The audio sink's volume in percent and whether it is muted.
#[derive(Debug, Clone, Copy, PartialEq, Eq, Structural)]
pub struct VolumeReading {
    pub level: i32,
    pub is_muted: bool,
}

/// What the search for a battery gave.
#[derive(Debug, PartialEq, Eq)]
pub enum BatteryReading {
    /// A battery, its charge in percent and whether it is charging.
    Found { percentage: i32, is_charging: bool },
    /// The machine has no battery.
    Missing,
    /// The battery could not be asked; the text is the reason.
    Failed(String),
}

/// The wireless link: the device line of the network manager, and the bytes
/// that the wireless interface has moved so far.
#[derive(Debug, PartialEq, Eq)]
pub struct WifiReading {
    /// `(status, network)`, or `None` where the network manager gave nothing.
    pub link: Option<(String, String)>,
    /// Received plus sent bytes, or `None` where no wireless interface is listed.
    pub bytes: Option<u64>,
}

/// The state of the virtual private network: status, country and the
/// country's short name.
#[derive(Debug, PartialEq, Eq)]
pub struct VpnReading {
    pub status: String,
    pub country: String,
    pub short: String,
}

/// The weather as last published by the fetcher: the temperature in whole
/// degrees, as text, and the condition in words.
#[derive(Debug, PartialEq, Eq)]
pub struct WeatherReport {
    pub temperature: String,
    pub condition: String,
}

/// One window as the compositor lists it.
#[derive(Debug, PartialEq, Eq)]
pub struct WindowReading {
    pub address: String,
    pub class: String,
    pub title: String,
    pub workspace: i32,
}

/// The mathematical value of a [`WindowReading`].
pub struct WindowReadingView {
    pub address: Seq<char>,
    pub class: Seq<char>,
    pub title: Seq<char>,
    pub workspace: i32,
}

impl View for WindowReading {
    type V = WindowReadingView;

    open spec fn view(&self) -> WindowReadingView {
        WindowReadingView {
            address: self.address@,
            class: self.class@,
            title: self.title@,
            workspace: self.workspace,
        }
    }
}

impl DeepView for WindowReading {
    type V = WindowReadingView;

    open spec fn deep_view(&self) -> WindowReadingView {
        self@
    }
}

/// The compositor's windows and the address of the focused one.
#[derive(Debug, PartialEq, Eq)]
pub struct WindowsReading {
    pub windows: Vec<WindowReading>,
    pub active: String,
}

/// The compositor's workspaces and the id of the active one. Either part is
/// `None` where the compositor's answer was an error.
#[derive(Debug, PartialEq, Eq)]
pub struct WorkspacesReading {
    pub workspaces: Option<Vec<WorkspaceInfo>>,
    pub active: Option<Option<String>>,
}

/// Everything that was sampled for one pass over the widgets.
#[derive(Debug, PartialEq, Eq)]
pub struct Readings {
    /// Seconds on a clock that never runs backwards.
    pub now: u64,
    pub clock: ClockReading,
    pub brightness: Option<CommandOutput>,
    pub volume: Option<VolumeReading>,
    pub battery: BatteryReading,
    pub cpu: Option<u32>,
    pub ram: Option<u32>,
    pub temperature: Option<String>,
    pub wifi: Option<WifiReading>,
    pub vpn: Option<VpnReading>,
    pub weather: Option<WeatherReport>,
    pub windows: Option<WindowsReading>,
    pub workspaces: Option<WorkspacesReading>,
}

/// Asks `chrono` for the local time: `Local::now()`, written with the format
/// `%Y-%m-%d %H:%M:%S`, and its `hour()`, which `chrono` documents as a
/// number from 0 to 23. Nothing is claimed of the text.
#[verifier::external_body]
fn local_time() -> (r: (String, u32))
    ensures
        r.1 < 24,
{
    let now = chrono::Local::now();
    (now.format("%Y-%m-%d %H:%M:%S").to_string(), now.hour())
}

impl ClockReading {
    /// The wall clock right now.
    pub fn now() -> (r: ClockReading)
        ensures
            r.hour < 24,
    {
        let (text, hour) = local_time();
        ClockReading { text, hour }
    }
}

impl Readings {
    /// Readings in which nothing was sampled but the clock: every source is
    /// `None`, and no battery was found.
    pub fn empty(now: u64, clock: ClockReading) -> (r: Readings)
        ensures
            r.now == now,
            r.clock == clock,
            r.brightness is None,
            r.volume is None,
            r.battery == BatteryReading::Missing,
            r.cpu is None,
            r.ram is None,
            r.temperature is None,
            r.wifi is None,
            r.vpn is None,
            r.weather is None,
            r.windows is None,
            r.workspaces is None,
    {
        Readings {
            now,
            clock,
            brightness: None,
            volume: None,
            battery: BatteryReading::Missing,
            cpu: None,
            ram: None,
            temperature: None,
            wifi: None,
            vpn: None,
            weather: None,
            windows: None,
            workspaces: None,
        }
    }
}


/// A reading seen through a reference.
pub open spec fn borrowed<T>(reading: &Option<T>) -> Option<&T> {
    match reading {
        Some(value) => Some(value),
        None => None,
    }
}

} // verus!
