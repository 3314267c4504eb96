//! The bar of system readings in its fixed arrangement: temperature,
//! processor, memory, wireless link, brightness, volume and battery, in
//! that order, whatever the configuration says.

use vstd::prelude::*;
use vstd::string::*;
use crate::bars::{Alignment, Line};
use crate::components::battery::{battery_failure, BatteryError};
use crate::components::volume::volume_or_silent;
use crate::components::wifi::network_text;
use crate::components::{Battery, Brightness, Cpu, Ram, Temperature, Volume, Wifi};
use crate::readings::{borrowed, Readings};
use crate::style::{plain, Color, Span, SpanView};
use crate::text::{concat, str_eq};

verus! {

/// The system readings side by side.
#[derive(Debug)]
pub struct SystemBar {
    pub temperature: Temperature,
    pub cpu: Cpu,
    pub ram: Ram,
    pub wifi: Wifi,
    pub brightness: Brightness,
    pub volume: Volume,
    pub battery: Battery,
}

fn raw(text: &str) -> (r: Span)
    ensures
        r@ == plain(text@),
{
    Span::raw(String::from_str(text))
}

fn with_unit(value: &str, unit: &str) -> (r: Span)
    ensures
        r@ == plain(value@ + unit@),
{
    Span::raw(concat(value, unit))
}

impl SystemBar {
    /// The runs of the bar: each reading after its icon, the groups set
    /// apart by bars.
    pub open spec fn spans(self) -> Seq<SpanView> {
        seq![
            plain("\u{f2c9} "@),
            plain(self.temperature.value@ + "\u{b0}C"@),
            plain(" "@),
            plain("\u{f0ee0} "@),
            plain(self.cpu.usage@ + "%"@),
            plain(" "@),
            plain("\u{f035b} "@),
            plain(self.ram.usage@ + "%"@),
            plain(" | "@),
            plain(if self.wifi.status@ == "connected"@ {
                "\u{f0928} "@
            } else {
                "\u{f092e} "@
            }),
            plain(network_text(self.wifi.status@, self.wifi.network@)),
            plain(" | "@),
            plain("\u{f00e0} "@),
            plain(self.brightness.level@),
            plain(" "@),
            plain("\u{f057e} "@),
            plain(self.volume.level@ + "%"@),
            plain(" | "@),
            plain("\u{f0079} "@),
            plain(self.battery.percentage@ + "%"@),
        ]
    }

    /// Whether the bar is one that was just made from `readings`.
    pub open spec fn fresh(self, readings: &Readings) -> bool {
        &&& self.temperature.fresh(readings.now)
        &&& self.cpu.fresh(false, 10, 3, readings.now)
        &&& self.ram.fresh(false, 10, 2, readings.now)
        &&& self.wifi.fresh(false, 10, 2, false, borrowed(&readings.wifi), readings.now)
        &&& self.brightness.shows(borrowed(&readings.brightness))
        &&& self.volume.shows(volume_or_silent(readings.volume))
        &&& self.battery.fresh(readings.battery, readings.now)
    }

    /// Whether `next` is this bar after a pass with `readings`: every
    /// widget has taken in the reading that is meant for it.
    pub open spec fn steps_to(self, next: SystemBar, readings: &Readings) -> bool {
        &&& self.temperature.steps_to(next.temperature, readings.temperature, readings.now)
        &&& self.cpu.steps_to(next.cpu, readings.cpu, readings.now)
        &&& self.ram.steps_to(next.ram, readings.ram, readings.now)
        &&& self.wifi.steps_to(next.wifi, borrowed(&readings.wifi), readings.now)
        &&& next.brightness.shows(borrowed(&readings.brightness))
        &&& next.volume.shows(volume_or_silent(readings.volume))
        &&& if self.battery.due(readings.now) && !(readings.battery is Found) {
            next.battery == self.battery
        } else {
            self.battery.steps_to(next.battery, readings.battery, readings.now)
        }
    }

    /// The bar with every widget made from `readings`. Without a battery
    /// there is no bar.
    pub fn new(readings: &Readings) -> (r: Result<Self, BatteryError>)
        ensures
            match r {
                Ok(bar) => bar.fresh(readings),
                Err(error) => battery_failure(readings.battery, error),
            },
    {
        let battery = match Battery::new(&readings.battery, readings.now) {
            Ok(battery) => battery,
            Err(error) => {
                return Err(error);
            },
        };
        Ok(
            SystemBar {
                temperature: Temperature::new(readings.now),
                cpu: Cpu::new(readings.now),
                ram: Ram::new(readings.now),
                wifi: Wifi::new(readings.wifi.as_ref(), readings.now),
                brightness: Brightness::new(readings.brightness.as_ref()),
                volume: Volume::new(readings.volume),
                battery,
            },
        )
    }

    /// One pass over all widgets. The pass fails where the battery widget
    /// is due and no battery was found; the other widgets have had their
    /// pass by then.
    pub fn update(&mut self, readings: &Readings) -> (r: Result<(), BatteryError>)
        ensures
            old(self).steps_to(*final(self), readings),
            r is Err <==> old(self).battery.due(readings.now) && !(readings.battery is Found),
            r matches Err(error) ==> battery_failure(readings.battery, error),
    {
        self.temperature.update(&readings.temperature, readings.now);
        self.cpu.update(readings.cpu, readings.now);
        self.ram.update(readings.ram, readings.now);
        self.wifi.update(readings.wifi.as_ref(), readings.now);
        self.brightness.update(readings.brightness.as_ref());
        self.volume.update(readings.volume);
        self.battery.update(&readings.battery, readings.now)
    }

    /// Draws the bar as one line, standing right.
    pub fn render(&self) -> (r: Line)
        ensures
            r.spans.deep_view() == self.spans(),
            r.alignment == Alignment::Right,
            r.fg == Color::White,
    {
        let mut spans: Vec<Span> = Vec::new();
        spans.push(raw("\u{f2c9} "));
        spans.push(with_unit(self.temperature.value.as_str(), "\u{b0}C"));
        spans.push(raw(" "));
        spans.push(raw("\u{f0ee0} "));
        spans.push(with_unit(self.cpu.usage.as_str(), "%"));
        spans.push(raw(" "));
        spans.push(raw("\u{f035b} "));
        spans.push(with_unit(self.ram.usage.as_str(), "%"));
        spans.push(raw(" | "));
        let connected = str_eq(self.wifi.status.as_str(), "connected");
        spans.push(raw(if connected {
            "\u{f0928} "
        } else {
            "\u{f092e} "
        }));
        spans.push(raw(if connected && self.wifi.network.as_str().unicode_len() > 0 {
            self.wifi.network.as_str()
        } else {
            "Off"
        }));
        spans.push(raw(" | "));
        spans.push(raw("\u{f00e0} "));
        spans.push(raw(self.brightness.level.as_str()));
        spans.push(raw(" "));
        spans.push(raw("\u{f057e} "));
        spans.push(with_unit(self.volume.level.as_str(), "%"));
        spans.push(raw(" | "));
        spans.push(raw("\u{f0079} "));
        spans.push(with_unit(self.battery.percentage.as_str(), "%"));
        assert(spans.deep_view() =~= self.spans());
        Line { spans, alignment: Alignment::Right, fg: Color::White }
    }
}

} // verus!
