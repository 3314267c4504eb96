//! The built-in widgets.

pub mod apps;
pub mod battery;
pub mod brightness;
pub mod cpu;
pub mod error_icon;
pub mod interval;
pub mod ram;
pub mod registry;
pub mod right_bar;
pub mod separator;
pub mod space;
pub mod sparkline;
pub mod system_bar;
pub mod temperature;
pub mod time;
pub mod volume;
pub mod vpn;
pub mod weather;
pub mod wide;
pub mod wifi;
pub mod windows;
pub mod workspaces;

pub use battery::Battery;
pub use brightness::Brightness;
pub use cpu::Cpu;
pub use error_icon::ErrorIcon;
pub use ram::Ram;
pub use registry::ConfigurableComponentRegistry;
pub use separator::Separator;
pub use space::Space;
pub use sparkline::Sparkline;
pub use system_bar::SystemBar;
pub use temperature::Temperature;
pub use time::Time;
pub use volume::Volume;
pub use vpn::Vpn;
pub use weather::{Weather, WeatherData};
pub use wifi::Wifi;
pub use windows::Windows;
pub use workspaces::Workspaces;
