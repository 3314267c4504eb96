//! The component runtime of a desktop status bar: configuration, widgets,
//! script plugins, the manager that keeps one live widget per name, and the
//! rules that decide when a changed configuration is applied.

pub mod bars;
pub mod cli;
pub mod component_manager;
pub mod components;
pub mod config;
pub mod document;
pub mod json;
pub mod logging;
pub mod lua_component;
pub mod readings;
pub mod reload;
pub mod runtime;
pub mod scan;
pub mod sources;
pub mod style;
pub mod text;
pub mod tree;
pub mod wayland_client;

pub use bars::{LeftBar, MiddleBar, RightBar};
pub use component_manager::{Component, ComponentManager};
pub use runtime::App;
