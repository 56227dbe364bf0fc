//! Decision core of a desktop monitor for coding-plan quotas.

pub mod connect;
pub mod events;
pub mod geometry;
pub mod json;
pub mod macos_tray;
pub mod overlay;
pub mod providers;
pub mod text;
pub mod tray;
pub mod window;
pub mod windows_taskbar;
