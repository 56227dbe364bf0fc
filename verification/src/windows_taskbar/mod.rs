//! The quota widget that floats over the Windows taskbar, at the left of the notification area.

pub mod colors;
pub mod content;
pub mod occupancy;
pub mod placement;
pub mod wide;
