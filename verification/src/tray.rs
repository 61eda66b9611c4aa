//! The indicator in the system tray.

pub mod indicator;
pub mod state;
