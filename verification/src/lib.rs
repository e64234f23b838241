//! Verified core of a region-select screenshot tool: pixel geometry, the
//! annotation canvas with undo/redo, the overlay's input state machine,
//! pixel-buffer conversions, capture bookkeeping and configuration rules.

pub mod canvas;
pub mod capture;
pub mod config;
pub mod dbus;
pub mod error;
pub mod raster;
pub mod tray;
pub mod ui;
