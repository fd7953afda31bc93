//! Focus-event aggregation and window-control protocol for a window
//! switcher overlay.
pub mod config;
pub mod json;
pub mod window;
pub mod notification;
pub mod overlay;
pub mod control;
pub mod keys;
