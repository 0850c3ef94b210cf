//! Keeps a volume control in step with the default output device's volume.
//!
//! The library holds the decisions of the device volume monitor: which device
//! is subscribed, when a subscription is released and acquired, what volume is
//! published to observers, how requested levels are clamped, and which volume
//! notifications are the monitor's own echo. The platform calls that carry the
//! decisions out are made by the caller, one action at a time.
pub mod level;
pub mod device;
pub mod model;
pub mod laws;
pub mod monitor;
pub mod platform;



