//! The daemon side: checks and request flows behind its D-Bus interfaces.
pub mod battery;
pub mod platform_profile;
pub mod request;
pub mod battery_iface;
pub mod platform_profile_iface;
pub mod updates;
pub mod updates_iface;
pub mod host;
