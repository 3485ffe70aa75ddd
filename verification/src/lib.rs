//! Verified core of a laptop control center: the daemon's checks and
//! request flows (battery charge limit, platform profile, OS updates), and
//! the control panels' state.
pub mod daemon;
pub mod error;
pub mod gui;
pub mod polkit;
pub mod text;
