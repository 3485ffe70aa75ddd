//! The control panels' state: what each panel shows and how it changes on
//! the user's clicks and the daemon's answers. Drawing and talking to the
//! daemon happen elsewhere.
pub mod battery;
pub mod platform_profile;
pub mod updates;

use vstd::prelude::*;

verus! {

/// The System Control section: its battery and platform-profile panels.
pub struct State {
    pub battery: battery::State,
    pub platform_profile: platform_profile::State,
}

impl State {
    /// The section as it opens, given what the daemon reported for the
    /// charge limit and the platform profile (`None` where asking failed).
    pub fn new(charge_limit: Option<u8>, profile: Option<String>) -> (r: Self)
        ensures
            r.battery == battery::State::opening(charge_limit),
            r.platform_profile == platform_profile::State::opening(profile),
    {
        State {
            battery: battery::State::new(charge_limit),
            platform_profile: platform_profile::State::new(profile),
        }
    }
}

} // verus!
