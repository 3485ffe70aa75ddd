//! The platform-profile panel: a profile chosen locally and sent to the
//! daemon only on Apply, and the outcome of the last Apply.
use vstd::prelude::*;
use vstd::string::StringExecFns;

use crate::text::{debug_quote, debug_quoted, str_equals};

verus! {

broadcast use vstd::string::group_string_axioms;

/// The profiles the panel offers.
#[derive(Debug, Clone, Copy, PartialEq, Eq, Structural)]
pub enum Profile {
    Quiet,
    Balanced,
    Performance,
}

/// How the panel shows `p`.
pub open spec fn label_of(p: Profile) -> Seq<char> {
    match p {
        Profile::Quiet => "Quiet"@,
        Profile::Balanced => "Balanced"@,
        Profile::Performance => "Performance"@,
    }
}

/// How the daemon (and sysfs) names `p`.
pub open spec fn daemon_name(p: Profile) -> Seq<char> {
    match p {
        Profile::Quiet => "quiet"@,
        Profile::Balanced => "balanced"@,
        Profile::Performance => "performance"@,
    }
}

/// The profile the daemon names `value`, if any.
pub open spec fn profile_named(value: Seq<char>) -> Option<Profile> {
    if value == "quiet"@ {
        Some(Profile::Quiet)
    } else if value == "balanced"@ {
        Some(Profile::Balanced)
    } else if value == "performance"@ {
        Some(Profile::Performance)
    } else {
        None
    }
}

impl Profile {
    /// The name shown in the panel.
    pub fn label(self) -> (r: &'static str)
        ensures
            r@ == label_of(self),
    {
        match self {
            Profile::Quiet => "Quiet",
            Profile::Balanced => "Balanced",
            Profile::Performance => "Performance",
        }
    }

    /// The profile the daemon calls `value`, if it is one of the offered.
    pub fn from_damon_str(value: &str) -> (r: Option<Self>)
        ensures
            r == profile_named(value@),
    {
        if str_equals(value, "quiet") {
            Some(Profile::Quiet)
        } else if str_equals(value, "balanced") {
            Some(Profile::Balanced)
        } else if str_equals(value, "performance") {
            Some(Profile::Performance)
        } else {
            None
        }
    }

    /// What to send to the daemon for this profile: sysfs speaks lower case,
    /// `label` is for display only.
    pub fn to_daemon_str(self) -> (r: &'static str)
        ensures
            r@ == daemon_name(self),
            self == Profile::Quiet ==> r@ == "quiet"@,
            self == Profile::Balanced ==> r@ == "balanced"@,
            self == Profile::Performance ==> r@ == "performance"@,
    {
        match self {
            Profile::Quiet => "quiet",
            Profile::Balanced => "balanced",
            Profile::Performance => "performance",
        }
    }
}

/// Reading back the name sent to the daemon gives the same profile.
pub proof fn lemma_daemon_name_round_trip(p: Profile)
    ensures
        profile_named(daemon_name(p)) == Some(p),
{
    reveal_strlit("quiet");
    reveal_strlit("balanced");
    reveal_strlit("performance");
    assert("quiet"@.len() == 5);
    assert("balanced"@.len() == 8);
    assert("performance"@.len() == 11);
}

/// The start of the message shown when the daemon reports a profile the
/// panel does not know.
pub const UNRECOGNIZED_PREFIX: &'static str = "daemon returned unrecognized profile ";

/// The outcome of the last Apply.
#[derive(Debug)]
pub enum ApplyStatus {
    /// Nothing applied yet.
    Idle,
    /// Hardware now runs this profile.
    Success(Profile),
    /// Applying failed with this message.
    Error(String),
}

/// The platform-profile panel's state.
#[derive(Debug)]
pub struct State {
    /// The profile shown as chosen, and sent on Apply.
    pub selected: Profile,
    pub apply_status: ApplyStatus,
}

impl State {
    /// The panel as it opens, given the profile the daemon reported, if any:
    /// that profile where the panel knows it, else `Balanced`.
    pub open spec fn opening(fetched: Option<String>) -> Self {
        State {
            selected: match fetched {
                Some(v) => match profile_named(v@) {
                    Some(p) => p,
                    None => Profile::Balanced,
                },
                None => Profile::Balanced,
            },
            apply_status: ApplyStatus::Idle,
        }
    }

    pub fn new(fetched: Option<String>) -> (r: Self)
        ensures
            r == Self::opening(fetched),
    {
        let selected = match &fetched {
            Some(v) => match Profile::from_damon_str(v.as_str()) {
                Some(p) => p,
                None => Profile::Balanced,
            },
            None => Profile::Balanced,
        };
        State { selected, apply_status: ApplyStatus::Idle }
    }

    /// The user picks `profile` (nothing is sent yet).
    pub fn select(&mut self, profile: Profile)
        ensures
            final(self).selected == profile,
            final(self).apply_status == old(self).apply_status,
    {
        self.selected = profile;
    }

    /// Records the daemon's answer to Apply: the panel shows the profile
    /// hardware actually accepted, or says that the daemon answered with a
    /// name it does not know, or shows the failure.
    pub fn apply_finished(&mut self, result: Result<String, String>)
        ensures
            match result {
                Ok(applied) => match profile_named(applied@) {
                    Some(p) => final(self).selected == p && final(self).apply_status
                        == ApplyStatus::Success(p),
                    None => {
                        &&& final(self).selected == old(self).selected
                        &&& final(self).apply_status matches ApplyStatus::Error(message)
                        &&& message@ == UNRECOGNIZED_PREFIX@ + debug_quoted(applied@)
                    },
                },
                Err(message) => final(self).selected == old(self).selected
                    && final(self).apply_status == ApplyStatus::Error(message),
            },
    {
        match result {
            Ok(applied) => match Profile::from_damon_str(applied.as_str()) {
                Some(p) => {
                    self.selected = p;
                    self.apply_status = ApplyStatus::Success(p);
                },
                None => {
                    let mut message = UNRECOGNIZED_PREFIX.to_string();
                    message.append(debug_quote(applied.as_str()).as_str());
                    self.apply_status = ApplyStatus::Error(message);
                },
            },
            Err(message) => {
                self.apply_status = ApplyStatus::Error(message);
            },
        }
    }
}

/// The panel sends the sysfs names of the profiles, lower case as the
/// kernel lists them, and knows no other name.
pub proof fn lemma_daemon_names(value: Seq<char>)
    ensures
        daemon_name(Profile::Quiet) == "quiet"@,
        daemon_name(Profile::Balanced) == "balanced"@,
        daemon_name(Profile::Performance) == "performance"@,
        profile_named(value) is Some ==> value == "quiet"@ || value == "balanced"@ || value
            == "performance"@,
{
}

} // verus!
