//! The battery panel: a pending charge limit, edited freely and sent to the
//! daemon only on Apply, and the outcome of the last Apply.
use vstd::prelude::*;

verus! {

/// The limit the panel starts from when the daemon could not be asked.
pub const FALLBACK_CHARGE_LIMIT: u8 = 100;

/// The outcome of the last Apply.
#[derive(Debug)]
pub enum ApplyStatus {
    /// Nothing applied yet.
    Idle,
    /// Hardware now holds this limit.
    Success(u8),
    /// Applying failed with this message.
    Error(String),
}

/// The battery panel's state.
#[derive(Debug)]
pub struct State {
    /// The limit shown, and sent on Apply.
    pub charge_limit: u8,
    pub apply_status: ApplyStatus,
}

impl State {
    /// The panel as it opens, given the limit the daemon reported, if any.
    pub open spec fn opening(fetched: Option<u8>) -> Self {
        State {
            charge_limit: match fetched {
                Some(v) => v,
                None => FALLBACK_CHARGE_LIMIT,
            },
            apply_status: ApplyStatus::Idle,
        }
    }

    pub fn new(fetched: Option<u8>) -> (r: Self)
        ensures
            r == Self::opening(fetched),
    {
        State {
            charge_limit: match fetched {
                Some(v) => v,
                None => FALLBACK_CHARGE_LIMIT,
            },
            apply_status: ApplyStatus::Idle,
        }
    }

    /// Records the daemon's answer to Apply: on success the panel shows the
    /// limit hardware actually applied, which may differ from the request.
    pub fn apply_finished(&mut self, result: Result<u8, String>)
        ensures
            match result {
                Ok(applied) => final(self).charge_limit == applied && final(self).apply_status
                    == ApplyStatus::Success(applied),
                Err(message) => final(self).charge_limit == old(self).charge_limit
                    && final(self).apply_status == ApplyStatus::Error(message),
            },
    {
        match result {
            Ok(applied) => {
                self.charge_limit = applied;
                self.apply_status = ApplyStatus::Success(applied);
            },
            Err(message) => {
                self.apply_status = ApplyStatus::Error(message);
            },
        }
    }
}

} // verus!
