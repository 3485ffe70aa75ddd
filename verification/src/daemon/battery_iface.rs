//! The `org.controlcenter.Daemon1.Battery` interface: whether the control
//! exists, and the flow of `SetChargeLimit` (authorize, validate, write,
//! read back, notify, reply).
use vstd::prelude::*;

use crate::daemon::battery::{
    in_range, limit_in, limit_text, parse_limit, validate, MAX_CHARGE_LIMIT, MIN_CHARGE_LIMIT,
};
use crate::daemon::request::{Action, Event};
use crate::error::ControlError;
use crate::polkit::{verdict, verdict_of, PolkitAnswer};
use crate::text::{decimal, trim};

verus! {

broadcast use vstd::string::group_string_axioms;

/// The polkit action `SetChargeLimit` requires.
pub const ACTION_SET_CHARGE_LIMIT: &'static str = "org.controlcenter.daemon.set-charge-limit";

/// The battery interface's state: the charge-limit attribute, when this
/// system exposes one (found once, at startup).
pub struct BatteryInterface {
    threshold_path: Option<String>,
}

impl BatteryInterface {
    /// The attribute this interface serves, if any.
    pub closed spec fn threshold_path(&self) -> Option<String> {
        self.threshold_path
    }

    pub fn new(threshold_path: Option<String>) -> (r: Self)
        ensures
            r.threshold_path() == threshold_path,
    {
        BatteryInterface { threshold_path }
    }

    /// Whether this system exposes a charge-limit control at all (the
    /// `Supported` property).
    pub fn supported(&self) -> (b: bool)
        ensures
            b == self.threshold_path() is Some,
    {
        self.threshold_path.is_some()
    }

    /// The attribute to read for the `ChargeLimit` property, or
    /// `Unsupported` when there is none.
    pub fn limit_path(&self) -> (r: Result<String, ControlError>)
        ensures
            match self.threshold_path() {
                Some(p) => r == Ok::<String, ControlError>(p),
                None => r == Err::<String, ControlError>(ControlError::Unsupported),
            },
    {
        match &self.threshold_path {
            Some(p) => Ok(p.clone()),
            None => Err(ControlError::Unsupported),
        }
    }

    /// The flow of a `SetChargeLimit(limit)` call on this interface.
    pub fn set_charge_limit(&self, limit: u8) -> (f: SetChargeLimit)
        ensures
            f == SetChargeLimit::start(limit, self.threshold_path()),
    {
        SetChargeLimit { limit, path: self.threshold_path.clone(), stage: SetChargeLimitStage::Start }
    }
}

/// Where a `SetChargeLimit` call stands.
#[derive(Debug)]
pub enum SetChargeLimitStage {
    /// Nothing done yet.
    Start,
    /// Waiting for polkit's answer.
    Authorizing,
    /// Waiting for the limit to be written to `path`.
    Writing { path: String },
    /// Waiting for `path` to be read back.
    ReadingBack { path: String },
    /// Hardware applied `applied`; waiting for watchers to be told.
    Notifying { applied: u8 },
    /// The caller has been answered.
    Finished,
}

/// A `SetChargeLimit(limit)` call against the attribute `path`, if any.
#[derive(Debug)]
pub struct SetChargeLimit {
    pub limit: u8,
    pub path: Option<String>,
    pub stage: SetChargeLimitStage,
}

impl SetChargeLimit {
    /// The call before anything is done.
    pub open spec fn start(limit: u8, path: Option<String>) -> Self {
        SetChargeLimit { limit, path, stage: SetChargeLimitStage::Start }
    }

    /// On `event`, the call moves from `self` to `next` and asks for `action`:
    /// ask polkit first; once authorized, fail with `Unsupported` where there
    /// is no attribute and with `OutOfRange` for a limit out of range, else
    /// write the limit's decimal text; then read the attribute back, and
    /// reply with what it holds (hardware may have applied another value),
    /// after telling watchers. Each failure ends the call with its error.
    pub open spec fn transition(self, event: Event, next: Self, action: Action<u8>) -> bool {
        &&& next.limit == self.limit
        &&& next.path == self.path
        &&& match self.stage {
            SetChargeLimitStage::Start => {
                &&& next.stage == SetChargeLimitStage::Authorizing
                &&& action matches Action::Authorize { action_id }
                &&& action_id@ == ACTION_SET_CHARGE_LIMIT@
            },
            SetChargeLimitStage::Authorizing => match event {
                Event::Authorization(answer) => match verdict_of(answer) {
                    Err(e) => next.stage == SetChargeLimitStage::Finished && action == Action::<
                        u8,
                    >::Reply(Err(e)),
                    Ok(_) => match self.path {
                        None => next.stage == SetChargeLimitStage::Finished && action
                            == Action::<u8>::Reply(Err(ControlError::Unsupported)),
                        Some(p) => if in_range(self.limit) {
                            &&& next.stage == SetChargeLimitStage::Writing { path: p }
                            &&& action matches Action::WriteFile { path, contents }
                            &&& path == p
                            &&& contents@ == decimal(self.limit as nat)
                        } else {
                            &&& next.stage == SetChargeLimitStage::Finished
                            &&& action == Action::<u8>::Reply(
                                Err(
                                    ControlError::OutOfRange {
                                        value: self.limit,
                                        min: MIN_CHARGE_LIMIT,
                                        max: MAX_CHARGE_LIMIT,
                                    },
                                ),
                            )
                        },
                    },
                },
                _ => next.stage == self.stage && action == Action::<u8>::Idle,
            },
            SetChargeLimitStage::Writing { path } => match event {
                Event::FileWritten(Err(e)) => next.stage == SetChargeLimitStage::Finished && action
                    == Action::<u8>::Reply(Err(ControlError::SysfsWrite(e))),
                Event::FileWritten(Ok(_)) => {
                    &&& next.stage == SetChargeLimitStage::ReadingBack { path }
                    &&& action == Action::<u8>::ReadFile { path }
                },
                _ => next.stage == self.stage && action == Action::<u8>::Idle,
            },
            SetChargeLimitStage::ReadingBack { path } => match event {
                Event::FileRead(Err(e)) => next.stage == SetChargeLimitStage::Finished && action
                    == Action::<u8>::Reply(Err(ControlError::SysfsRead(e))),
                Event::FileRead(Ok(raw)) => match limit_in(raw@) {
                    Some(v) => next.stage == SetChargeLimitStage::Notifying { applied: v as u8 }
                        && action == Action::<u8>::NotifyChanged,
                    None => {
                        &&& next.stage == SetChargeLimitStage::Finished
                        &&& action matches Action::Reply(
                            Err(ControlError::UnexpectedSysfsValue(t)),
                        )
                        &&& t@ == trim(raw@)
                    },
                },
                _ => next.stage == self.stage && action == Action::<u8>::Idle,
            },
            SetChargeLimitStage::Notifying { applied } => match event {
                Event::Notified => next.stage == SetChargeLimitStage::Finished && action
                    == Action::<u8>::Reply(Ok(applied)),
                _ => next.stage == self.stage && action == Action::<u8>::Idle,
            },
            SetChargeLimitStage::Finished => next.stage == self.stage && action
                == Action::<u8>::Idle,
        }
    }

    /// Advances the call by one event.
    pub fn step(&mut self, event: Event) -> (action: Action<u8>)
        ensures
            old(self).transition(event, *final(self), action),
    {
        match &self.stage {
            SetChargeLimitStage::Start => {
                self.stage = SetChargeLimitStage::Authorizing;
                Action::Authorize { action_id: ACTION_SET_CHARGE_LIMIT.to_string() }
            },
            SetChargeLimitStage::Authorizing => match event {
                Event::Authorization(answer) => match verdict(answer) {
                    Err(e) => {
                        self.stage = SetChargeLimitStage::Finished;
                        Action::Reply(Err(e))
                    },
                    Ok(()) => match &self.path {
                        None => {
                            self.stage = SetChargeLimitStage::Finished;
                            Action::Reply(Err(ControlError::Unsupported))
                        },
                        Some(p) => {
                            let p = p.clone();
                            match validate(self.limit) {
                                Err(e) => {
                                    self.stage = SetChargeLimitStage::Finished;
                                    Action::Reply(Err(e))
                                },
                                Ok(()) => {
                                    let contents = limit_text(self.limit);
                                    self.stage = SetChargeLimitStage::Writing { path: p.clone() };
                                    Action::WriteFile { path: p, contents }
                                },
                            }
                        },
                    },
                },
                _ => Action::Idle,
            },
            SetChargeLimitStage::Writing { path } => {
                let path = path.clone();
                match event {
                    Event::FileWritten(Err(e)) => {
                        self.stage = SetChargeLimitStage::Finished;
                        Action::Reply(Err(ControlError::SysfsWrite(e)))
                    },
                    Event::FileWritten(Ok(())) => {
                        self.stage = SetChargeLimitStage::ReadingBack { path: path.clone() };
                        Action::ReadFile { path }
                    },
                    _ => Action::Idle,
                }
            },
            SetChargeLimitStage::ReadingBack { .. } => match event {
                Event::FileRead(Err(e)) => {
                    self.stage = SetChargeLimitStage::Finished;
                    Action::Reply(Err(ControlError::SysfsRead(e)))
                },
                Event::FileRead(Ok(raw)) => match parse_limit(raw.as_str()) {
                    Ok(v) => {
                        self.stage = SetChargeLimitStage::Notifying { applied: v };
                        Action::NotifyChanged
                    },
                    Err(e) => {
                        self.stage = SetChargeLimitStage::Finished;
                        Action::Reply(Err(e))
                    },
                },
                _ => Action::Idle,
            },
            SetChargeLimitStage::Notifying { applied } => {
                let applied = *applied;
                match event {
                    Event::Notified => {
                        self.stage = SetChargeLimitStage::Finished;
                        Action::Reply(Ok(applied))
                    },
                    _ => Action::Idle,
                }
            },
            SetChargeLimitStage::Finished => Action::Idle,
        }
    }
}

/// `calls`, `events` and `actions` are a run of one `SetChargeLimit` call:
/// it starts before anything is done, and each event takes it one step.
pub open spec fn is_run(
    calls: Seq<SetChargeLimit>,
    events: Seq<Event>,
    actions: Seq<Action<u8>>,
) -> bool {
    &&& calls.len() == events.len() + 1
    &&& actions.len() == events.len()
    &&& calls[0].stage == SetChargeLimitStage::Start
    &&& forall|i: int|
        #![trigger events[i]]
        0 <= i < events.len() ==> calls[i].transition(events[i], calls[i + 1], actions[i])
}

/// polkit gates the hardware: a `SetChargeLimit` call writes the attribute
/// only as its answer to polkit's explicit "authorized", and then only a
/// limit in range, as its decimal text, to the interface's attribute.
pub proof fn lemma_write_only_when_authorized(
    call: SetChargeLimit,
    event: Event,
    next: SetChargeLimit,
    action: Action<u8>,
)
    requires
        call.transition(event, next, action),
        action is WriteFile,
    ensures
        call.stage == SetChargeLimitStage::Authorizing,
        event == Event::Authorization(PolkitAnswer::Answered(true)),
        in_range(call.limit),
        call.path is Some,
        action matches Action::WriteFile { path, contents } && path == call.path->0 && contents@
            == decimal(call.limit as nat),
{
}

/// What a run has gone through by the time it stands at `calls[k]`: the
/// steps at which polkit authorized the write, the write succeeded, and the
/// attribute was read back.
proof fn lemma_history(
    calls: Seq<SetChargeLimit>,
    events: Seq<Event>,
    actions: Seq<Action<u8>>,
    k: int,
) -> (w: (int, int, int))
    requires
        is_run(calls, events, actions),
        0 <= k <= events.len(),
    ensures
        calls[k].stage is Writing ==> {
            &&& 0 <= w.0 < k
            &&& events[w.0] == Event::Authorization(PolkitAnswer::Answered(true))
            &&& actions[w.0] is WriteFile
        },
        calls[k].stage is ReadingBack ==> {
            &&& 0 <= w.0 < w.1 < k
            &&& events[w.0] == Event::Authorization(PolkitAnswer::Answered(true))
            &&& actions[w.0] is WriteFile
            &&& events[w.1] matches Event::FileWritten(Ok(_))
        },
        calls[k].stage matches SetChargeLimitStage::Notifying { applied } ==> {
            &&& 0 <= w.0 < w.1 < w.2 < k
            &&& events[w.0] == Event::Authorization(PolkitAnswer::Answered(true))
            &&& actions[w.0] is WriteFile
            &&& events[w.1] matches Event::FileWritten(Ok(_))
            &&& events[w.2] matches Event::FileRead(Ok(raw))
            &&& limit_in(raw@) == Some(applied as nat)
        },
    decreases k,
{
    if k == 0 {
        (0, 0, 0)
    } else {
        let prev = lemma_history(calls, events, actions, k - 1);
        let j = k - 1;
        assert(calls[j].transition(events[j], calls[j + 1], actions[j]));
        match calls[j].stage {
            SetChargeLimitStage::Authorizing => {
                if calls[k].stage is Writing {
                    lemma_write_only_when_authorized(calls[j], events[j], calls[k], actions[j]);
                    (j, 0, 0)
                } else {
                    prev
                }
            },
            SetChargeLimitStage::Writing { .. } => {
                if calls[k].stage is ReadingBack {
                    (prev.0, j, 0)
                } else {
                    prev
                }
            },
            SetChargeLimitStage::ReadingBack { .. } => {
                if calls[k].stage is Notifying {
                    (prev.0, prev.1, j)
                } else {
                    prev
                }
            },
            _ => prev,
        }
    }
}

/// Every successful write is verified by reading it back: in a run of a
/// `SetChargeLimit` call, a successful reply of `applied` comes after
/// polkit's "authorized" (answered by writing the limit), after the write
/// succeeded, and after a read-back whose contents state `applied`, in
/// this order.
pub proof fn lemma_success_is_read_back(
    calls: Seq<SetChargeLimit>,
    events: Seq<Event>,
    actions: Seq<Action<u8>>,
    i: int,
    applied: u8,
)
    requires
        is_run(calls, events, actions),
        0 <= i < events.len(),
        actions[i] == Action::<u8>::Reply(Ok(applied)),
    ensures
        exists|a: int, w: int, r: int|
            {
                &&& 0 <= a < w < r < i
                &&& #[trigger] events[a] == Event::Authorization(PolkitAnswer::Answered(true))
                &&& actions[a] is WriteFile
                &&& #[trigger] events[w] matches Event::FileWritten(Ok(_))
                &&& #[trigger] events[r] matches Event::FileRead(Ok(raw))
                &&& limit_in(raw@) == Some(applied as nat)
            },
{
    let h = lemma_history(calls, events, actions, i);
    assert(calls[i].transition(events[i], calls[i + 1], actions[i]));
    assert(calls[i].stage == SetChargeLimitStage::Notifying { applied });
    assert(events[h.0] == Event::Authorization(PolkitAnswer::Answered(true)));
}

/// Once polkit authorizes it, a `SetChargeLimit` call on an interface with
/// an attribute writes every limit from 20 to 100, as its decimal text, to
/// that attribute.
pub proof fn lemma_authorized_limit_is_written(
    call: SetChargeLimit,
    next: SetChargeLimit,
    action: Action<u8>,
)
    requires
        call.stage == SetChargeLimitStage::Authorizing,
        call.path is Some,
        20 <= call.limit <= 100,
        call.transition(Event::Authorization(PolkitAnswer::Answered(true)), next, action),
    ensures
        action matches Action::WriteFile { path, contents } && path == call.path->0 && contents@
            == decimal(call.limit as nat),
        next.stage == (SetChargeLimitStage::Writing { path: call.path->0 }),
{
    crate::daemon::battery::lemma_accepted_limits(call.limit);
}

} // verus!
