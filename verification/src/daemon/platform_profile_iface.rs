//! The `org.controlcenter.Daemon1.PlatformProfile` interface: whether the
//! control exists, and the flow of `SetProfile` (authorize, check against
//! the offered choices, write, read back, notify, reply).
use vstd::prelude::*;

use crate::daemon::platform_profile::{profile_from_read, validate, CHOICES_PATH};
use crate::daemon::request::{Action, Event};
use crate::error::ControlError;
use crate::polkit::{verdict, verdict_of, PolkitAnswer};
use crate::text::{trim, views, words};

verus! {

broadcast use vstd::string::group_string_axioms;

/// The polkit action `SetProfile` requires.
pub const ACTION_SET_PLATFORM_PROFILE: &'static str = "org.controlcenter.daemon.set-platform_profile";

/// The platform-profile interface's state: the profile attribute, when this
/// system exposes one (found once, at startup).
pub struct PlatformProfileInterface {
    profile_path: Option<String>,
}

impl PlatformProfileInterface {
    /// The attribute this interface serves, if any.
    pub closed spec fn profile_path(&self) -> Option<String> {
        self.profile_path
    }

    pub fn new(profile_path: Option<String>) -> (r: Self)
        ensures
            r.profile_path() == profile_path,
    {
        PlatformProfileInterface { profile_path }
    }

    /// Whether this system exposes a platform-profile control at all (the
    /// `Supported` property).
    pub fn supported(&self) -> (b: bool)
        ensures
            b == self.profile_path() is Some,
    {
        self.profile_path.is_some()
    }

    /// The attribute to read for the `Profile` property, or `Unsupported`
    /// when there is none.
    pub fn profile_file(&self) -> (r: Result<String, ControlError>)
        ensures
            match self.profile_path() {
                Some(p) => r == Ok::<String, ControlError>(p),
                None => r == Err::<String, ControlError>(ControlError::Unsupported),
            },
    {
        match &self.profile_path {
            Some(p) => Ok(p.clone()),
            None => Err(ControlError::Unsupported),
        }
    }

    /// The flow of a `SetProfile(profile)` call on this interface.
    pub fn set_profile(&self, profile: String) -> (f: SetProfile)
        ensures
            f == SetProfile::start(profile, self.profile_path()),
    {
        SetProfile { profile, path: self.profile_path.clone(), stage: SetProfileStage::Start }
    }
}

/// Where a `SetProfile` call stands.
#[derive(Debug)]
pub enum SetProfileStage {
    /// Nothing done yet.
    Start,
    /// Waiting for polkit's answer.
    Authorizing,
    /// Waiting for the list of offered profiles; `path` is the attribute.
    ReadingChoices { path: String },
    /// Waiting for the profile to be written to `path`.
    Writing { path: String },
    /// Waiting for `path` to be read back.
    ReadingBack { path: String },
    /// Hardware applied `applied`; waiting for watchers to be told.
    Notifying { applied: String },
    /// The caller has been answered.
    Finished,
}

/// A `SetProfile(profile)` call against the attribute `path`, if any.
#[derive(Debug)]
pub struct SetProfile {
    pub profile: String,
    pub path: Option<String>,
    pub stage: SetProfileStage,
}

impl SetProfile {
    /// The call before anything is done.
    pub open spec fn start(profile: String, path: Option<String>) -> Self {
        SetProfile { profile, path, stage: SetProfileStage::Start }
    }

    /// On `event`, the call moves from `self` to `next` and asks for `action`:
    /// ask polkit first; once authorized, fail with `Unsupported` where there
    /// is no attribute, else read the offered choices and fail with
    /// `InvalidProfile` unless the profile is one of them; write the profile;
    /// read the attribute back, and reply with what it holds (trimmed) after
    /// telling watchers. Each failure ends the call with its error.
    pub open spec fn transition(self, event: Event, next: Self, action: Action<String>) -> bool {
        &&& next.profile == self.profile
        &&& next.path == self.path
        &&& match self.stage {
            SetProfileStage::Start => {
                &&& next.stage == SetProfileStage::Authorizing
                &&& action matches Action::Authorize { action_id }
                &&& action_id@ == ACTION_SET_PLATFORM_PROFILE@
            },
            SetProfileStage::Authorizing => match event {
                Event::Authorization(answer) => match verdict_of(answer) {
                    Err(e) => next.stage == SetProfileStage::Finished && action == Action::<
                        String,
                    >::Reply(Err(e)),
                    Ok(_) => match self.path {
                        None => next.stage == SetProfileStage::Finished && action == Action::<
                            String,
                        >::Reply(Err(ControlError::Unsupported)),
                        Some(p) => {
                            &&& next.stage == SetProfileStage::ReadingChoices { path: p }
                            &&& action matches Action::ReadFile { path }
                            &&& path@ == CHOICES_PATH@
                        },
                    },
                },
                _ => next.stage == self.stage && action == Action::<String>::Idle,
            },
            SetProfileStage::ReadingChoices { path } => match event {
                Event::FileRead(Err(e)) => next.stage == SetProfileStage::Finished && action
                    == Action::<String>::Reply(Err(ControlError::SysfsRead(e))),
                Event::FileRead(Ok(choices)) => if words(choices@).contains(self.profile@) {
                    &&& next.stage == SetProfileStage::Writing { path }
                    &&& action matches Action::WriteFile { path: target, contents }
                    &&& target == path
                    &&& contents@ == self.profile@
                } else {
                    &&& next.stage == SetProfileStage::Finished
                    &&& action matches Action::Reply(
                        Err(ControlError::InvalidProfile { value, choices: offered }),
                    )
                    &&& value@ == self.profile@
                    &&& views(offered@) == words(choices@)
                },
                _ => next.stage == self.stage && action == Action::<String>::Idle,
            },
            SetProfileStage::Writing { path } => match event {
                Event::FileWritten(Err(e)) => next.stage == SetProfileStage::Finished && action
                    == Action::<String>::Reply(Err(ControlError::SysfsWrite(e))),
                Event::FileWritten(Ok(_)) => {
                    &&& next.stage == SetProfileStage::ReadingBack { path }
                    &&& action == Action::<String>::ReadFile { path }
                },
                _ => next.stage == self.stage && action == Action::<String>::Idle,
            },
            SetProfileStage::ReadingBack { path } => match event {
                Event::FileRead(Err(e)) => next.stage == SetProfileStage::Finished && action
                    == Action::<String>::Reply(Err(ControlError::SysfsRead(e))),
                Event::FileRead(Ok(raw)) => {
                    &&& next.stage matches SetProfileStage::Notifying { applied }
                    &&& applied@ == trim(raw@)
                    &&& action == Action::<String>::NotifyChanged
                },
                _ => next.stage == self.stage && action == Action::<String>::Idle,
            },
            SetProfileStage::Notifying { applied } => match event {
                Event::Notified => next.stage == SetProfileStage::Finished && action == Action::<
                    String,
                >::Reply(Ok(applied)),
                _ => next.stage == self.stage && action == Action::<String>::Idle,
            },
            SetProfileStage::Finished => next.stage == self.stage && action
                == Action::<String>::Idle,
        }
    }

    /// Advances the call by one event.
    pub fn step(&mut self, event: Event) -> (action: Action<String>)
        ensures
            old(self).transition(event, *final(self), action),
    {
        match &self.stage {
            SetProfileStage::Start => {
                self.stage = SetProfileStage::Authorizing;
                Action::Authorize { action_id: ACTION_SET_PLATFORM_PROFILE.to_string() }
            },
            SetProfileStage::Authorizing => match event {
                Event::Authorization(answer) => match verdict(answer) {
                    Err(e) => {
                        self.stage = SetProfileStage::Finished;
                        Action::Reply(Err(e))
                    },
                    Ok(()) => match &self.path {
                        None => {
                            self.stage = SetProfileStage::Finished;
                            Action::Reply(Err(ControlError::Unsupported))
                        },
                        Some(p) => {
                            self.stage = SetProfileStage::ReadingChoices { path: p.clone() };
                            Action::ReadFile { path: CHOICES_PATH.to_string() }
                        },
                    },
                },
                _ => Action::Idle,
            },
            SetProfileStage::ReadingChoices { path } => {
                let path = path.clone();
                match event {
                    Event::FileRead(Err(e)) => {
                        self.stage = SetProfileStage::Finished;
                        Action::Reply(Err(ControlError::SysfsRead(e)))
                    },
                    Event::FileRead(Ok(choices)) => match validate(
                        self.profile.as_str(),
                        choices.as_str(),
                    ) {
                        Ok(()) => {
                            self.stage = SetProfileStage::Writing { path: path.clone() };
                            Action::WriteFile { path, contents: self.profile.clone() }
                        },
                        Err(e) => {
                            self.stage = SetProfileStage::Finished;
                            Action::Reply(Err(e))
                        },
                    },
                    _ => Action::Idle,
                }
            },
            SetProfileStage::Writing { path } => {
                let path = path.clone();
                match event {
                    Event::FileWritten(Err(e)) => {
                        self.stage = SetProfileStage::Finished;
                        Action::Reply(Err(ControlError::SysfsWrite(e)))
                    },
                    Event::FileWritten(Ok(())) => {
                        self.stage = SetProfileStage::ReadingBack { path: path.clone() };
                        Action::ReadFile { path }
                    },
                    _ => Action::Idle,
                }
            },
            SetProfileStage::ReadingBack { .. } => match event {
                Event::FileRead(read) => match profile_from_read(read) {
                    Ok(applied) => {
                        self.stage = SetProfileStage::Notifying { applied };
                        Action::NotifyChanged
                    },
                    Err(e) => {
                        self.stage = SetProfileStage::Finished;
                        Action::Reply(Err(e))
                    },
                },
                _ => Action::Idle,
            },
            SetProfileStage::Notifying { applied } => {
                let applied = applied.clone();
                match event {
                    Event::Notified => {
                        self.stage = SetProfileStage::Finished;
                        Action::Reply(Ok(applied))
                    },
                    _ => Action::Idle,
                }
            },
            SetProfileStage::Finished => Action::Idle,
        }
    }
}

/// `calls`, `events` and `actions` are a run of one `SetProfile` call: it
/// starts before anything is done, and each event takes it one step.
pub open spec fn is_run(calls: Seq<SetProfile>, events: Seq<Event>, actions: Seq<Action<String>>) -> bool {
    &&& calls.len() == events.len() + 1
    &&& actions.len() == events.len()
    &&& calls[0].stage == SetProfileStage::Start
    &&& forall|i: int|
        #![trigger events[i]]
        0 <= i < events.len() ==> calls[i].transition(events[i], calls[i + 1], actions[i])
}

/// A `SetProfile` call writes the attribute only as its answer to the list
/// of offered profiles, when the requested profile is one of them, and
/// writes exactly that profile to the interface's attribute.
pub proof fn lemma_write_only_offered(
    call: SetProfile,
    event: Event,
    next: SetProfile,
    action: Action<String>,
)
    requires
        call.transition(event, next, action),
        action is WriteFile,
    ensures
        call.stage matches SetProfileStage::ReadingChoices { path } && action matches Action::WriteFile { path: target, contents } && target == path
            && contents@ == call.profile@,
        event matches Event::FileRead(Ok(choices)) && words(choices@).contains(call.profile@),
{
}

/// What a run has gone through by the time it stands at `calls[k]`: the
/// steps at which polkit authorized the call, the offered profiles were
/// read, the write succeeded, and the attribute was read back.
proof fn lemma_history(
    calls: Seq<SetProfile>,
    events: Seq<Event>,
    actions: Seq<Action<String>>,
    k: int,
) -> (w: (int, int, int, int))
    requires
        is_run(calls, events, actions),
        0 <= k <= events.len(),
    ensures
        calls[k].stage is ReadingChoices ==> {
            &&& 0 <= w.0 < k
            &&& events[w.0] == Event::Authorization(PolkitAnswer::Answered(true))
        },
        calls[k].stage is Writing ==> {
            &&& 0 <= w.0 < w.1 < k
            &&& events[w.0] == Event::Authorization(PolkitAnswer::Answered(true))
            &&& actions[w.1] is WriteFile
        },
        calls[k].stage is ReadingBack ==> {
            &&& 0 <= w.0 < w.1 < w.2 < k
            &&& events[w.0] == Event::Authorization(PolkitAnswer::Answered(true))
            &&& actions[w.1] is WriteFile
            &&& events[w.2] matches Event::FileWritten(Ok(_))
        },
        calls[k].stage matches SetProfileStage::Notifying { applied } ==> {
            &&& 0 <= w.0 < w.1 < w.2 < w.3 < k
            &&& events[w.0] == Event::Authorization(PolkitAnswer::Answered(true))
            &&& actions[w.1] is WriteFile
            &&& events[w.2] matches Event::FileWritten(Ok(_))
            &&& events[w.3] matches Event::FileRead(Ok(raw))
            &&& applied@ == trim(raw@)
        },
    decreases k,
{
    if k == 0 {
        (0, 0, 0, 0)
    } else {
        let prev = lemma_history(calls, events, actions, k - 1);
        let j = k - 1;
        assert(calls[j].transition(events[j], calls[j + 1], actions[j]));
        match calls[j].stage {
            SetProfileStage::Authorizing => {
                if calls[k].stage is ReadingChoices {
                    (j, 0, 0, 0)
                } else {
                    prev
                }
            },
            SetProfileStage::ReadingChoices { .. } => {
                if calls[k].stage is Writing {
                    (prev.0, j, 0, 0)
                } else {
                    prev
                }
            },
            SetProfileStage::Writing { .. } => {
                if calls[k].stage is ReadingBack {
                    (prev.0, prev.1, j, 0)
                } else {
                    prev
                }
            },
            SetProfileStage::ReadingBack { .. } => {
                if calls[k].stage is Notifying {
                    (prev.0, prev.1, prev.2, j)
                } else {
                    prev
                }
            },
            _ => prev,
        }
    }
}

/// polkit gates the hardware: in a run of a `SetProfile` call, every write
/// of the attribute comes after polkit's explicit "authorized".
pub proof fn lemma_write_only_when_authorized(
    calls: Seq<SetProfile>,
    events: Seq<Event>,
    actions: Seq<Action<String>>,
    i: int,
)
    requires
        is_run(calls, events, actions),
        0 <= i < events.len(),
        actions[i] is WriteFile,
    ensures
        exists|a: int|
            0 <= a < i && #[trigger] events[a] == Event::Authorization(
                PolkitAnswer::Answered(true),
            ),
{
    let h = lemma_history(calls, events, actions, i);
    assert(calls[i].transition(events[i], calls[i + 1], actions[i]));
    lemma_write_only_offered(calls[i], events[i], calls[i + 1], actions[i]);
    assert(events[h.0] == Event::Authorization(PolkitAnswer::Answered(true)));
}

/// Every successful write is verified by reading it back: in a run of a
/// `SetProfile` call, a successful reply of `applied` comes after polkit's
/// "authorized", after a write of the profile, after that write succeeded,
/// and after a read-back whose trimmed contents are `applied`, in this
/// order.
pub proof fn lemma_success_is_read_back(
    calls: Seq<SetProfile>,
    events: Seq<Event>,
    actions: Seq<Action<String>>,
    i: int,
    applied: String,
)
    requires
        is_run(calls, events, actions),
        0 <= i < events.len(),
        actions[i] == Action::<String>::Reply(Ok(applied)),
    ensures
        exists|a: int, b: int, w: int, r: int|
            {
                &&& 0 <= a < b < w < r < i
                &&& #[trigger] events[a] == Event::Authorization(PolkitAnswer::Answered(true))
                &&& #[trigger] actions[b] is WriteFile
                &&& #[trigger] events[w] matches Event::FileWritten(Ok(_))
                &&& #[trigger] events[r] matches Event::FileRead(Ok(raw))
                &&& applied@ == trim(raw@)
            },
{
    let h = lemma_history(calls, events, actions, i);
    assert(calls[i].transition(events[i], calls[i + 1], actions[i]));
    assert(calls[i].stage == SetProfileStage::Notifying { applied });
    assert(events[h.0] == Event::Authorization(PolkitAnswer::Answered(true)));
}

/// A `SetProfile` call writes every profile that the machine offers: when
/// the offered choices contain the requested profile, the call's next
/// action is to write exactly that profile to its attribute.
pub proof fn lemma_offered_profile_is_written(
    call: SetProfile,
    choices: String,
    next: SetProfile,
    action: Action<String>,
)
    requires
        call.stage is ReadingChoices,
        words(choices@).contains(call.profile@),
        call.transition(Event::FileRead(Ok(choices)), next, action),
    ensures
        call.stage matches SetProfileStage::ReadingChoices { path } && action matches Action::WriteFile { path: target, contents } && target == path && contents@ == call.profile@,
        call.stage matches SetProfileStage::ReadingChoices { path } && next.stage == (SetProfileStage::Writing { path }),
{
}

} // verus!
