//! The `org.controlcenter.Daemon1.Updates` interface: the flow of `ApplyOs`
//! (authorize, start the update unit and wait, report). `PreviewOs` needs
//! no flow: it is one unprivileged command (see `updates::preview_reply`).
use vstd::prelude::*;

use crate::daemon::request::{command_line, describe_command, Action, Event};
use crate::daemon::updates::{
    apply_args, apply_args_spec, last_lines, tail, APPLY_LOG, APPLY_PROGRAM, LOG_TAIL_LINES,
};
use crate::error::ControlError;
use crate::polkit::{verdict, verdict_of, PolkitAnswer};
use crate::text::{join, views};

verus! {

broadcast use vstd::string::group_string_axioms;

/// The polkit action `ApplyOs` requires.
pub const ACTION_APPLY_OS_UPDATE: &'static str = "org.controlcenter.daemon.apply-os-update";

/// The updates interface. It holds no state: each call starts its own flow.
pub struct UpdatesInterface;

impl UpdatesInterface {
    pub fn new() -> (r: Self) {
        UpdatesInterface
    }

    /// The flow of an `ApplyOs` call.
    pub fn apply_os(&self) -> (f: ApplyOs)
        ensures
            f.stage == ApplyOsStage::Start,
    {
        ApplyOs { stage: ApplyOsStage::Start }
    }
}

/// Where an `ApplyOs` call stands.
#[derive(Debug)]
pub enum ApplyOsStage {
    /// Nothing done yet.
    Start,
    /// Waiting for polkit's answer.
    Authorizing,
    /// Waiting for the update unit to end.
    Running,
    /// The unit failed with exit status `status`; waiting for its log.
    ReadingLog { status: String },
    /// The caller has been answered.
    Finished,
}

/// An `ApplyOs` call.
#[derive(Debug)]
pub struct ApplyOs {
    pub stage: ApplyOsStage,
}

impl ApplyOs {
    /// On `event`, the call moves from `self` to `next` and asks for `action`:
    /// ask polkit first; once authorized, start the update unit and wait for
    /// it; reply `Ok` when it succeeded; when it failed, read its log and
    /// reply `UpdateFailed` for the "os" category with the log's last lines,
    /// or with the exit status where the log cannot be read. A unit that
    /// cannot be started is a `CommandSpawn` failure.
    pub open spec fn transition(self, event: Event, next: Self, action: Action<()>) -> bool {
        match self.stage {
            ApplyOsStage::Start => {
                &&& next.stage == ApplyOsStage::Authorizing
                &&& action matches Action::Authorize { action_id }
                &&& action_id@ == ACTION_APPLY_OS_UPDATE@
            },
            ApplyOsStage::Authorizing => match event {
                Event::Authorization(answer) => match verdict_of(answer) {
                    Err(e) => next.stage == ApplyOsStage::Finished && action == Action::<
                        (),
                    >::Reply(Err(e)),
                    Ok(_) => {
                        &&& next.stage == ApplyOsStage::Running
                        &&& action matches Action::RunCommand { program, args }
                        &&& program@ == APPLY_PROGRAM@
                        &&& views(args@) == apply_args_spec()
                    },
                },
                _ => next.stage == self.stage && action == Action::<()>::Idle,
            },
            ApplyOsStage::Running => match event {
                Event::CommandDone(Err(e)) => {
                    &&& next.stage == ApplyOsStage::Finished
                    &&& action matches Action::Reply(
                        Err(ControlError::CommandSpawn { command, source }),
                    )
                    &&& source == e
                    &&& command@ == command_line(APPLY_PROGRAM@, apply_args_spec())
                },
                Event::CommandDone(Ok(out)) => if out.success {
                    next.stage == ApplyOsStage::Finished && action == Action::<()>::Reply(Ok(()))
                } else {
                    &&& next.stage == ApplyOsStage::ReadingLog { status: out.status }
                    &&& action matches Action::ReadFile { path }
                    &&& path@ == APPLY_LOG@
                },
                _ => next.stage == self.stage && action == Action::<()>::Idle,
            },
            ApplyOsStage::ReadingLog { status } => match event {
                Event::FileRead(Ok(log)) => {
                    &&& next.stage == ApplyOsStage::Finished
                    &&& action matches Action::Reply(
                        Err(ControlError::UpdateFailed { category, status: detail }),
                    )
                    &&& category@ == "os"@
                    &&& detail@ == join(last_lines(log@, LOG_TAIL_LINES as nat), seq!['\n'])
                },
                Event::FileRead(Err(_)) => {
                    &&& next.stage == ApplyOsStage::Finished
                    &&& action matches Action::Reply(
                        Err(ControlError::UpdateFailed { category, status: detail }),
                    )
                    &&& category@ == "os"@
                    &&& detail == status
                },
                _ => next.stage == self.stage && action == Action::<()>::Idle,
            },
            ApplyOsStage::Finished => next.stage == self.stage && action == Action::<()>::Idle,
        }
    }

    /// Advances the call by one event.
    pub fn step(&mut self, event: Event) -> (action: Action<()>)
        ensures
            old(self).transition(event, *final(self), action),
    {
        match &self.stage {
            ApplyOsStage::Start => {
                self.stage = ApplyOsStage::Authorizing;
                Action::Authorize { action_id: ACTION_APPLY_OS_UPDATE.to_string() }
            },
            ApplyOsStage::Authorizing => match event {
                Event::Authorization(answer) => match verdict(answer) {
                    Err(e) => {
                        self.stage = ApplyOsStage::Finished;
                        Action::Reply(Err(e))
                    },
                    Ok(()) => {
                        self.stage = ApplyOsStage::Running;
                        Action::RunCommand { program: APPLY_PROGRAM.to_string(), args: apply_args() }
                    },
                },
                _ => Action::Idle,
            },
            ApplyOsStage::Running => match event {
                Event::CommandDone(Err(e)) => {
                    let program = APPLY_PROGRAM.to_string();
                    let args = apply_args();
                    self.stage = ApplyOsStage::Finished;
                    Action::Reply(
                        Err(
                            ControlError::CommandSpawn {
                                command: describe_command(&program, &args),
                                source: e,
                            },
                        ),
                    )
                },
                Event::CommandDone(Ok(out)) => {
                    if out.success {
                        self.stage = ApplyOsStage::Finished;
                        Action::Reply(Ok(()))
                    } else {
                        self.stage = ApplyOsStage::ReadingLog { status: out.status };
                        Action::ReadFile { path: APPLY_LOG.to_string() }
                    }
                },
                _ => Action::Idle,
            },
            ApplyOsStage::ReadingLog { status } => {
                let status = status.clone();
                match event {
                    Event::FileRead(Ok(log)) => {
                        self.stage = ApplyOsStage::Finished;
                        Action::Reply(
                            Err(
                                ControlError::UpdateFailed {
                                    category: "os".to_string(),
                                    status: tail(log.as_str(), LOG_TAIL_LINES),
                                },
                            ),
                        )
                    },
                    Event::FileRead(Err(_)) => {
                        self.stage = ApplyOsStage::Finished;
                        Action::Reply(
                            Err(ControlError::UpdateFailed { category: "os".to_string(), status }),
                        )
                    },
                    _ => Action::Idle,
                }
            },
            ApplyOsStage::Finished => Action::Idle,
        }
    }
}

/// polkit gates updating: an `ApplyOs` call starts the update unit only as
/// its answer to polkit's explicit "authorized", and starts exactly
/// `systemctl start --wait` on the update unit.
pub proof fn lemma_update_only_when_authorized(
    call: ApplyOs,
    event: Event,
    next: ApplyOs,
    action: Action<()>,
)
    requires
        call.transition(event, next, action),
        action is RunCommand,
    ensures
        call.stage == ApplyOsStage::Authorizing,
        event == Event::Authorization(PolkitAnswer::Answered(true)),
        action matches Action::RunCommand { program, args } && program@ == APPLY_PROGRAM@
            && views(args@) == apply_args_spec(),
{
}

} // verus!
