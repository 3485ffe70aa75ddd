//! The vocabulary of the daemon's request flows. A flow is a state machine
//! that never touches the system itself: on each `Event` (the outcome of the
//! last thing done) it answers with the next `Action` to perform, until it
//! answers with a `Reply` for the D-Bus caller.
use vstd::prelude::*;
use vstd::string::StringExecFns;

use crate::error::ControlError;
use crate::polkit::PolkitAnswer;
use crate::text::{join, views};

verus! {

broadcast use vstd::string::group_string_axioms;

/// How a helper program ended, as the flows read it.
#[derive(Debug)]
pub struct CommandOutput {
    /// The program exited successfully.
    pub success: bool,
    /// Its exit status, in words (`ExitStatus`'s display).
    pub status: String,
    /// Its standard output, decoded as UTF-8 (invalid sequences replaced).
    pub stdout: String,
}

/// The outcome of the action a flow asked for last.
#[derive(Debug)]
pub enum Event {
    /// Nothing has happened yet: the request just arrived.
    Begin,
    /// polkit's answer to `Action::Authorize`.
    Authorization(PolkitAnswer),
    /// The outcome of `Action::ReadFile`.
    FileRead(Result<String, std::io::Error>),
    /// The outcome of `Action::WriteFile`.
    FileWritten(Result<(), std::io::Error>),
    /// The outcome of `Action::RunCommand`.
    CommandDone(Result<CommandOutput, std::io::Error>),
    /// `Action::NotifyChanged` was carried out (whether or not the signal
    /// went out: a lost notification fails no request).
    Notified,
}

/// What a flow asks to be done next.
#[derive(Debug)]
pub enum Action<T> {
    /// Ask polkit whether the caller may perform `action_id`.
    Authorize { action_id: String },
    /// Read the whole file at `path` as text.
    ReadFile { path: String },
    /// Replace the contents of the file at `path` with `contents`.
    WriteFile { path: String, contents: String },
    /// Run `program` with `args` and wait for it to end.
    RunCommand { program: String, args: Vec<String> },
    /// Tell watchers that the property behind the request changed.
    NotifyChanged,
    /// The request is over: answer the caller with this.
    Reply(Result<T, ControlError>),
    /// The event did not answer what the flow is waiting for; nothing to do.
    Idle,
}

/// How a command is named in an error: the program, a space, and the
/// arguments separated by spaces.
pub open spec fn command_line(program: Seq<char>, args: Seq<Seq<char>>) -> Seq<char> {
    program + seq![' '] + join(args, seq![' '])
}

/// Names the command `program args..` for an error message.
pub fn describe_command(program: &String, args: &Vec<String>) -> (r: String)
    ensures
        r@ == command_line(program@, views(args@)),
{
    let mut r = program.clone();
    let space = " ".to_string();
    proof {
        reveal_strlit(" ");
    }
    assert(space@ == " "@);
    assert(" "@ =~= seq![' ']);
    r.append(space.as_str());
    let joined = crate::text::join_strings(args, space.as_str());
    r.append(joined.as_str());
    assert(r@ =~= command_line(program@, views(args@)));
    r
}

} // verus!
