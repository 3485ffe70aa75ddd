//! OS updates, daemon side: the commands involved and how their outcomes
//! are reported. Applying never runs `apt` here: the daemon's own unit is
//! sandboxed away from most of the filesystem, so it starts a separate,
//! unsandboxed unit and waits for it.
use vstd::prelude::*;

use crate::daemon::request::{command_line, describe_command, CommandOutput};
use crate::error::ControlError;
use crate::text::{join, join_strings, lines, lines_of, trim, trim_str, views};

verus! {

broadcast use vstd::string::group_string_axioms;

/// The on-demand unit that applies OS updates.
pub const APPLY_UNIT: &'static str = "controlcenterd-updates@os.service";

/// Where the update script writes its output.
pub const APPLY_LOG: &'static str = "/run/controlcenterd/update-os.log";

/// How many lines of the update log a failure report carries.
pub const LOG_TAIL_LINES: usize = 20;

/// The last `n` lines of `text` (all of them when it has fewer).
pub open spec fn last_lines(text: Seq<char>, n: nat) -> Seq<Seq<char>> {
    let ls = lines(text);
    ls.subrange(if ls.len() > n { ls.len() - n } else { 0 }, ls.len() as int)
}

/// The last `n` lines of `text`, joined with `'\n'`.
pub fn tail(text: &str, n: usize) -> (r: String)
    ensures
        r@ == join(last_lines(text@, n as nat), seq!['\n']),
{
    let ls = lines_of(text);
    let len = ls.len();
    let start: usize = if len > n {
        len - n
    } else {
        0
    };
    let mut kept: Vec<String> = Vec::new();
    let mut i: usize = start;
    while i < len
        invariant
            start <= i <= len == ls@.len(),
            views(kept@) == views(ls@).subrange(start as int, i as int),
        decreases len - i,
    {
        let ghost before = views(kept@);
        kept.push(ls[i].clone());
        assert(views(kept@) =~= before.push(ls@[i as int]@));
        assert(views(ls@).subrange(start as int, i + 1) =~= views(ls@).subrange(
            start as int,
            i as int,
        ).push(ls@[i as int]@));
        i = i + 1;
    }
    let newline = "\n".to_string();
    proof {
        reveal_strlit("\n");
        assert(newline@ =~= seq!['\n']);
    }
    join_strings(&kept, newline.as_str())
}

/// `v` holds the strings `a` and `b`, in this order.
fn two_strings(a: &str, b: &str) -> (v: Vec<String>)
    ensures
        views(v@) == seq![a@, b@],
{
    let mut v: Vec<String> = Vec::new();
    v.push(a.to_string());
    v.push(b.to_string());
    assert(views(v@) =~= seq![a@, b@]);
    v
}

/// The program that lists upgradable packages.
pub const PREVIEW_PROGRAM: &'static str = "apt";

/// The arguments of `PREVIEW_PROGRAM` for the preview.
pub open spec fn preview_args_spec() -> Seq<Seq<char>> {
    seq!["list"@, "--upgradable"@]
}

/// The arguments that make `apt` list upgradable packages. Listing needs no
/// privilege, so previewing asks polkit nothing.
pub fn preview_args() -> (v: Vec<String>)
    ensures
        views(v@) == preview_args_spec(),
{
    two_strings("list", "--upgradable")
}

/// What `PreviewOs` replies, given how the listing command ended: a spawn
/// failure as `CommandSpawn`, an unsuccessful exit as `UpdateFailed` for
/// the "os preview" category with the exit status, and otherwise the
/// trimmed listing.
pub fn preview_reply(run: Result<CommandOutput, std::io::Error>) -> (r: Result<String, ControlError>)
    ensures
        match run {
            Err(e) => r matches Err(ControlError::CommandSpawn { command, source }) && source == e
                && command@ == command_line(PREVIEW_PROGRAM@, preview_args_spec()),
            Ok(out) => if out.success {
                r matches Ok(listing) && listing@ == trim(out.stdout@)
            } else {
                r matches Err(ControlError::UpdateFailed { category, status }) && category@
                    == "os preview"@ && status == out.status
            },
        },
{
    match run {
        Err(e) => {
            let program = PREVIEW_PROGRAM.to_string();
            let args = preview_args();
            Err(ControlError::CommandSpawn { command: describe_command(&program, &args), source: e })
        },
        Ok(out) => {
            if !out.success {
                Err(
                    ControlError::UpdateFailed {
                        category: "os preview".to_string(),
                        status: out.status,
                    },
                )
            } else {
                Ok(trim_str(out.stdout.as_str()))
            }
        },
    }
}

/// The program that starts the update unit.
pub const APPLY_PROGRAM: &'static str = "systemctl";

/// The arguments of `APPLY_PROGRAM` that start the update unit and wait for
/// it to end.
pub open spec fn apply_args_spec() -> Seq<Seq<char>> {
    seq!["start"@, "--wait"@, APPLY_UNIT@]
}

/// The arguments that start the update unit and wait for it.
pub fn apply_args() -> (v: Vec<String>)
    ensures
        views(v@) == apply_args_spec(),
{
    let mut v = two_strings("start", "--wait");
    let ghost before = views(v@);
    v.push(APPLY_UNIT.to_string());
    assert(views(v@) =~= before.push(APPLY_UNIT@));
    v
}

} // verus!
