//! The daemon's domain errors, and how each reaches a D-Bus caller.
use vstd::prelude::*;
use vstd::string::{to_string_from_display_ensures, StringExecFns};

use crate::text::{debug_quote, debug_quoted, decimal, decimal_u8, join, join_strings};

verus! {

broadcast use vstd::string::group_string_axioms;

/// Declares `std::io::Error` to Verus, opaque: the library only carries such
/// errors from the I/O that failed to the caller, and no contract says
/// anything of what one holds.
#[verifier::external_type_specification]
#[verifier::external_body]
pub struct ExIoError(std::io::Error);

/// Declares `zbus::Error` (zbus's own error type) to Verus, opaque: the
/// library only carries it from a failed polkit call to the caller, and no
/// contract says anything of what one holds.
#[verifier::external_type_specification]
#[verifier::external_body]
pub struct ExBusError(zbus::Error);

/// Domain errors for the daemon. `bus_error_kind` is the one place that
/// decides which D-Bus error a caller sees for each of them.
#[derive(Debug)]
#[allow(inconsistent_fields)]
pub enum ControlError {
    /// This system exposes no such control.
    Unsupported,
    /// A charge limit outside `min..=max`.
    OutOfRange { value: u8, min: u8, max: u8 },
    /// A platform profile that is none of the offered `choices`.
    InvalidProfile { value: String, choices: Vec<String> },
    /// Reading a sysfs attribute failed.
    SysfsRead(std::io::Error),
    /// Writing a sysfs attribute failed.
    SysfsWrite(std::io::Error),
    /// A sysfs attribute held something else than expected.
    UnexpectedSysfsValue(String),
    /// polkit refused the caller.
    NotAuthorized,
    /// polkit could not be asked.
    PolkitUnavailable(zbus::Error),
    /// A helper program could not be started.
    CommandSpawn { command: String, source: std::io::Error },
    /// An update task ended without success.
    UpdateFailed { category: String, status: String },
}

/// The standard D-Bus errors (`org.freedesktop.DBus.Error.*`) the daemon
/// answers with.
#[derive(Debug, Clone, Copy, PartialEq, Eq, Structural)]
pub enum BusErrorKind {
    AccessDenied,
    InvalidArgs,
    NotSupported,
    Failed,
}

/// Which D-Bus error a caller sees for `e`: refusals are `AccessDenied`,
/// rejected arguments `InvalidArgs`, a missing control `NotSupported`, and
/// every failure of the machine itself a plain `Failed`.
pub open spec fn bus_kind_of(e: ControlError) -> BusErrorKind {
    match e {
        ControlError::NotAuthorized => BusErrorKind::AccessDenied,
        ControlError::OutOfRange { .. } => BusErrorKind::InvalidArgs,
        ControlError::InvalidProfile { .. } => BusErrorKind::InvalidArgs,
        ControlError::Unsupported => BusErrorKind::NotSupported,
        _ => BusErrorKind::Failed,
    }
}

impl ControlError {
    /// The D-Bus error this error is reported as.
    pub fn bus_error_kind(&self) -> (k: BusErrorKind)
        ensures
            k == bus_kind_of(*self),
            k == BusErrorKind::InvalidArgs <==> (*self is OutOfRange || *self is InvalidProfile),
            k == BusErrorKind::AccessDenied <==> *self is NotAuthorized,
            k == BusErrorKind::NotSupported <==> *self is Unsupported,
    {
        match self {
            ControlError::NotAuthorized => BusErrorKind::AccessDenied,
            ControlError::OutOfRange { .. } | ControlError::InvalidProfile { .. } => {
                BusErrorKind::InvalidArgs
            },
            ControlError::Unsupported => BusErrorKind::NotSupported,
            ControlError::SysfsRead(_)
            | ControlError::SysfsWrite(_)
            | ControlError::UnexpectedSysfsValue(_)
            | ControlError::PolkitUnavailable(_)
            | ControlError::CommandSpawn { .. }
            | ControlError::UpdateFailed { .. } => BusErrorKind::Failed,
        }
    }
}

/// How a list of strings is shown (`{:?}` of a `Vec<String>`): each one
/// quoted as `{:?}` shows it, separated by `", "`, between brackets.
pub open spec fn debug_list(items: Seq<String>) -> Seq<char> {
    "["@ + join(items.map_values(|x: String| debug_quoted(x@)), ", "@) + "]"@
}

/// `m` is the message a caller sees for `e`. Where the error carries an
/// I/O or D-Bus failure, the message ends with that failure's own
/// description (its `Display`).
pub open spec fn message_is(e: ControlError, m: Seq<char>) -> bool {
    match e {
        ControlError::Unsupported => m == "no battery on this system exposes a charge-limit control"@,
        ControlError::OutOfRange { value, min, max } => m == "charge limit "@ + decimal(
            value as nat,
        ) + " is out of the supported range "@ + decimal(min as nat) + "-"@ + decimal(
            max as nat,
        ),
        ControlError::InvalidProfile { value, choices } => m == "platform profile "@
            + debug_quoted(value@) + " is not supported; choices are "@ + debug_list(choices@),
        ControlError::SysfsRead(source) => exists|d: String|
            to_string_from_display_ensures::<std::io::Error>(&source, d) && m
                == "failed to read sysfs attribute: "@ + d@,
        ControlError::SysfsWrite(source) => exists|d: String|
            to_string_from_display_ensures::<std::io::Error>(&source, d) && m
                == "failed to write sysfs attribute: "@ + d@,
        ControlError::UnexpectedSysfsValue(value) => m == "sysfs returned an unexpected value: "@
            + debug_quoted(value@),
        ControlError::NotAuthorized => m == "not authorized to perform this action"@,
        ControlError::PolkitUnavailable(source) => exists|d: String|
            to_string_from_display_ensures::<zbus::Error>(&source, d) && m
                == "could not reach polkit authority: "@ + d@,
        ControlError::CommandSpawn { command, source } => exists|d: String|
            to_string_from_display_ensures::<std::io::Error>(&source, d) && m == "failed to run `"@
                + command@ + "`: "@ + d@,
        ControlError::UpdateFailed { category, status } => m == "update task for "@ + category@
            + " failed ("@ + status@ + ")"@,
    }
}

/// `{:?}` of `items`.
fn debug_list_of(items: &Vec<String>) -> (r: String)
    ensures
        r@ == debug_list(items@),
{
    let mut quoted: Vec<String> = Vec::new();
    let n = items.len();
    let mut i: usize = 0;
    while i < n
        invariant
            i <= n == items@.len(),
            quoted@.len() == i,
            forall|k: int| 0 <= k < i ==> (#[trigger] quoted@[k])@ == debug_quoted(items@[k]@),
        decreases n - i,
    {
        quoted.push(debug_quote(items[i].as_str()));
        i = i + 1;
    }
    assert(crate::text::views(quoted@) =~= items@.map_values(|x: String| debug_quoted(x@)));
    let mut r = "[".to_string();
    let inner = join_strings(&quoted, ", ");
    r.append(inner.as_str());
    r.append("]");
    r
}

impl ControlError {
    /// The message a D-Bus caller sees for this error. It never shows a
    /// path: I/O failures appear only as their own description.
    pub fn message(&self) -> (r: String)
        ensures
            message_is(*self, r@),
    {
        match self {
            ControlError::Unsupported => {
                "no battery on this system exposes a charge-limit control".to_string()
            },
            ControlError::OutOfRange { value, min, max } => {
                let mut r = "charge limit ".to_string();
                r.append(decimal_u8(*value).as_str());
                r.append(" is out of the supported range ");
                r.append(decimal_u8(*min).as_str());
                r.append("-");
                r.append(decimal_u8(*max).as_str());
                r
            },
            ControlError::InvalidProfile { value, choices } => {
                let mut r = "platform profile ".to_string();
                r.append(debug_quote(value.as_str()).as_str());
                r.append(" is not supported; choices are ");
                r.append(debug_list_of(choices).as_str());
                r
            },
            ControlError::SysfsRead(source) => {
                let d = source.to_string();
                let mut r = "failed to read sysfs attribute: ".to_string();
                r.append(d.as_str());
                r
            },
            ControlError::SysfsWrite(source) => {
                let d = source.to_string();
                let mut r = "failed to write sysfs attribute: ".to_string();
                r.append(d.as_str());
                r
            },
            ControlError::UnexpectedSysfsValue(value) => {
                let mut r = "sysfs returned an unexpected value: ".to_string();
                r.append(debug_quote(value.as_str()).as_str());
                r
            },
            ControlError::NotAuthorized => "not authorized to perform this action".to_string(),
            ControlError::PolkitUnavailable(source) => {
                let d = source.to_string();
                let mut r = "could not reach polkit authority: ".to_string();
                r.append(d.as_str());
                r
            },
            ControlError::CommandSpawn { command, source } => {
                let d = source.to_string();
                let mut r = "failed to run `".to_string();
                r.append(command.as_str());
                r.append("`: ");
                r.append(d.as_str());
                r
            },
            ControlError::UpdateFailed { category, status } => {
                let mut r = "update task for ".to_string();
                r.append(category.as_str());
                r.append(" failed (");
                r.append(status.as_str());
                r.append(")");
                r
            },
        }
    }
}

/// Only values the caller supplied are reported as invalid arguments; a
/// refusal is access denied, a missing control is not supported, and every
/// failure of the machine itself (I/O, polkit, a helper program, an update)
/// is a plain failure.
pub proof fn lemma_bus_kinds(e: ControlError)
    ensures
        bus_kind_of(e) == BusErrorKind::InvalidArgs <==> (e is OutOfRange || e is InvalidProfile),
        bus_kind_of(e) == BusErrorKind::AccessDenied <==> e is NotAuthorized,
        bus_kind_of(e) == BusErrorKind::NotSupported <==> e is Unsupported,
        (e is SysfsRead || e is SysfsWrite || e is UnexpectedSysfsValue || e is PolkitUnavailable
            || e is CommandSpawn || e is UpdateFailed) ==> bus_kind_of(e) == BusErrorKind::Failed,
{
}

} // verus!
