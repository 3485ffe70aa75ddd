use controlcenter::daemon::battery_iface::{BatteryInterface, ACTION_SET_CHARGE_LIMIT};
use controlcenter::daemon::platform_profile_iface::{
    PlatformProfileInterface, ACTION_SET_PLATFORM_PROFILE,
};
use controlcenter::daemon::platform_profile::CHOICES_PATH;
use controlcenter::daemon::request::{Action, CommandOutput, Event};
use controlcenter::daemon::updates::{preview_reply, tail, APPLY_LOG};
use controlcenter::daemon::updates_iface::{UpdatesInterface, ACTION_APPLY_OS_UPDATE};
use controlcenter::error::ControlError;
use controlcenter::polkit::PolkitAnswer;

const PATH: &str = "/sys/class/power_supply/BAT1/charge_control_end_threshold";

fn io_error() -> std::io::Error {
    std::io::Error::new(std::io::ErrorKind::PermissionDenied, "denied")
}

#[test]
fn set_charge_limit_writes_then_reads_back() {
    let iface = BatteryInterface::new(Some(PATH.to_string()));
    assert!(iface.supported());
    let mut flow = iface.set_charge_limit(80);
    match flow.step(Event::Begin) {
        Action::Authorize { action_id } => assert_eq!(action_id, ACTION_SET_CHARGE_LIMIT),
        other => panic!("unexpected {other:?}"),
    }
    match flow.step(Event::Authorization(PolkitAnswer::Answered(true))) {
        Action::WriteFile { path, contents } => {
            assert_eq!(path, PATH);
            assert_eq!(contents, "80");
        }
        other => panic!("unexpected {other:?}"),
    }
    match flow.step(Event::FileWritten(Ok(()))) {
        Action::ReadFile { path } => assert_eq!(path, PATH),
        other => panic!("unexpected {other:?}"),
    }
    // Hardware that only honors steps may apply another value: it is what
    // the call answers with.
    assert!(matches!(flow.step(Event::FileRead(Ok("60\n".to_string()))), Action::NotifyChanged));
    assert!(matches!(flow.step(Event::Notified), Action::Reply(Ok(60))));
    assert!(matches!(flow.step(Event::Notified), Action::Idle));
}

#[test]
fn set_charge_limit_refused_without_authorization() {
    let iface = BatteryInterface::new(Some(PATH.to_string()));
    let mut flow = iface.set_charge_limit(80);
    flow.step(Event::Begin);
    assert!(matches!(
        flow.step(Event::Authorization(PolkitAnswer::Answered(false))),
        Action::Reply(Err(ControlError::NotAuthorized))
    ));
    let mut flow = iface.set_charge_limit(80);
    flow.step(Event::Begin);
    assert!(matches!(
        flow.step(Event::Authorization(PolkitAnswer::NoSubject)),
        Action::Reply(Err(ControlError::NotAuthorized))
    ));
    let mut flow = iface.set_charge_limit(80);
    flow.step(Event::Begin);
    // An event that does not answer polkit's question changes nothing.
    assert!(matches!(flow.step(Event::FileWritten(Ok(()))), Action::Idle));
    assert!(matches!(
        flow.step(Event::Authorization(PolkitAnswer::Unreachable(zbus::Error::InvalidReply))),
        Action::Reply(Err(ControlError::PolkitUnavailable(_)))
    ));
}

#[test]
fn set_charge_limit_failures() {
    let unsupported = BatteryInterface::new(None);
    assert!(!unsupported.supported());
    assert!(matches!(unsupported.limit_path(), Err(ControlError::Unsupported)));
    let mut flow = unsupported.set_charge_limit(80);
    flow.step(Event::Begin);
    assert!(matches!(
        flow.step(Event::Authorization(PolkitAnswer::Answered(true))),
        Action::Reply(Err(ControlError::Unsupported))
    ));

    let iface = BatteryInterface::new(Some(PATH.to_string()));
    assert_eq!(iface.limit_path().unwrap(), PATH);
    let mut flow = iface.set_charge_limit(101);
    flow.step(Event::Begin);
    assert!(matches!(
        flow.step(Event::Authorization(PolkitAnswer::Answered(true))),
        Action::Reply(Err(ControlError::OutOfRange { value: 101, min: 20, max: 100 }))
    ));

    let mut flow = iface.set_charge_limit(50);
    flow.step(Event::Begin);
    flow.step(Event::Authorization(PolkitAnswer::Answered(true)));
    assert!(matches!(
        flow.step(Event::FileWritten(Err(io_error()))),
        Action::Reply(Err(ControlError::SysfsWrite(_)))
    ));

    let mut flow = iface.set_charge_limit(50);
    flow.step(Event::Begin);
    flow.step(Event::Authorization(PolkitAnswer::Answered(true)));
    flow.step(Event::FileWritten(Ok(())));
    match flow.step(Event::FileRead(Ok("fifty\n".to_string()))) {
        Action::Reply(Err(ControlError::UnexpectedSysfsValue(v))) => assert_eq!(v, "fifty"),
        other => panic!("unexpected {other:?}"),
    }

    let mut flow = iface.set_charge_limit(50);
    flow.step(Event::Begin);
    flow.step(Event::Authorization(PolkitAnswer::Answered(true)));
    flow.step(Event::FileWritten(Ok(())));
    assert!(matches!(
        flow.step(Event::FileRead(Err(io_error()))),
        Action::Reply(Err(ControlError::SysfsRead(_)))
    ));
}

#[test]
fn set_profile_checks_choices_then_writes() {
    let path = "/sys/firmware/acpi/platform_profile";
    let iface = PlatformProfileInterface::new(Some(path.to_string()));
    assert!(iface.supported());
    assert_eq!(iface.profile_file().unwrap(), path);
    let mut flow = iface.set_profile("performance".to_string());
    match flow.step(Event::Begin) {
        Action::Authorize { action_id } => assert_eq!(action_id, ACTION_SET_PLATFORM_PROFILE),
        other => panic!("unexpected {other:?}"),
    }
    match flow.step(Event::Authorization(PolkitAnswer::Answered(true))) {
        Action::ReadFile { path } => assert_eq!(path, CHOICES_PATH),
        other => panic!("unexpected {other:?}"),
    }
    match flow.step(Event::FileRead(Ok("quiet balanced performance\n".to_string()))) {
        Action::WriteFile { path: target, contents } => {
            assert_eq!(target, path);
            assert_eq!(contents, "performance");
        }
        other => panic!("unexpected {other:?}"),
    }
    assert!(matches!(flow.step(Event::FileWritten(Ok(()))), Action::ReadFile { .. }));
    assert!(matches!(
        flow.step(Event::FileRead(Ok("performance\n".to_string()))),
        Action::NotifyChanged
    ));
    match flow.step(Event::Notified) {
        Action::Reply(Ok(applied)) => assert_eq!(applied, "performance"),
        other => panic!("unexpected {other:?}"),
    }
}

#[test]
fn set_profile_rejects_unoffered() {
    let iface = PlatformProfileInterface::new(Some("/p".to_string()));
    let mut flow = iface.set_profile("turbo".to_string());
    flow.step(Event::Begin);
    flow.step(Event::Authorization(PolkitAnswer::Answered(true)));
    match flow.step(Event::FileRead(Ok("quiet balanced\n".to_string()))) {
        Action::Reply(Err(ControlError::InvalidProfile { value, choices })) => {
            assert_eq!(value, "turbo");
            assert_eq!(choices, vec!["quiet", "balanced"]);
        }
        other => panic!("unexpected {other:?}"),
    }

    let unsupported = PlatformProfileInterface::new(None);
    assert!(!unsupported.supported());
    let mut flow = unsupported.set_profile("quiet".to_string());
    flow.step(Event::Begin);
    assert!(matches!(
        flow.step(Event::Authorization(PolkitAnswer::Answered(true))),
        Action::Reply(Err(ControlError::Unsupported))
    ));
}

#[test]
fn apply_os_runs_the_unit_when_authorized() {
    let iface = UpdatesInterface::new();
    let mut flow = iface.apply_os();
    match flow.step(Event::Begin) {
        Action::Authorize { action_id } => assert_eq!(action_id, ACTION_APPLY_OS_UPDATE),
        other => panic!("unexpected {other:?}"),
    }
    match flow.step(Event::Authorization(PolkitAnswer::Answered(true))) {
        Action::RunCommand { program, args } => {
            assert_eq!(program, "systemctl");
            assert_eq!(args, vec!["start", "--wait", "controlcenterd-updates@os.service"]);
        }
        other => panic!("unexpected {other:?}"),
    }
    let done = CommandOutput { success: true, status: "exit status: 0".to_string(), stdout: String::new() };
    assert!(matches!(flow.step(Event::CommandDone(Ok(done))), Action::Reply(Ok(()))));

    let mut flow = iface.apply_os();
    flow.step(Event::Begin);
    assert!(matches!(
        flow.step(Event::Authorization(PolkitAnswer::Answered(false))),
        Action::Reply(Err(ControlError::NotAuthorized))
    ));
}

#[test]
fn apply_os_failure_reports_log_tail() {
    let iface = UpdatesInterface::new();
    let failed = || CommandOutput { success: false, status: "exit status: 100".to_string(), stdout: String::new() };

    let mut flow = iface.apply_os();
    flow.step(Event::Begin);
    flow.step(Event::Authorization(PolkitAnswer::Answered(true)));
    match flow.step(Event::CommandDone(Ok(failed()))) {
        Action::ReadFile { path } => assert_eq!(path, APPLY_LOG),
        other => panic!("unexpected {other:?}"),
    }
    let log: String = (1..=25).map(|i| format!("line {i}\n")).collect();
    match flow.step(Event::FileRead(Ok(log))) {
        Action::Reply(Err(ControlError::UpdateFailed { category, status })) => {
            assert_eq!(category, "os");
            let expected: Vec<String> = (6..=25).map(|i| format!("line {i}")).collect();
            assert_eq!(status, expected.join("\n"));
        }
        other => panic!("unexpected {other:?}"),
    }

    let mut flow = iface.apply_os();
    flow.step(Event::Begin);
    flow.step(Event::Authorization(PolkitAnswer::Answered(true)));
    flow.step(Event::CommandDone(Ok(failed())));
    match flow.step(Event::FileRead(Err(io_error()))) {
        Action::Reply(Err(ControlError::UpdateFailed { category, status })) => {
            assert_eq!(category, "os");
            assert_eq!(status, "exit status: 100");
        }
        other => panic!("unexpected {other:?}"),
    }

    let mut flow = iface.apply_os();
    flow.step(Event::Begin);
    flow.step(Event::Authorization(PolkitAnswer::Answered(true)));
    match flow.step(Event::CommandDone(Err(io_error()))) {
        Action::Reply(Err(ControlError::CommandSpawn { command, .. })) => {
            assert_eq!(command, "systemctl start --wait controlcenterd-updates@os.service");
        }
        other => panic!("unexpected {other:?}"),
    }
}

#[test]
fn preview_reply_cases() {
    let ok = CommandOutput {
        success: true,
        status: "exit status: 0".to_string(),
        stdout: "vim/noble 2:9.1 amd64 [upgradable from: 2:9.0]\n".to_string(),
    };
    assert_eq!(preview_reply(Ok(ok)).unwrap(), "vim/noble 2:9.1 amd64 [upgradable from: 2:9.0]");
    let empty = CommandOutput { success: true, status: "exit status: 0".to_string(), stdout: "\n".to_string() };
    assert_eq!(preview_reply(Ok(empty)).unwrap(), "");
    let failed = CommandOutput { success: false, status: "exit status: 1".to_string(), stdout: String::new() };
    match preview_reply(Ok(failed)) {
        Err(ControlError::UpdateFailed { category, status }) => {
            assert_eq!(category, "os preview");
            assert_eq!(status, "exit status: 1");
        }
        other => panic!("unexpected {other:?}"),
    }
    match preview_reply(Err(io_error())) {
        Err(ControlError::CommandSpawn { command, .. }) => assert_eq!(command, "apt list --upgradable"),
        other => panic!("unexpected {other:?}"),
    }
}

#[test]
fn tail_keeps_last_lines() {
    assert_eq!(tail("a\nb\nc\n", 2), "b\nc");
    assert_eq!(tail("a\nb\nc", 5), "a\nb\nc");
    assert_eq!(tail("", 3), "");
    assert_eq!(tail("a\r\nb\r\n", 1), "b");
    assert_eq!(tail("a\nb", 0), "");
}
