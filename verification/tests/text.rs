use controlcenter::daemon::host::euid_is_root;
use controlcenter::error::{BusErrorKind, ControlError};
use controlcenter::polkit::{verdict, PolkitAnswer};
use controlcenter::text::{
    join_strings, lines_of, parse_unsigned_str, starts_with_str, str_equals, trim_str, words_of,
};

#[test]
fn trim_matches_std() {
    for s in ["", "  ", " a ", "\u{3000}x\u{a0}", "a b", "\t\n x\r\n", "\u{1680}y\u{2029}"] {
        assert_eq!(trim_str(s), s.trim());
    }
}

#[test]
fn lines_match_std() {
    for s in ["", "\n", "a", "a\n", "a\n\n", "a\r\nb", "a\rb\r", "x\r\n\r\ny\n", "\n\n"] {
        let ours = lines_of(s);
        let std: Vec<&str> = s.lines().collect();
        assert_eq!(ours, std, "{s:?}");
    }
}

#[test]
fn words_match_std() {
    for s in ["", "   ", "quiet balanced performance\n", " a\tb\u{2003}c  ", "x"] {
        let ours = words_of(s);
        let std: Vec<&str> = s.split_whitespace().collect();
        assert_eq!(ours, std, "{s:?}");
    }
}

#[test]
fn join_and_prefix() {
    let parts = vec!["a".to_string(), "".to_string(), "c".to_string()];
    assert_eq!(join_strings(&parts, ", "), "a, , c");
    assert_eq!(join_strings(&Vec::new(), "x"), "");
    assert!(starts_with_str("Listing... Done", "Listing..."));
    assert!(!starts_with_str("Listing", "Listing..."));
    assert!(starts_with_str("abc", ""));
    assert!(str_equals("quiet", "quiet"));
    assert!(!str_equals("quiet", "quiet "));
}

#[test]
fn parse_unsigned_matches_std() {
    for s in ["0", "42", "+42", "-1", "", "+", "4294967295", "4294967296", "00012", "1a", " 1"] {
        assert_eq!(parse_unsigned_str(s, u32::MAX), s.parse::<u32>().ok(), "{s:?}");
        assert_eq!(parse_unsigned_str(s, 255).map(|v| v as u8), s.parse::<u8>().ok(), "{s:?}");
    }
}

#[test]
fn root_status() {
    let root = "Name:\tcontrolcenterd\nUid:\t0\t0\t0\t0\nGid:\t0\t0\t0\t0\n";
    assert!(euid_is_root(root));
    let setuid = "Uid:\t1000\t0\t1000\t1000\n";
    assert!(euid_is_root(setuid));
    let user = "Name:\tx\nUid:\t0\t1000\t1000\t1000\n";
    assert!(!euid_is_root(user));
    assert!(!euid_is_root("Name:\tx\n"));
    assert!(!euid_is_root("Uid:\t0\n"));
}

#[test]
fn bus_error_kinds() {
    assert_eq!(ControlError::NotAuthorized.bus_error_kind(), BusErrorKind::AccessDenied);
    assert_eq!(
        ControlError::OutOfRange { value: 5, min: 20, max: 100 }.bus_error_kind(),
        BusErrorKind::InvalidArgs
    );
    assert_eq!(
        ControlError::InvalidProfile { value: "x".to_string(), choices: vec![] }.bus_error_kind(),
        BusErrorKind::InvalidArgs
    );
    assert_eq!(ControlError::Unsupported.bus_error_kind(), BusErrorKind::NotSupported);
    assert_eq!(
        ControlError::UnexpectedSysfsValue("x".to_string()).bus_error_kind(),
        BusErrorKind::Failed
    );
    assert_eq!(
        ControlError::UpdateFailed { category: "os".to_string(), status: "1".to_string() }
            .bus_error_kind(),
        BusErrorKind::Failed
    );
    let io = std::io::Error::new(std::io::ErrorKind::Other, "x");
    assert_eq!(ControlError::SysfsRead(io).bus_error_kind(), BusErrorKind::Failed);
}

#[test]
fn polkit_verdicts() {
    assert!(verdict(PolkitAnswer::Answered(true)).is_ok());
    assert!(matches!(verdict(PolkitAnswer::Answered(false)), Err(ControlError::NotAuthorized)));
    assert!(matches!(verdict(PolkitAnswer::NoSubject), Err(ControlError::NotAuthorized)));
    assert!(matches!(
        verdict(PolkitAnswer::Unreachable(zbus::Error::InvalidReply)),
        Err(ControlError::PolkitUnavailable(_))
    ));
}

#[test]
fn error_messages() {
    assert_eq!(
        ControlError::Unsupported.message(),
        "no battery on this system exposes a charge-limit control"
    );
    assert_eq!(
        ControlError::OutOfRange { value: 10, min: 20, max: 100 }.message(),
        "charge limit 10 is out of the supported range 20-100"
    );
    let choices = vec!["quiet".to_string(), "balanced".to_string(), "performance".to_string()];
    assert_eq!(
        ControlError::InvalidProfile { value: "turbo".to_string(), choices: choices.clone() }
            .message(),
        format!("platform profile {:?} is not supported; choices are {:?}", "turbo", choices)
    );
    assert_eq!(
        ControlError::InvalidProfile { value: "x\"y".to_string(), choices: vec![] }.message(),
        "platform profile \"x\\\"y\" is not supported; choices are []"
    );
    assert_eq!(
        ControlError::UnexpectedSysfsValue("abc".to_string()).message(),
        "sysfs returned an unexpected value: \"abc\""
    );
    assert_eq!(ControlError::NotAuthorized.message(), "not authorized to perform this action");
    let io = std::io::Error::new(std::io::ErrorKind::Other, "disk gone");
    assert_eq!(ControlError::SysfsRead(io).message(), "failed to read sysfs attribute: disk gone");
    let io = std::io::Error::new(std::io::ErrorKind::Other, "busy");
    assert_eq!(ControlError::SysfsWrite(io).message(), "failed to write sysfs attribute: busy");
    let io = std::io::Error::new(std::io::ErrorKind::NotFound, "no such file");
    assert_eq!(
        ControlError::CommandSpawn { command: "apt list --upgradable".to_string(), source: io }
            .message(),
        "failed to run `apt list --upgradable`: no such file"
    );
    assert_eq!(
        ControlError::PolkitUnavailable(zbus::Error::InvalidReply).message(),
        format!("could not reach polkit authority: {}", zbus::Error::InvalidReply)
    );
    assert_eq!(
        ControlError::UpdateFailed { category: "os".to_string(), status: "exit status: 1".to_string() }
            .message(),
        "update task for os failed (exit status: 1)"
    );
}
