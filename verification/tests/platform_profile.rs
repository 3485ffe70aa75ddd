use controlcenter::daemon::platform_profile::{
    discover_platform_path, profile_from_read, validate, PROFILE_PATH,
};
use controlcenter::error::ControlError;

#[test]
fn platform_profile_read_is_trimmed() {
    assert_eq!(profile_from_read(Ok("balanced\n".to_string())).unwrap(), "balanced");
    let err = std::io::Error::new(std::io::ErrorKind::PermissionDenied, "no");
    assert!(matches!(profile_from_read(Err(err)), Err(ControlError::SysfsRead(_))));
}

#[test]
fn platform_profile_validate_against_choices() {
    let choices = "quiet balanced performance\n";
    assert!(validate("quiet", choices).is_ok());
    assert!(validate("performance", choices).is_ok());
    match validate("turbo", choices) {
        Err(ControlError::InvalidProfile { value, choices }) => {
            assert_eq!(value, "turbo");
            assert_eq!(choices, vec!["quiet", "balanced", "performance"]);
        }
        other => panic!("unexpected {other:?}"),
    }
    assert!(validate("", choices).is_err());
    assert!(validate("quiet balanced", choices).is_err());
    assert!(validate("quiet", "").is_err());
}

#[test]
fn platform_profile_discovery() {
    assert_eq!(discover_platform_path(true).as_deref(), Some(PROFILE_PATH));
    assert_eq!(PROFILE_PATH, "/sys/firmware/acpi/platform_profile");
    assert_eq!(discover_platform_path(false), None);
}
