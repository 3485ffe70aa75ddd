use controlcenter::daemon::battery::{
    discover_threshold_path,
    limit_from_read, limit_text, parse_limit, validate, MAX_CHARGE_LIMIT, MIN_CHARGE_LIMIT,
};
use controlcenter::error::ControlError;

#[test]
fn battery_rejects_out_of_range() {
    assert!(validate(10).is_err());
    assert!(validate(101).is_err());
    assert!(validate(20).is_ok());
    assert!(validate(100).is_ok());
}

#[test]
fn out_of_range_names_the_bounds() {
    match validate(19) {
        Err(ControlError::OutOfRange { value, min, max }) => {
            assert_eq!((value, min, max), (19, 20, 100));
        }
        other => panic!("unexpected {other:?}"),
    }
    assert!(validate(0).is_err());
    assert!(validate(255).is_err());
    assert_eq!((MIN_CHARGE_LIMIT, MAX_CHARGE_LIMIT), (20, 100));
}

#[test]
fn limit_text_is_decimal() {
    assert_eq!(limit_text(80), "80");
    assert_eq!(limit_text(100), "100");
    assert_eq!(limit_text(7), "7");
    assert_eq!(limit_text(0), "0");
    assert_eq!(limit_text(255), "255");
}

#[test]
fn written_limit_reads_back() {
    for limit in [20u8, 55, 80, 100] {
        let mut raw = limit_text(limit);
        raw.push('\n');
        assert_eq!(parse_limit(&raw).unwrap(), limit);
    }
}

#[test]
fn parse_limit_follows_str_parse() {
    assert_eq!(parse_limit("100\n").unwrap(), 100);
    assert_eq!(parse_limit("  +80 \t").unwrap(), 80);
    assert_eq!(parse_limit("007").unwrap(), 7);
    for bad in ["", "\n", "-5", "256", "8 0", "eighty", "+"] {
        match parse_limit(bad) {
            Err(ControlError::UnexpectedSysfsValue(t)) => assert_eq!(t, bad.trim()),
            other => panic!("{bad:?} gave {other:?}"),
        }
    }
}

#[test]
fn read_failure_is_sysfs_read() {
    let err = std::io::Error::new(std::io::ErrorKind::NotFound, "gone");
    assert!(matches!(limit_from_read(Err(err)), Err(ControlError::SysfsRead(_))));
    assert_eq!(limit_from_read(Ok("60\n".to_string())).unwrap(), 60);
}

#[test]
fn threshold_discovery_takes_first_existing() {
    let candidates = vec![
        ("/sys/class/power_supply/AC0/charge_control_end_threshold".to_string(), false),
        ("/sys/class/power_supply/BAT1/charge_control_end_threshold".to_string(), true),
        ("/sys/class/power_supply/BAT2/charge_control_end_threshold".to_string(), true),
    ];
    assert_eq!(
        discover_threshold_path(candidates).as_deref(),
        Some("/sys/class/power_supply/BAT1/charge_control_end_threshold")
    );
    assert_eq!(discover_threshold_path(vec![("/x".to_string(), false)]), None);
    assert_eq!(discover_threshold_path(Vec::new()), None);
}
