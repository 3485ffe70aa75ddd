use controlcenter::gui::battery::{self, FALLBACK_CHARGE_LIMIT};
use controlcenter::gui::platform_profile::{self, Profile};
use controlcenter::gui::updates::{self, parse_preview, PreviewStatus};
use controlcenter::gui::State;

#[test]
fn battery_panel_reflects_applied_limit() {
    let mut state = battery::State::new(None);
    assert_eq!(state.charge_limit, FALLBACK_CHARGE_LIMIT);
    assert_eq!(state.charge_limit, 100);
    let mut state2 = battery::State::new(Some(60));
    assert_eq!(state2.charge_limit, 60);
    state.charge_limit = 80;
    state.apply_finished(Ok(60));
    assert_eq!(state.charge_limit, 60);
    assert!(matches!(state.apply_status, battery::ApplyStatus::Success(60)));
    state2.apply_finished(Err("Access denied".to_string()));
    assert_eq!(state2.charge_limit, 60);
    assert!(matches!(state2.apply_status, battery::ApplyStatus::Error(ref m) if m == "Access denied"));
}

#[test]
fn profile_names() {
    for p in [Profile::Quiet, Profile::Balanced, Profile::Performance] {
        assert_eq!(Profile::from_damon_str(p.to_daemon_str()), Some(p));
    }
    assert_eq!(Profile::Quiet.label(), "Quiet");
    assert_eq!(Profile::Performance.to_daemon_str(), "performance");
    assert_eq!(Profile::from_damon_str("Quiet"), None);
    assert_eq!(Profile::from_damon_str("balanced\n"), None);
}

#[test]
fn profile_panel_apply() {
    let mut state = platform_profile::State::new(Some("quiet".to_string()));
    assert_eq!(state.selected, Profile::Quiet);
    assert_eq!(platform_profile::State::new(Some("low-power".to_string())).selected, Profile::Balanced);
    assert_eq!(platform_profile::State::new(None).selected, Profile::Balanced);
    state.select(Profile::Performance);
    state.apply_finished(Ok("balanced".to_string()));
    assert_eq!(state.selected, Profile::Balanced);
    assert!(matches!(state.apply_status, platform_profile::ApplyStatus::Success(Profile::Balanced)));
    state.apply_finished(Ok("turbo\"x".to_string()));
    assert_eq!(state.selected, Profile::Balanced);
    match &state.apply_status {
        platform_profile::ApplyStatus::Error(m) => {
            assert_eq!(m, "daemon returned unrecognized profile \"turbo\\\"x\"")
        }
        other => panic!("unexpected {other:?}"),
    }
}

#[test]
fn section_opens_from_daemon_values() {
    let section = State::new(Some(70), Some("performance".to_string()));
    assert_eq!(section.battery.charge_limit, 70);
    assert_eq!(section.platform_profile.selected, Profile::Performance);
}

#[test]
fn preview_parsing() {
    assert!(matches!(parse_preview(""), PreviewStatus::UpToDate));
    assert!(matches!(parse_preview("Listing... Done\n"), PreviewStatus::UpToDate));
    assert!(matches!(parse_preview("\n"), PreviewStatus::UpToDate));
    assert!(matches!(parse_preview(" \r\n\t\n"), PreviewStatus::UpToDate));
    assert!(matches!(parse_preview("Listing...\n\n \n"), PreviewStatus::UpToDate));
    match parse_preview("\nvim/noble 2 amd64\n   \n") {
        PreviewStatus::Available(s) => assert_eq!(s, "\nvim/noble 2 amd64\n   "),
        other => panic!("unexpected {other:?}"),
    }
    match parse_preview("a\n\nb") {
        PreviewStatus::Available(s) => assert_eq!(s, "a\n\nb"),
        other => panic!("unexpected {other:?}"),
    }
    match parse_preview("Listing...\nvim/noble 2 amd64\ncurl/noble 8 amd64\n") {
        PreviewStatus::Available(s) => assert_eq!(s, "vim/noble 2 amd64\ncurl/noble 8 amd64"),
        other => panic!("unexpected {other:?}"),
    }
}

#[test]
fn update_needs_confirmation() {
    let mut state = updates::State::new();
    // Nothing to offer yet: "Update now" does nothing.
    state.request_update();
    assert!(!state.show_confirm);
    assert!(!state.confirm_update());
    assert!(!state.applying());

    state.check_finished(Ok("Listing...\nvim/noble 2 amd64\n".to_string()));
    assert!(state.offers_update());
    state.request_update();
    assert!(state.show_confirm);
    state.cancel_update();
    assert!(!state.show_confirm);
    assert!(!state.applying());

    state.request_update();
    assert!(state.confirm_update());
    assert!(state.applying());
    assert!(!state.show_confirm);
    assert!(matches!(state.preview, PreviewStatus::Idle));
    // While running, checking changes nothing.
    state.check_finished(Err("x".to_string()));
    assert!(matches!(state.preview, PreviewStatus::Idle));
    state.apply_finished(Ok(()));
    assert!(matches!(state.apply, updates::ApplyStatus::Success));
    assert!(!state.applying());

    state.check_finished(Err("no bus".to_string()));
    assert!(matches!(state.preview, PreviewStatus::Error(ref m) if m == "no bus"));
    state.check_finished(Ok("Listing...\n".to_string()));
    assert!(matches!(state.preview, PreviewStatus::UpToDate));
}
