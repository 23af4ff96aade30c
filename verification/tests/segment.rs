use vsm_reader::segment::{error_text, VsmData, VsmType};

#[test]
fn attach_success_yields_open_handle() {
    let r = VsmData::new(
        VsmType::Default,
        0,
        None,
        "/var/lib/telemetry/default".to_string(),
    );
    let d = r.unwrap();
    assert!(d.is_open());
    assert!(!d.is_abandoned());
    assert_eq!(d.name(), "/var/lib/telemetry/default");
    assert_eq!(d.error(), "No error");
}

#[test]
fn attach_failure_reports_provider_message() {
    let r = VsmData::new(
        VsmType::Active("web1".to_string()),
        -1,
        Some("cannot attach to web1".to_string()),
        String::new(),
    );
    assert_eq!(r.unwrap_err(), "cannot attach to web1");
}

#[test]
fn attach_failure_without_message_reports_fixed_phrase() {
    let r = VsmData::new(VsmType::Stale("/tmp/old".to_string()), 2, None, String::new());
    assert_eq!(r.unwrap_err(), "No error");
}

#[test]
fn error_text_picks_message_or_fixed_phrase() {
    assert_eq!(error_text(Some("boom".to_string())), "boom");
    assert_eq!(error_text(None), "No error");
}

#[test]
fn set_and_reset_error_round_trip() {
    let mut d = VsmData::new(VsmType::Default, 0, None, "seg".to_string()).unwrap();
    d.set_error("stale read".to_string());
    assert_eq!(d.error(), "stale read");
    d.reset_error();
    assert_eq!(d.error(), "No error");
}

#[test]
fn close_makes_handle_not_open() {
    let mut d = VsmData::new(VsmType::Default, 0, None, "seg".to_string()).unwrap();
    assert!(d.is_open());
    d.close();
    assert!(!d.is_open());
    d.close();
    assert!(!d.is_open());
}

#[test]
fn abandonment_is_recorded_as_reported() {
    let mut d = VsmData::new(VsmType::Default, 0, None, "seg".to_string()).unwrap();
    assert!(!d.is_abandoned());
    d.set_abandoned(true);
    assert!(d.is_abandoned());
}

#[test]
fn release_tears_down_once_and_closes() {
    let mut d = VsmData::new(VsmType::Default, 0, None, "seg".to_string()).unwrap();
    d.release();
    assert!(!d.is_open());
}
