use toolchanger_utils::klipper_status::{
    parse_homed_axes, read_status_report, StatusFlags, StatusReport, UnknownHomedAxes,
};

fn report() -> StatusReport {
    StatusReport {
        stepper_x: None,
        stepper_y: None,
        stepper_z: None,
        homed_axes: None,
        absolute_coordinates: None,
    }
}

#[test]
fn homed_axes_names() {
    assert_eq!(parse_homed_axes(""), Some((false, false, false)));
    assert_eq!(parse_homed_axes("xy"), Some((true, true, false)));
    assert_eq!(parse_homed_axes("xyz"), Some((true, true, true)));
    assert_eq!(parse_homed_axes("x"), None);
    assert_eq!(parse_homed_axes("yx"), None);
    assert_eq!(parse_homed_axes("xyzz"), None);
}

#[test]
fn default_flags() {
    let f = StatusFlags::default();
    assert!(f.absolute_coordinates);
    assert_eq!(f.homed_axes, (false, false, false));
    assert_eq!(f.motors_enabled, (false, false, false));
}

#[test]
fn apply_updates_motors_and_announces_homing_changes() {
    let mut f = StatusFlags::default();
    let r = StatusReport {
        stepper_x: Some(true),
        stepper_z: Some(true),
        homed_axes: Some("xy".to_string()),
        absolute_coordinates: Some(false),
        ..report()
    };
    assert_eq!(f.apply(&r), Ok(Some((true, true, false))));
    assert_eq!(f.motors_enabled, (true, false, true));
    assert_eq!(f.homed_axes, (true, true, false));
    assert!(!f.absolute_coordinates);
    // The same homing state again is not announced.
    assert_eq!(f.apply(&r), Ok(None));
    // An empty report changes nothing.
    let before = f;
    assert_eq!(f.apply(&report()), Ok(None));
    assert_eq!(f, before);
}

#[test]
fn apply_stops_at_unknown_homed_axes() {
    let mut f = StatusFlags::default();
    let r = StatusReport {
        stepper_y: Some(true),
        homed_axes: Some("z".to_string()),
        absolute_coordinates: Some(false),
        ..report()
    };
    assert_eq!(f.apply(&r), Err(UnknownHomedAxes { name: "z".to_string() }));
    // The motors were updated first; the rest was not.
    assert_eq!(f.motors_enabled, (false, true, false));
    assert_eq!(f.homed_axes, (false, false, false));
    assert!(f.absolute_coordinates);
}

#[test]
fn reads_status_messages() {
    let msg: serde_json::Value = serde_json::from_str(
        r#"{"method":"notify_status_update","params":[{
            "stepper_enable":{"steppers":{"stepper_x":true,"stepper_y":false}},
            "toolhead":{"homed_axes":"xyz"}
        }, 12.5]}"#,
    )
    .unwrap();
    let r = read_status_report(&msg);
    assert_eq!(r.stepper_x, Some(true));
    assert_eq!(r.stepper_y, Some(false));
    assert_eq!(r.stepper_z, None);
    assert_eq!(r.homed_axes, Some("xyz".to_string()));
    assert_eq!(r.absolute_coordinates, None);

    let mut f = StatusFlags::default();
    assert_eq!(f.update(&msg), Ok(Some((true, true, true))));
    assert_eq!(f.motors_enabled, (true, false, false));
    assert_eq!(f.homed_axes, (true, true, true));
}

#[test]
fn reads_query_results() {
    let msg: serde_json::Value = serde_json::from_str(
        r#"{"jsonrpc":"2.0","id":3,"result":{"status":{
            "stepper_enable":{"steppers":{"stepper_z":true}}}}}"#,
    )
    .unwrap();
    let r = read_status_report(&msg);
    assert_eq!(r.stepper_z, Some(true));
    assert_eq!(r.stepper_x, None);
    assert_eq!(r.homed_axes, None);
    let mut f = StatusFlags::default();
    assert_eq!(f.update(&msg), Ok(None));
    assert_eq!(f.motors_enabled, (false, false, true));
}

#[test]
fn update_reports_unknown_homed_axes() {
    let msg: serde_json::Value =
        serde_json::from_str(r#"{"params":[{"toolhead":{"homed_axes":"x"}}]}"#).unwrap();
    let mut f = StatusFlags::default();
    assert_eq!(f.update(&msg), Err(UnknownHomedAxes { name: "x".to_string() }));
}

#[test]
fn repeated_report_changes_nothing() {
    let r = StatusReport {
        stepper_x: Some(true),
        stepper_y: Some(true),
        stepper_z: Some(false),
        homed_axes: Some("xyz".to_string()),
        absolute_coordinates: Some(false),
    };
    let mut f = StatusFlags::default();
    assert_eq!(f.apply(&r), Ok(Some((true, true, true))));
    let after_first = f;
    assert_eq!(f.apply(&r), Ok(None));
    assert_eq!(f, after_first);
}
