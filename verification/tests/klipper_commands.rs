use toolchanger_utils::klipper::{
    absolute_script, adjust_offset_gcode, disable_motors_gcode, dropoff_tool_gcode, dwell_gcode,
    home_all_gcode, home_xy_gcode, move_xy_gcode, move_z_gcode, pick_tool_gcode, planar_axis,
    relative_move_gcode, save_variable_gcode, set_absolute_gcode, set_relative_gcode, tool_number,
    tool_offset_variable, wait_for_moves_gcode, KlipperError, PositionCache, RequestIds,
};
use toolchanger_utils::ui_types::Axis;

#[test]
fn fixed_gcode_commands() {
    assert_eq!(home_all_gcode(), "G28");
    assert_eq!(home_xy_gcode(), "G28 X Y");
    assert_eq!(dropoff_tool_gcode(), "T_1");
    assert_eq!(disable_motors_gcode(), "M18");
    assert_eq!(wait_for_moves_gcode(), "M400");
    assert_eq!(set_relative_gcode(), "G91");
    assert_eq!(set_absolute_gcode(), "G90");
}

#[test]
fn numbered_gcode_commands() {
    assert_eq!(pick_tool_gcode(0), "T0");
    assert_eq!(pick_tool_gcode(12), "T12");
    assert_eq!(dwell_gcode(250), "G4 P250");
    assert_eq!(dwell_gcode(0), "G4 P0");
}

#[test]
fn move_commands() {
    assert_eq!(move_z_gcode("12.5"), "G1 Z12.5");
    assert_eq!(move_xy_gcode("1.000", "-2.5"), "G1 X1.000 Y-2.5");
    assert_eq!(absolute_script("G1 Z3"), "G90\nG1 Z3");
    assert_eq!(relative_move_gcode(Axis::X, "0.1"), "_CLIENT_LINEAR_MOVE X=0.1");
    assert_eq!(relative_move_gcode(Axis::Y, "-1"), "_CLIENT_LINEAR_MOVE Y=-1");
    assert_eq!(relative_move_gcode(Axis::Z, "2"), "_CLIENT_LINEAR_MOVE Z=2 F=500");
}

#[test]
fn planar_axes_only() {
    assert_eq!(planar_axis(Axis::X), Ok(Axis::X));
    assert_eq!(planar_axis(Axis::Y), Ok(Axis::Y));
    assert_eq!(planar_axis(Axis::Z), Err(KlipperError::InvalidAxis));
}

#[test]
fn adjust_offset_commands() {
    assert_eq!(
        adjust_offset_gcode(1, 0, "0.0125").unwrap(),
        "TC_ADJUST_OFFSET TOOL=1 AXIS=X AMOUNT=0.0125"
    );
    assert_eq!(
        adjust_offset_gcode(3, 1, "-0.5").unwrap(),
        "TC_ADJUST_OFFSET TOOL=3 AXIS=Y AMOUNT=-0.5"
    );
    assert_eq!(adjust_offset_gcode(3, 2, "1"), Err(KlipperError::InvalidAxis));
    assert_eq!(adjust_offset_gcode(3, 99, "1"), Err(KlipperError::InvalidAxis));
}

#[test]
fn offset_variable_names() {
    assert_eq!(tool_offset_variable(0, Axis::X), "t0_x_offset");
    assert_eq!(tool_offset_variable(4, Axis::Y), "t4_y_offset");
    assert_eq!(tool_offset_variable(10, Axis::Z), "t10_z_offset");
}

#[test]
fn save_variable_command() {
    assert_eq!(
        save_variable_gcode("t1_x_offset", "0.125"),
        "SAVE_VARIABLE VARIABLE=t1_x_offset VALUE=0.125"
    );
}

#[test]
fn tool_numbers() {
    assert_eq!(tool_number(-1), None);
    assert_eq!(tool_number(0), Some(0));
    assert_eq!(tool_number(7), Some(7));
}

#[test]
fn request_ids_count_from_one() {
    let mut ids = RequestIds::new();
    assert_eq!(ids.peek_id(), 1);
    let a = ids.get_id();
    let b = ids.get_id();
    let c = ids.get_id();
    assert_eq!((a, b, c), (1, 2, 3));
    assert_eq!(ids.peek_id(), 4);
}

#[test]
fn position_cache_goes_stale_after_commands() {
    let mut c: PositionCache<(i32, i32)> = PositionCache::new();
    assert_eq!(c.cached(), None);
    c.record_fresh((1, 2));
    assert_eq!(c.cached(), Some(Some((1, 2))));
    c.record_position((3, 4));
    assert_eq!(c.cached(), Some(Some((3, 4))));
    c.mark_stale();
    assert_eq!(c.cached(), None);
    assert_eq!(c.position, Some((3, 4)));
    c.record_position((5, 6));
    assert_eq!(c.cached(), None);
}
