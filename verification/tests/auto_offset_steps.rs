use toolchanger_utils::auto_offset::{
    AutoOffset, AutoOffsetLimits, AutoOffsetType, AxisReading, OffsetReading, Step,
};
use toolchanger_utils::ui_types::Axis;

fn axis(below_target: bool, below_resolution: bool, below_fine: bool) -> AxisReading {
    AxisReading {
        below_target,
        above_target: !below_target,
        below_resolution,
        above_resolution: !below_resolution,
        below_single_fine_step: below_fine,
        below_fine_step: below_fine,
    }
}

fn settled_reading() -> OffsetReading {
    OffsetReading { x: axis(true, false, true), y: axis(true, false, true) }
}

fn far_reading() -> OffsetReading {
    OffsetReading { x: axis(false, false, false), y: axis(false, false, true) }
}

fn limits(num_tools: usize, samples_per_tool: usize) -> AutoOffsetLimits {
    AutoOffsetLimits { num_tools, samples_per_tool, park_tool: true, has_camera_position: true }
}

#[test]
fn new_state_is_idle() {
    let a: AutoOffset<(i32, i32), u32> = AutoOffset::new((1, 2));
    assert_eq!(a.auto_offset_type(), AutoOffsetType::Idle);
    assert_eq!(a.current_tool, -1);
    assert_eq!(a.check_repeatability, 0);
    assert!(a.repeatability.is_empty());
    assert!(a.offsets.is_empty());
}

#[test]
fn idle_frames_do_nothing() {
    let mut a: AutoOffset<(), u32> = AutoOffset::new(());
    let acts = a.step(&far_reading(), Some(3), &limits(2, 2));
    assert!(acts.is_empty());
    assert_eq!(a.auto_offset_type(), AutoOffsetType::Idle);
}

#[test]
fn single_tool_moves_then_stops() {
    let mut a: AutoOffset<(), u32> = AutoOffset::new(());
    a.start_single((), 3);
    assert_eq!(a.auto_offset_type(), AutoOffsetType::SingleTool);
    assert_eq!(a.current_tool, 3);

    let acts = a.step_single(&far_reading());
    assert_eq!(
        acts,
        vec![
            Step::MoveAxis { axis: Axis::X, quarter: false },
            Step::MoveAxis { axis: Axis::Y, quarter: true },
            Step::MarkMoveTime,
        ]
    );
    assert_eq!(a.auto_offset_type(), AutoOffsetType::SingleTool);

    // X is close enough, Y below resolution: only the move time is recorded.
    let r = OffsetReading { x: axis(true, false, true), y: axis(false, true, true) };
    assert_eq!(a.step_single(&r), vec![Step::MarkMoveTime]);

    let acts = a.step_single(&settled_reading());
    assert!(acts.is_empty());
    assert_eq!(a.auto_offset_type(), AutoOffsetType::Idle);
}

#[test]
fn single_tool_stops_below_resolution() {
    let mut a: AutoOffset<(), u32> = AutoOffset::new(());
    a.start_single((), 0);
    let r = OffsetReading { x: axis(false, true, true), y: axis(false, true, true) };
    assert!(a.step_single(&r).is_empty());
    assert_eq!(a.auto_offset_type(), AutoOffsetType::Idle);
}

#[test]
fn begin_all_tools_zeroes_offsets_and_picks_first_tool() {
    let mut a: AutoOffset<(), u32> = AutoOffset::new(());
    assert_eq!(a.begin_all_tools(3), None);
    a.start_all_tools((), 3);
    assert_eq!(a.auto_offset_type(), AutoOffsetType::AllTools);
    assert_eq!(a.current_tool, -1);
    assert_eq!(a.offsets.len(), 3);
    let acts = a.begin_all_tools(3).unwrap();
    assert_eq!(
        acts,
        vec![
            Step::ZeroToolOffsets(0),
            Step::ZeroToolOffsets(1),
            Step::ZeroToolOffsets(2),
            Step::DropoffTool,
            Step::PickupTool(0),
        ]
    );
    assert_eq!(a.current_tool, 0);
    // Only a fresh run is prepared.
    assert_eq!(a.begin_all_tools(3), None);
}

#[test]
fn all_tools_run_collects_samples_tool_by_tool() {
    let mut a: AutoOffset<(), u32> = AutoOffset::new(());
    let lim = limits(2, 2);
    a.start_all_tools((), 2);
    a.begin_all_tools(2).unwrap();

    // A frame without a position is ignored.
    assert!(a.step(&settled_reading(), None, &lim).is_empty());

    // Not settled: approach.
    assert_eq!(
        a.step(&far_reading(), Some(99), &lim),
        vec![
            Step::MoveAxis { axis: Axis::X, quarter: false },
            Step::MoveAxis { axis: Axis::Y, quarter: true },
            Step::MarkMoveTime,
        ]
    );

    assert_eq!(
        a.step(&settled_reading(), Some(10), &lim),
        vec![Step::DropoffTool, Step::PickupTool(0), Step::ClearAverage, Step::HoldMoveTime]
    );
    assert_eq!(
        a.step(&settled_reading(), Some(11), &lim),
        vec![Step::PickupTool(1), Step::ClearAverage, Step::HoldMoveTime]
    );
    assert_eq!(a.current_tool, 1);
    assert_eq!(
        a.step(&settled_reading(), Some(20), &lim),
        vec![Step::DropoffTool, Step::PickupTool(1), Step::ClearAverage, Step::HoldMoveTime]
    );
    assert_eq!(a.step(&settled_reading(), Some(21), &lim), vec![Step::ProcessOffsets]);
    assert_eq!(a.auto_offset_type(), AutoOffsetType::Idle);
    assert_eq!(a.offsets, vec![vec![10, 11], vec![20, 21]]);
}

#[test]
fn repeatability_test_ends_after_eleven_settled_frames() {
    let mut a: AutoOffset<(), u32> = AutoOffset::new(());
    let lim = limits(1, 1);
    a.start_repeatability((), 2);
    assert_eq!(a.check_repeatability, 10);
    for i in 0..10u32 {
        let acts = a.step(&settled_reading(), Some(i), &lim);
        assert_eq!(
            acts,
            vec![Step::DropoffTool, Step::PickupTool(2), Step::ClearAverage, Step::HoldMoveTime]
        );
        assert_eq!(a.auto_offset_type(), AutoOffsetType::RepeatabilityTest);
    }
    assert_eq!(a.check_repeatability, 0);
    let acts = a.step(&settled_reading(), Some(10), &lim);
    assert_eq!(acts, vec![Step::ProcessRepeatability { homing: false }]);
    assert_eq!(a.auto_offset_type(), AutoOffsetType::Idle);
    assert_eq!(a.repeatability, (0..11u32).collect::<Vec<_>>());
}

#[test]
fn repeatability_keeps_unsettled_samples_and_parks_without_park_tool() {
    let mut a: AutoOffset<(), u32> = AutoOffset::new(());
    let lim = AutoOffsetLimits {
        num_tools: 1,
        samples_per_tool: 1,
        park_tool: false,
        has_camera_position: false,
    };
    a.start_repeatability((), 0);
    let acts = a.step(&far_reading(), Some(5), &lim);
    assert_eq!(acts.last(), Some(&Step::MarkMoveTime));
    assert_eq!(a.repeatability, vec![5]);
    assert!(a.step(&far_reading(), None, &lim).is_empty());
    let acts = a.step(&settled_reading(), Some(6), &lim);
    assert_eq!(
        acts,
        vec![Step::MoveToParking, Step::PickupTool(0), Step::ClearAverage, Step::HoldMoveTime]
    );
    assert_eq!(a.check_repeatability, 9);
}

#[test]
fn homing_test_homes_and_returns() {
    let mut a: AutoOffset<(), u32> = AutoOffset::new(());
    a.start_homing((), 1);
    assert_eq!(a.auto_offset_type(), AutoOffsetType::HomingTest);
    let acts = a.step(&settled_reading(), Some(1), &limits(1, 1));
    assert_eq!(
        acts,
        vec![Step::HomeXY, Step::MoveToCamera, Step::ClearAverage, Step::HoldMoveTime]
    );
    *a.repeatability_count_mut() = 0;
    let acts = a.step(&settled_reading(), Some(2), &limits(1, 1));
    assert_eq!(acts, vec![Step::ProcessRepeatability { homing: true }]);
    assert_eq!(a.auto_offset_type(), AutoOffsetType::Idle);
}

#[test]
fn homing_test_without_camera_position_stops() {
    let mut a: AutoOffset<(), u32> = AutoOffset::new(());
    a.start_homing((), 1);
    let lim = AutoOffsetLimits {
        num_tools: 1,
        samples_per_tool: 1,
        park_tool: true,
        has_camera_position: false,
    };
    assert!(a.step(&settled_reading(), Some(1), &lim).is_empty());
    assert_eq!(a.auto_offset_type(), AutoOffsetType::Idle);
    assert_eq!(a.check_repeatability, 9);
}

#[test]
fn stop_keeps_samples() {
    let mut a: AutoOffset<(), u32> = AutoOffset::new(());
    a.start_repeatability((), 0);
    a.step(&far_reading(), Some(7), &limits(1, 1));
    a.stop();
    assert_eq!(a.auto_offset_type(), AutoOffsetType::Idle);
    assert_eq!(a.repeatability, vec![7]);
}

#[test]
fn repeatability_file_names() {
    let mut a: AutoOffset<(), u32> = AutoOffset::new(());
    a.start_repeatability((), 2);
    assert_eq!(
        a.repeatability_file_name(false, "2024-01-02_03-04-05"),
        "data_output/repeatability_tool_2_data_2024-01-02_03-04-05.txt"
    );
    assert_eq!(
        a.repeatability_file_name(true, "x"),
        "data_output/repeatability_homing_tool_2_data_x.txt"
    );
    let b: AutoOffset<(), u32> = AutoOffset::new(());
    assert_eq!(
        b.repeatability_file_name(false, "s"),
        "data_output/repeatability_tool_-1_data_s.txt"
    );
}
