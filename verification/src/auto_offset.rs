//! The automatic nozzle-offset procedures.
//!
//! Each frame the camera reports where the nozzle sits relative to the image
//! centre. The application turns that offset into an [`OffsetReading`]: for each
//! axis, how the offset compares with the target accuracy, the printer's step
//! resolution and the fine-tuning step. The procedures below decide from those
//! readings what the printer does next, and return the decisions as [`Step`]s
//! for the application to carry out.
use vstd::prelude::*;

use crate::decimal::{push_signed_decimal, signed_decimal};
use crate::ui_types::Axis;
use vstd::string::*;

verus! {

/// The procedure that is running, if any.
#[derive(Clone, Copy, Debug, PartialEq, Eq, Structural)]
pub enum AutoOffsetType {
    Idle,
    SingleTool,
    AllTools,
    RepeatabilityTest,
    HomingTest,
}

/// How the offset along one axis compares with the procedure's thresholds.
#[derive(Clone, Copy, Debug, PartialEq, Eq, Structural)]
pub struct AxisReading {
    /// The offset's magnitude is below the target accuracy.
    pub below_target: bool,
    /// The offset's magnitude is above the target accuracy.
    pub above_target: bool,
    /// The offset's magnitude is below the printer's step resolution.
    pub below_resolution: bool,
    /// The offset's magnitude is above the printer's step resolution.
    pub above_resolution: bool,
    /// The offset's magnitude is below the fine-tuning step of the single-tool procedure.
    pub below_single_fine_step: bool,
    /// The offset's magnitude is below the fine-tuning step of the other procedures.
    pub below_fine_step: bool,
}

/// The readings of both axes for one frame.
#[derive(Clone, Copy, Debug, PartialEq, Eq, Structural)]
pub struct OffsetReading {
    pub x: AxisReading,
    pub y: AxisReading,
}

/// One thing for the application to do.
#[derive(Clone, Copy, Debug, PartialEq, Eq, Structural)]
pub enum Step {
    /// Move the axis by the measured offset, or by a quarter of it when `quarter` holds.
    MoveAxis { axis: Axis, quarter: bool },
    /// Record that a move was just made.
    MarkMoveTime,
    /// Record a move one second in the future, so the next move waits longer.
    HoldMoveTime,
    /// Put the active tool down.
    DropoffTool,
    /// Pick up a tool and bring it over the camera.
    PickupTool(i32),
    /// Forget the frames averaged so far.
    ClearAverage,
    /// Set both planar offsets of a tool to zero.
    ZeroToolOffsets(usize),
    /// Compute and apply the tool offsets from the collected samples.
    ProcessOffsets,
    /// Report the repeatability samples.
    ProcessRepeatability { homing: bool },
    /// Move the tool to the parking position.
    MoveToParking,
    /// Home the X and Y axes.
    HomeXY,
    /// Move back over the camera.
    MoveToCamera,
}

/// The settings that the procedures consult.
#[derive(Clone, Copy, Debug, PartialEq, Eq, Structural)]
pub struct AutoOffsetLimits {
    pub num_tools: usize,
    pub samples_per_tool: usize,
    pub park_tool: bool,
    pub has_camera_position: bool,
}

/// The state of the automatic offset procedures.
///
/// `P` is what a position is, `S` what one sample is (a position and the offset
/// measured there).
#[derive(Debug)]
pub struct AutoOffset<P, S> {
    pub auto_offset_type: AutoOffsetType,
    pub prev_position: P,
    pub current_tool: i32,
    pub check_repeatability: usize,
    pub current_n: usize,
    /// Samples of the repeatability and homing tests.
    pub repeatability: Vec<S>,
    /// Samples of the all-tools procedure, one list per tool.
    pub offsets: Vec<Vec<S>>,
}

/// The part of the state that the procedures change, as mathematical values.
pub ghost struct AutoOffsetModel<S> {
    pub kind: AutoOffsetType,
    pub current_tool: int,
    pub check: nat,
    pub repeatability: Seq<S>,
    pub offsets: Seq<Seq<S>>,
}

/// Both axes lie within the target accuracy.
pub open spec fn centered(r: OffsetReading) -> bool {
    r.x.below_target && r.y.below_target
}

/// Both axes lie below the printer's resolution, so no move can help.
pub open spec fn unmovable(r: OffsetReading) -> bool {
    r.x.below_resolution && r.y.below_resolution
}

/// The nozzle is as close to the centre as the procedure can bring it.
pub open spec fn settled(r: OffsetReading) -> bool {
    centered(r) || unmovable(r)
}

/// The move of one axis towards the centre, if that axis needs one.
pub open spec fn axis_move(axis: Axis, a: AxisReading, single: bool) -> Seq<Step> {
    if a.above_target && a.above_resolution {
        seq![
            Step::MoveAxis {
                axis,
                quarter: if single {
                    a.below_single_fine_step
                } else {
                    a.below_fine_step
                },
            },
        ]
    } else {
        seq![]
    }
}

/// The moves towards the centre, then the move time is recorded.
pub open spec fn approach_steps(r: OffsetReading, single: bool) -> Seq<Step> {
    axis_move(Axis::X, r.x, single) + axis_move(Axis::Y, r.y, single) + seq![Step::MarkMoveTime]
}

/// The single-tool procedure: stop once settled, else move towards the centre.
pub open spec fn single_next<S>(m: AutoOffsetModel<S>, r: OffsetReading) -> (
    AutoOffsetModel<S>,
    Seq<Step>,
) {
    if settled(r) {
        (AutoOffsetModel { kind: AutoOffsetType::Idle, ..m }, seq![])
    } else {
        (m, approach_steps(r, true))
    }
}

/// The all-tools procedure. Once settled the sample is stored for the current
/// tool; when the tool has enough samples the next tool is picked up, or, after
/// the last tool, the offsets are processed and the procedure ends. Otherwise
/// the tool is parked and picked up again for another sample.
pub open spec fn all_tools_next<S>(
    m: AutoOffsetModel<S>,
    r: OffsetReading,
    sample: Option<S>,
    num_tools: nat,
    samples_per_tool: nat,
) -> (AutoOffsetModel<S>, Seq<Step>) {
    if settled(r) {
        match sample {
            None => (m, seq![]),
            Some(s) => {
                let t = m.current_tool;
                let offsets = m.offsets.update(t, m.offsets[t].push(s));
                let m1 = AutoOffsetModel { offsets, ..m };
                if offsets[t].len() >= samples_per_tool {
                    if t == num_tools - 1 {
                        (AutoOffsetModel { kind: AutoOffsetType::Idle, ..m1 }, seq![Step::ProcessOffsets])
                    } else {
                        (
                            AutoOffsetModel { current_tool: t + 1, ..m1 },
                            seq![
                                Step::PickupTool((t + 1) as i32),
                                Step::ClearAverage,
                                Step::HoldMoveTime,
                            ],
                        )
                    }
                } else {
                    (
                        m1,
                        seq![
                            Step::DropoffTool,
                            Step::PickupTool(t as i32),
                            Step::ClearAverage,
                            Step::HoldMoveTime,
                        ],
                    )
                }
            },
        }
    } else {
        (m, approach_steps(r, false))
    }
}

/// The repeatability and homing tests. Every frame with a known position is
/// stored. Once settled, the test ends if no repetitions are left, else one
/// repetition is used up and the nozzle is taken away and brought back: by
/// parking (or moving to the parking spot) and picking the tool up again, or by
/// homing and returning over the camera.
pub open spec fn repeatability_next<S>(
    m: AutoOffsetModel<S>,
    r: OffsetReading,
    sample: Option<S>,
    park_tool: bool,
    has_camera_position: bool,
) -> (AutoOffsetModel<S>, Seq<Step>) {
    match sample {
        None => (m, seq![]),
        Some(s) => {
            let m1 = AutoOffsetModel { repeatability: m.repeatability.push(s), ..m };
            if settled(r) {
                if m.check == 0 {
                    (
                        AutoOffsetModel { kind: AutoOffsetType::Idle, ..m1 },
                        seq![
                            Step::ProcessRepeatability {
                                homing: m.kind == AutoOffsetType::HomingTest,
                            },
                        ],
                    )
                } else {
                    let m2 = AutoOffsetModel { check: (m.check - 1) as nat, ..m1 };
                    if m.kind == AutoOffsetType::RepeatabilityTest {
                        (
                            m2,
                            seq![
                                if park_tool {
                                    Step::DropoffTool
                                } else {
                                    Step::MoveToParking
                                },
                                Step::PickupTool(m.current_tool as i32),
                                Step::ClearAverage,
                                Step::HoldMoveTime,
                            ],
                        )
                    } else if has_camera_position {
                        (
                            m2,
                            seq![
                                Step::HomeXY,
                                Step::MoveToCamera,
                                Step::ClearAverage,
                                Step::HoldMoveTime,
                            ],
                        )
                    } else {
                        (AutoOffsetModel { kind: AutoOffsetType::Idle, ..m2 }, seq![])
                    }
                }
            } else {
                (m1, approach_steps(r, false))
            }
        },
    }
}

/// The file that repeatability samples go to:
/// "data_output/repeatability_tool_<tool>_data_<stamp>.txt", with "homing_"
/// before "tool" for the homing test.
pub open spec fn repeatability_path(homing: bool, tool: int, stamp: Seq<char>) -> Seq<char> {
    (if homing {
        seq![
            'd', 'a', 't', 'a', '_', 'o', 'u', 't', 'p', 'u', 't', '/', 'r', 'e', 'p', 'e', 'a', 't', 'a', 'b',
            'i', 'l', 'i', 't', 'y', '_', 'h', 'o', 'm', 'i', 'n', 'g', '_', 't', 'o', 'o', 'l', '_',
        ]
    } else {
        seq![
            'd', 'a', 't', 'a', '_', 'o', 'u', 't', 'p', 'u', 't', '/', 'r', 'e', 'p', 'e', 'a', 't', 'a', 'b',
            'i', 'l', 'i', 't', 'y', '_', 't', 'o', 'o', 'l', '_',
        ]
    }) + signed_decimal(tool) + seq!['_', 'd', 'a', 't', 'a', '_'] + stamp + seq!['.', 't', 'x', 't']
}

/// The steps that reset every tool's offsets.
pub open spec fn zero_offset_steps(num_tools: nat) -> Seq<Step> {
    Seq::new(num_tools, |i: int| Step::ZeroToolOffsets(i as usize))
}

/// What a frame does in whichever procedure is running.
pub open spec fn step_next<S>(
    m: AutoOffsetModel<S>,
    r: OffsetReading,
    sample: Option<S>,
    limits: AutoOffsetLimits,
) -> (AutoOffsetModel<S>, Seq<Step>) {
    match m.kind {
        AutoOffsetType::Idle => (m, seq![]),
        AutoOffsetType::SingleTool => single_next(m, r),
        AutoOffsetType::AllTools => all_tools_next(
            m,
            r,
            sample,
            limits.num_tools as nat,
            limits.samples_per_tool as nat,
        ),
        _ => repeatability_next(m, r, sample, limits.park_tool, limits.has_camera_position),
    }
}

/// The moves towards the centre for one axis.
fn push_axis_move(acts: &mut Vec<Step>, axis: Axis, a: &AxisReading, single: bool)
    ensures
        final(acts)@ == old(acts)@ + axis_move(axis, *a, single),
{
    if a.above_target && a.above_resolution {
        let quarter = if single {
            a.below_single_fine_step
        } else {
            a.below_fine_step
        };
        acts.push(Step::MoveAxis { axis, quarter });
    }
    proof {
        assert(final(acts)@ =~= old(acts)@ + axis_move(axis, *a, single));
    }
}

/// The moves towards the centre for both axes, then the move time is recorded.
fn approach(r: &OffsetReading, single: bool) -> (acts: Vec<Step>)
    ensures
        acts@ == approach_steps(*r, single),
{
    let mut acts: Vec<Step> = Vec::new();
    push_axis_move(&mut acts, Axis::X, &r.x, single);
    push_axis_move(&mut acts, Axis::Y, &r.y, single);
    acts.push(Step::MarkMoveTime);
    proof {
        assert(acts@ =~= approach_steps(*r, single));
    }
    acts
}

/// Whether the reading is settled.
fn is_settled(r: &OffsetReading) -> (b: bool)
    ensures
        b == settled(*r),
{
    (r.x.below_target && r.y.below_target) || (r.x.below_resolution && r.y.below_resolution)
}

impl<P, S> AutoOffset<P, S> {
    /// The mathematical state that the procedures change.
    pub open spec fn model(&self) -> AutoOffsetModel<S> {
        AutoOffsetModel {
            kind: self.auto_offset_type,
            current_tool: self.current_tool as int,
            check: self.check_repeatability as nat,
            repeatability: self.repeatability@,
            offsets: self.offsets@.map_values(|v: Vec<S>| v@),
        }
    }

    /// No procedure running, at the given position.
    pub fn new(prev_position: P) -> (a: Self)
        ensures
            a.auto_offset_type == AutoOffsetType::Idle,
            a.prev_position == prev_position,
            a.current_tool == -1,
            a.check_repeatability == 0,
            a.current_n == 0,
            a.repeatability@.len() == 0,
            a.offsets@.len() == 0,
    {
        AutoOffset {
            auto_offset_type: AutoOffsetType::Idle,
            prev_position,
            current_tool: -1,
            check_repeatability: 0,
            current_n: 0,
            repeatability: Vec::new(),
            offsets: Vec::new(),
        }
    }

    /// The procedure that is running.
    pub fn auto_offset_type(&self) -> (t: AutoOffsetType)
        ensures
            t == self.auto_offset_type,
    {
        self.auto_offset_type
    }

    /// Ends the running procedure; the collected samples stay.
    pub fn stop(&mut self)
        ensures
            final(self).auto_offset_type == AutoOffsetType::Idle,
            final(self).prev_position == old(self).prev_position,
            final(self).current_tool == old(self).current_tool,
            final(self).check_repeatability == old(self).check_repeatability,
            final(self).current_n == old(self).current_n,
            final(self).repeatability@ == old(self).repeatability@,
            final(self).offsets@ == old(self).offsets@,
    {
        self.auto_offset_type = AutoOffsetType::Idle;
    }

    /// Starts centring the given tool.
    pub fn start_single(&mut self, pos: P, tool: i32)
        ensures
            final(self).auto_offset_type == AutoOffsetType::SingleTool,
            final(self).prev_position == pos,
            final(self).current_tool == tool,
            final(self).check_repeatability == 0,
            final(self).current_n == 0,
            final(self).repeatability@.len() == 0,
            final(self).offsets@.len() == 0,
    {
        *self = AutoOffset::new(pos);
        self.auto_offset_type = AutoOffsetType::SingleTool;
        self.current_tool = tool;
    }

    /// Starts measuring every tool, with an empty sample list for each.
    pub fn start_all_tools(&mut self, pos: P, num_tools: usize)
        ensures
            final(self).auto_offset_type == AutoOffsetType::AllTools,
            final(self).prev_position == pos,
            final(self).current_tool == -1,
            final(self).check_repeatability == 0,
            final(self).current_n == 0,
            final(self).repeatability@.len() == 0,
            final(self).model().offsets == Seq::new(num_tools as nat, |i: int| Seq::<S>::empty()),
    {
        *self = AutoOffset::new(pos);
        self.auto_offset_type = AutoOffsetType::AllTools;
        self.current_tool = -1;
        let mut offsets: Vec<Vec<S>> = Vec::new();
        let mut i: usize = 0;
        while i < num_tools
            invariant
                i <= num_tools,
                offsets@.len() == i,
                forall|j: int| 0 <= j < i ==> (#[trigger] offsets@[j])@.len() == 0,
            decreases num_tools - i,
        {
            offsets.push(Vec::new());
            i = i + 1;
        }
        self.offsets = offsets;
        proof {
            assert forall|j: int| 0 <= j < num_tools implies self.model().offsets[j]
                =~= Seq::<S>::empty() by {
                assert(self.offsets@[j]@.len() == 0);
            }
            assert(self.model().offsets =~= Seq::new(num_tools as nat, |i: int| Seq::<S>::empty()));
        }
    }

    /// Starts the repeatability test for the given tool, with ten repetitions.
    pub fn start_repeatability(&mut self, pos: P, tool: i32)
        ensures
            final(self).auto_offset_type == AutoOffsetType::RepeatabilityTest,
            final(self).prev_position == pos,
            final(self).current_tool == tool,
            final(self).check_repeatability == 10,
            final(self).current_n == 0,
            final(self).repeatability@.len() == 0,
            final(self).offsets@.len() == 0,
    {
        *self = AutoOffset::new(pos);
        self.auto_offset_type = AutoOffsetType::RepeatabilityTest;
        self.current_tool = tool;
        self.check_repeatability = 10;
    }

    /// Starts the homing test for the given tool, with ten repetitions.
    pub fn start_homing(&mut self, pos: P, tool: i32)
        ensures
            final(self).auto_offset_type == AutoOffsetType::HomingTest,
            final(self).prev_position == pos,
            final(self).current_tool == tool,
            final(self).check_repeatability == 10,
            final(self).current_n == 0,
            final(self).repeatability@.len() == 0,
            final(self).offsets@.len() == 0,
    {
        *self = AutoOffset::new(pos);
        self.auto_offset_type = AutoOffsetType::HomingTest;
        self.current_tool = tool;
        self.check_repeatability = 10;
    }

    /// Prepares a fresh all-tools run: every tool's offsets are set to zero, the
    /// active tool is put down and tool 0 is picked up. Returns `None`, and
    /// changes nothing, unless an all-tools run has just been started.
    pub fn begin_all_tools(&mut self, num_tools: usize) -> (acts: Option<Vec<Step>>)
        ensures
            old(self).auto_offset_type == AutoOffsetType::AllTools && old(self).current_tool == -1
                ==> {
                &&& acts is Some
                &&& acts->0@ == zero_offset_steps(num_tools as nat) + seq![
                    Step::DropoffTool,
                    Step::PickupTool(0),
                ]
                &&& final(self).model() == AutoOffsetModel { current_tool: 0, ..old(self).model() }
            },
            !(old(self).auto_offset_type == AutoOffsetType::AllTools && old(self).current_tool
                == -1) ==> acts is None && final(self).model() == old(self).model(),
            final(self).prev_position == old(self).prev_position,
            final(self).current_n == old(self).current_n,
    {
        if self.auto_offset_type == AutoOffsetType::AllTools && self.current_tool == -1 {
            let mut acts: Vec<Step> = Vec::new();
            let mut tool: usize = 0;
            while tool < num_tools
                invariant
                    tool <= num_tools,
                    acts@ == zero_offset_steps(tool as nat),
                decreases num_tools - tool,
            {
                acts.push(Step::ZeroToolOffsets(tool));
                tool = tool + 1;
                proof {
                    assert(acts@ =~= zero_offset_steps(tool as nat));
                }
            }
            acts.push(Step::DropoffTool);
            acts.push(Step::PickupTool(0));
            self.current_tool = 0;
            proof {
                assert(acts@ =~= zero_offset_steps(num_tools as nat) + seq![
                    Step::DropoffTool,
                    Step::PickupTool(0),
                ]);
            }
            Some(acts)
        } else {
            None
        }
    }

    /// One frame of the single-tool procedure.
    pub fn step_single(&mut self, r: &OffsetReading) -> (acts: Vec<Step>)
        ensures
            (final(self).model(), acts@) == single_next(old(self).model(), *r),
            final(self).prev_position == old(self).prev_position,
            final(self).current_n == old(self).current_n,
    {
        if is_settled(r) {
            self.stop();
            Vec::new()
        } else {
            approach(r, true)
        }
    }

    /// One frame of the all-tools procedure, with the current sample if the
    /// printer's position is known.
    pub fn step_all_tools(
        &mut self,
        r: &OffsetReading,
        sample: Option<S>,
        num_tools: usize,
        samples_per_tool: usize,
    ) -> (acts: Vec<Step>)
        requires
            0 <= old(self).current_tool < old(self).offsets@.len(),
            old(self).current_tool < i32::MAX,
            num_tools <= i32::MAX,
        ensures
            (final(self).model(), acts@) == all_tools_next(
                old(self).model(),
                *r,
                sample,
                num_tools as nat,
                samples_per_tool as nat,
            ),
            final(self).prev_position == old(self).prev_position,
            final(self).current_n == old(self).current_n,
    {
        if is_settled(r) {
            match sample {
                None => Vec::new(),
                Some(s) => {
                    let ghost m = self.model();
                    let ghost old_offsets = self.offsets@;
                    let t = self.current_tool as usize;
                    let mut inner = self.offsets.remove(t);
                    inner.push(s);
                    let n = inner.len();
                    let ghost inner_v = inner;
                    self.offsets.insert(t, inner);
                    proof {
                        assert(self.offsets@ =~= old_offsets.update(t as int, inner_v));
                        assert(self.model().offsets =~= m.offsets.update(
                            t as int,
                            m.offsets[t as int].push(s),
                        ));
                    }
                    if n >= samples_per_tool {
                        if self.current_tool == num_tools as i32 - 1 {
                            self.auto_offset_type = AutoOffsetType::Idle;
                            let mut acts: Vec<Step> = Vec::new();
                            acts.push(Step::ProcessOffsets);
                            proof {
                                assert(acts@ =~= seq![Step::ProcessOffsets]);
                            }
                            acts
                        } else {
                            self.current_tool = self.current_tool + 1;
                            let mut acts: Vec<Step> = Vec::new();
                            acts.push(Step::PickupTool(self.current_tool));
                            acts.push(Step::ClearAverage);
                            acts.push(Step::HoldMoveTime);
                            proof {
                                assert(acts@ =~= seq![
                                    Step::PickupTool(self.current_tool),
                                    Step::ClearAverage,
                                    Step::HoldMoveTime,
                                ]);
                            }
                            acts
                        }
                    } else {
                        let mut acts: Vec<Step> = Vec::new();
                        acts.push(Step::DropoffTool);
                        acts.push(Step::PickupTool(self.current_tool));
                        acts.push(Step::ClearAverage);
                        acts.push(Step::HoldMoveTime);
                        proof {
                            assert(acts@ =~= seq![
                                Step::DropoffTool,
                                Step::PickupTool(self.current_tool),
                                Step::ClearAverage,
                                Step::HoldMoveTime,
                            ]);
                        }
                        acts
                    }
                },
            }
        } else {
            approach(r, false)
        }
    }

    /// One frame of the repeatability or homing test, with the current sample if
    /// the printer's position is known.
    pub fn step_repeatability(
        &mut self,
        r: &OffsetReading,
        sample: Option<S>,
        park_tool: bool,
        has_camera_position: bool,
    ) -> (acts: Vec<Step>)
        requires
            old(self).auto_offset_type == AutoOffsetType::RepeatabilityTest
                || old(self).auto_offset_type == AutoOffsetType::HomingTest,
        ensures
            (final(self).model(), acts@) == repeatability_next(
                old(self).model(),
                *r,
                sample,
                park_tool,
                has_camera_position,
            ),
            final(self).prev_position == old(self).prev_position,
            final(self).current_n == old(self).current_n,
    {
        let ghost m = self.model();
        match sample {
            None => Vec::new(),
            Some(s) => {
                self.repeatability.push(s);
                proof {
                    assert(self.model().repeatability =~= m.repeatability.push(s));
                    assert(self.model().offsets =~= m.offsets);
                }
                if is_settled(r) {
                    if self.check_repeatability == 0 {
                        let homing = self.auto_offset_type == AutoOffsetType::HomingTest;
                        self.stop();
                        let mut acts: Vec<Step> = Vec::new();
                        acts.push(Step::ProcessRepeatability { homing });
                        proof {
                            assert(acts@ =~= seq![Step::ProcessRepeatability { homing }]);
                        }
                        acts
                    } else {
                        self.check_repeatability = self.check_repeatability - 1;
                        let mut acts: Vec<Step> = Vec::new();
                        if self.auto_offset_type == AutoOffsetType::RepeatabilityTest {
                            if park_tool {
                                acts.push(Step::DropoffTool);
                            } else {
                                acts.push(Step::MoveToParking);
                            }
                            acts.push(Step::PickupTool(self.current_tool));
                            acts.push(Step::ClearAverage);
                            acts.push(Step::HoldMoveTime);
                            proof {
                                assert(acts@ =~= seq![
                                    if park_tool {
                                        Step::DropoffTool
                                    } else {
                                        Step::MoveToParking
                                    },
                                    Step::PickupTool(self.current_tool),
                                    Step::ClearAverage,
                                    Step::HoldMoveTime,
                                ]);
                            }
                        } else if has_camera_position {
                            acts.push(Step::HomeXY);
                            acts.push(Step::MoveToCamera);
                            acts.push(Step::ClearAverage);
                            acts.push(Step::HoldMoveTime);
                            proof {
                                assert(acts@ =~= seq![
                                    Step::HomeXY,
                                    Step::MoveToCamera,
                                    Step::ClearAverage,
                                    Step::HoldMoveTime,
                                ]);
                            }
                        } else {
                            self.stop();
                            proof {
                                assert(acts@ =~= Seq::<Step>::empty());
                            }
                        }
                        acts
                    }
                } else {
                    approach(r, false)
                }
            },
        }
    }

    /// One frame of whichever procedure is running.
    pub fn step(&mut self, r: &OffsetReading, sample: Option<S>, limits: &AutoOffsetLimits) -> (acts:
        Vec<Step>)
        requires
            old(self).auto_offset_type == AutoOffsetType::AllTools ==> {
                &&& 0 <= old(self).current_tool < old(self).offsets@.len()
                &&& old(self).current_tool < i32::MAX
                &&& limits.num_tools <= i32::MAX
            },
        ensures
            (final(self).model(), acts@) == step_next(old(self).model(), *r, sample, *limits),
            final(self).prev_position == old(self).prev_position,
            final(self).current_n == old(self).current_n,
    {
        match self.auto_offset_type {
            AutoOffsetType::Idle => Vec::new(),
            AutoOffsetType::SingleTool => self.step_single(r),
            AutoOffsetType::AllTools => self.step_all_tools(
                r,
                sample,
                limits.num_tools,
                limits.samples_per_tool,
            ),
            AutoOffsetType::RepeatabilityTest => self.step_repeatability(
                r,
                sample,
                limits.park_tool,
                limits.has_camera_position,
            ),
            AutoOffsetType::HomingTest => self.step_repeatability(
                r,
                sample,
                limits.park_tool,
                limits.has_camera_position,
            ),
        }
    }

    /// The file that the repeatability samples of this tool are written to,
    /// given the time stamp text.
    pub fn repeatability_file_name(&self, homing: bool, stamp: &str) -> (s: String)
        ensures
            s@ == repeatability_path(homing, self.current_tool as int, stamp@),
    {
        proof {
            reveal_strlit("data_output/repeatability_homing_tool_");
            reveal_strlit("data_output/repeatability_tool_");
            reveal_strlit("_data_");
            reveal_strlit(".txt");
        }
        let mut s = if homing {
            String::from_str("data_output/repeatability_homing_tool_")
        } else {
            String::from_str("data_output/repeatability_tool_")
        };
        push_signed_decimal(&mut s, self.current_tool);
        s.append("_data_");
        s.append(stamp);
        s.append(".txt");
        s
    }

    /// The number of repetitions left, for the user to edit.
    pub fn repeatability_count_mut(&mut self) -> (r: &mut usize)
        ensures
            *r == old(self).check_repeatability,
            final(self).check_repeatability == *final(r),
            final(self).auto_offset_type == old(self).auto_offset_type,
            final(self).prev_position == old(self).prev_position,
            final(self).current_tool == old(self).current_tool,
            final(self).current_n == old(self).current_n,
            final(self).repeatability@ == old(self).repeatability@,
            final(self).offsets@ == old(self).offsets@,
    {
        &mut self.check_repeatability
    }
}


/// The state after a run of frames, each given to the running procedure in turn.
pub open spec fn run<S>(
    m: AutoOffsetModel<S>,
    frames: Seq<(OffsetReading, Option<S>)>,
    limits: AutoOffsetLimits,
) -> AutoOffsetModel<S>
    decreases frames.len(),
{
    if frames.len() == 0 {
        m
    } else {
        let before = run(m, frames.drop_last(), limits);
        step_next(before, frames.last().0, frames.last().1, limits).0
    }
}

/// Every frame is settled and comes with a sample.
pub open spec fn all_settled_with_samples<S>(frames: Seq<(OffsetReading, Option<S>)>) -> bool {
    forall|i: int| 0 <= i < frames.len() ==> settled(#[trigger] frames[i].0) && frames[i].1 is Some
}

/// Law of the repeatability and homing tests: each settled frame with a known
/// position uses up one repetition and keeps its sample, and the test ends at the
/// first settled frame after the repetitions are used up. A test started with
/// `n` repetitions therefore ends after exactly `n + 1` settled frames.
pub proof fn lemma_repeatability_run<S>(
    m: AutoOffsetModel<S>,
    frames: Seq<(OffsetReading, Option<S>)>,
    limits: AutoOffsetLimits,
)
    requires
        m.kind == AutoOffsetType::RepeatabilityTest || (m.kind == AutoOffsetType::HomingTest
            && limits.has_camera_position),
        all_settled_with_samples(frames),
        frames.len() <= m.check + 1,
    ensures
        frames.len() <= m.check ==> {
            let r = run(m, frames, limits);
            &&& r.kind == m.kind
            &&& r.check == m.check - frames.len()
            &&& r.repeatability.len() == m.repeatability.len() + frames.len()
            &&& r.current_tool == m.current_tool
        },
        frames.len() == m.check + 1 ==> run(m, frames, limits).kind == AutoOffsetType::Idle,
    decreases frames.len(),
{
    if frames.len() > 0 {
        let before = frames.drop_last();
        assert forall|i: int| 0 <= i < before.len() implies settled(#[trigger] before[i].0)
            && before[i].1 is Some by {
            assert(before[i] == frames[i]);
        }
        lemma_repeatability_run(m, before, limits);
        assert(settled(frames[frames.len() - 1].0));
    }
}

/// The sample-list lengths of an all-tools run after `k` settled frames: the
/// tools before the current one are complete, the current one holds the rest.
pub open spec fn all_tools_progress<S>(
    r: AutoOffsetModel<S>,
    k: nat,
    num_tools: nat,
    samples_per_tool: nat,
) -> bool {
    &&& r.offsets.len() == num_tools
    &&& forall|t: int|
        0 <= t < num_tools ==> (#[trigger] r.offsets[t]).len() == if t < k / samples_per_tool {
            samples_per_tool as int
        } else if t == k / samples_per_tool {
            (k % samples_per_tool) as int
        } else {
            0
        }
}

/// Law of the all-tools procedure: from a fresh run with every sample list
/// empty, settled frames with known positions are stored `samples_per_tool` per
/// tool, tool after tool; the run is on the tool `k / samples_per_tool` after
/// `k` frames, and ends, with every tool complete, after exactly
/// `num_tools * samples_per_tool` frames.
pub proof fn lemma_all_tools_run<S>(
    m: AutoOffsetModel<S>,
    frames: Seq<(OffsetReading, Option<S>)>,
    limits: AutoOffsetLimits,
)
    requires
        m.kind == AutoOffsetType::AllTools,
        m.current_tool == 0,
        limits.num_tools >= 1,
        limits.samples_per_tool >= 1,
        m.offsets.len() == limits.num_tools,
        forall|t: int| 0 <= t < m.offsets.len() ==> (#[trigger] m.offsets[t]).len() == 0,
        all_settled_with_samples(frames),
        frames.len() <= limits.num_tools * limits.samples_per_tool,
    ensures
        frames.len() < limits.num_tools * limits.samples_per_tool ==> {
            let r = run(m, frames, limits);
            &&& r.kind == AutoOffsetType::AllTools
            &&& r.current_tool == frames.len() / (limits.samples_per_tool as nat)
            &&& all_tools_progress(
                r,
                frames.len(),
                limits.num_tools as nat,
                limits.samples_per_tool as nat,
            )
        },
        frames.len() == limits.num_tools * limits.samples_per_tool ==> {
            let r = run(m, frames, limits);
            &&& r.kind == AutoOffsetType::Idle
            &&& r.offsets.len() == limits.num_tools
            &&& forall|t: int|
                0 <= t < limits.num_tools ==> (#[trigger] r.offsets[t]).len()
                    == limits.samples_per_tool
        },
    decreases frames.len(),
{
    let n = limits.num_tools as nat;
    let spt = limits.samples_per_tool as nat;
    let k = frames.len();
    if k == 0 {
        vstd::arithmetic::div_mod::lemma_fundamental_div_mod_converse(0, spt as int, 0, 0);
        assert(0 < n * spt) by (nonlinear_arith)
            requires
                n >= 1,
                spt >= 1,
        ;
    } else {
        let before = frames.drop_last();
        assert forall|i: int| 0 <= i < before.len() implies settled(#[trigger] before[i].0)
            && before[i].1 is Some by {
            assert(before[i] == frames[i]);
        }
        lemma_all_tools_run(m, before, limits);
        let pm = run(m, before, limits);
        let j = before.len();
        let q = j / spt;
        let rem = j % spt;
        vstd::arithmetic::div_mod::lemma_fundamental_div_mod(j as int, spt as int);
        assert(0 <= rem < spt);
        assert(j == q * spt + rem) by (nonlinear_arith)
            requires
                j == spt * q + rem,
        ;
        assert(q < n) by (nonlinear_arith)
            requires
                j == q * spt + rem,
                j < n * spt,
                0 <= rem,
                spt >= 1,
                q >= 0,
        ;
        assert(settled(frames[k - 1].0));
        let s = frames[k - 1].1->0;
        assert(pm.offsets[q as int].len() == rem);
        if rem + 1 == spt {
            assert(k == (q + 1) * spt) by (nonlinear_arith)
                requires
                    k == j + 1,
                    j == q * spt + rem,
                    rem + 1 == spt,
            ;
            if q == n - 1 {
                assert(k == n * spt);
                let r = run(m, frames, limits);
                assert forall|t: int| 0 <= t < n implies (#[trigger] r.offsets[t]).len() == spt by {
                    if t != q {
                        assert(pm.offsets[t].len() == spt);
                    }
                }
            } else {
                vstd::arithmetic::div_mod::lemma_fundamental_div_mod_converse(
                    k as int,
                    spt as int,
                    (q + 1) as int,
                    0,
                );
                assert(k < n * spt) by (nonlinear_arith)
                    requires
                        k == (q + 1) * spt,
                        q + 1 < n,
                        spt >= 1,
                ;
            }
        } else {
            vstd::arithmetic::div_mod::lemma_fundamental_div_mod_converse(
                k as int,
                spt as int,
                q as int,
                (rem + 1) as int,
            );
            assert(k < n * spt) by (nonlinear_arith)
                requires
                    k == q * spt + rem + 1,
                    rem + 1 < spt,
                    q < n,
                    q >= 0,
            ;
        }
    }
}

/// Each tool's samples are those of its own frames, in order: sample `i` of
/// tool `t` comes from frame `t * samples_per_tool + i`.
pub open spec fn samples_in_order<S>(
    r: AutoOffsetModel<S>,
    frames: Seq<(OffsetReading, Option<S>)>,
    samples_per_tool: nat,
) -> bool {
    forall|t: int, i: int|
        0 <= t < r.offsets.len() && 0 <= i < r.offsets[t].len() ==> #[trigger] r.offsets[t][i]
            == frames[t * samples_per_tool + i].1->0
}

/// Law of the all-tools procedure: from a fresh run with every sample list
/// empty, the samples stored for each tool are, in order, those of the settled
/// frames taken while that tool was over the camera.
pub proof fn lemma_all_tools_samples<S>(
    m: AutoOffsetModel<S>,
    frames: Seq<(OffsetReading, Option<S>)>,
    limits: AutoOffsetLimits,
)
    requires
        m.kind == AutoOffsetType::AllTools,
        m.current_tool == 0,
        limits.num_tools >= 1,
        limits.samples_per_tool >= 1,
        m.offsets.len() == limits.num_tools,
        forall|t: int| 0 <= t < m.offsets.len() ==> (#[trigger] m.offsets[t]).len() == 0,
        all_settled_with_samples(frames),
        frames.len() <= limits.num_tools * limits.samples_per_tool,
    ensures
        samples_in_order(run(m, frames, limits), frames, limits.samples_per_tool as nat),
    decreases frames.len(),
{
    let n = limits.num_tools as nat;
    let spt = limits.samples_per_tool as nat;
    let k = frames.len();
    if k > 0 {
        let before = frames.drop_last();
        assert forall|i: int| 0 <= i < before.len() implies settled(#[trigger] before[i].0)
            && before[i].1 is Some by {
            assert(before[i] == frames[i]);
        }
        lemma_all_tools_samples(m, before, limits);
        lemma_all_tools_run(m, before, limits);
        let pm = run(m, before, limits);
        let j = before.len();
        let q = j / spt;
        let rem = j % spt;
        vstd::arithmetic::div_mod::lemma_fundamental_div_mod(j as int, spt as int);
        assert(j == q * spt + rem) by (nonlinear_arith)
            requires
                j == spt * q + rem,
        ;
        assert(settled(frames[k - 1].0));
        let s = frames[k - 1].1->0;
        let r = run(m, frames, limits);
        assert(q < n) by (nonlinear_arith)
            requires
                j == q * spt + rem,
                j < n * spt,
                0 <= rem,
                spt >= 1,
        ;
        assert(pm.offsets[q as int].len() == rem);
        let updated = pm.offsets.update(q as int, pm.offsets[q as int].push(s));
        assert(r.offsets == updated);
        assert forall|t: int, i: int|
            0 <= t < r.offsets.len() && 0 <= i < r.offsets[t].len() implies #[trigger] r.offsets[t][i]
                == frames[t * spt + i].1->0 by {
            if t == q {
                if i == rem {
                    assert(t * spt + i == j);
                } else {
                    assert(updated[t] == pm.offsets[t].push(s));
                    assert(r.offsets[t][i] == pm.offsets[t][i]);
                    assert(t * spt + i < j);
                    assert(before[t * spt + i] == frames[t * spt + i]);
                }
            } else {
                assert(updated[t] == pm.offsets[t]);
                assert(r.offsets[t] == pm.offsets[t]);
                if t < q {
                    assert(pm.offsets[t].len() == spt);
                    assert(t * spt + i < j) by (nonlinear_arith)
                        requires
                            0 <= t < q,
                            0 <= i < spt,
                            j == q * spt + rem,
                            rem >= 0,
                    ;
                    assert(before[t * spt + i] == frames[t * spt + i]);
                } else {
                    assert(pm.offsets[t].len() == 0);
                }
            }
        }
    }
}

/// The samples of a run of frames, in order.
pub open spec fn frame_samples<S>(frames: Seq<(OffsetReading, Option<S>)>) -> Seq<S> {
    frames.map_values(|f: (OffsetReading, Option<S>)| f.1->0)
}

/// Law of the repeatability and homing tests: every settled frame's sample is
/// kept, in order, up to and including the frame that ends the test.
pub proof fn lemma_repeatability_samples<S>(
    m: AutoOffsetModel<S>,
    frames: Seq<(OffsetReading, Option<S>)>,
    limits: AutoOffsetLimits,
)
    requires
        m.kind == AutoOffsetType::RepeatabilityTest || (m.kind == AutoOffsetType::HomingTest
            && limits.has_camera_position),
        all_settled_with_samples(frames),
        frames.len() <= m.check + 1,
    ensures
        run(m, frames, limits).repeatability == m.repeatability + frame_samples(frames),
    decreases frames.len(),
{
    if frames.len() == 0 {
        assert(m.repeatability + frame_samples(frames) =~= m.repeatability);
    } else {
        let before = frames.drop_last();
        assert forall|i: int| 0 <= i < before.len() implies settled(#[trigger] before[i].0)
            && before[i].1 is Some by {
            assert(before[i] == frames[i]);
        }
        lemma_repeatability_samples(m, before, limits);
        lemma_repeatability_run(m, before, limits);
        assert(settled(frames[frames.len() - 1].0));
        assert(frames[frames.len() - 1].1 is Some);
        assert(frame_samples(frames) =~= frame_samples(before).push(frames[frames.len() - 1].1->0));
        assert(m.repeatability + frame_samples(frames) =~= (m.repeatability + frame_samples(before)).push(
            frames[frames.len() - 1].1->0,
        ));
    }
}

/// Law of every running procedure on a frame that is not settled (neither
/// both axes within the target accuracy nor both below the resolution): the
/// procedure keeps running and moves towards the centre. Each axis whose offset
/// is above both the target accuracy and the resolution is moved, X before Y,
/// by a quarter of the offset exactly when the offset is below the fine-tuning
/// step; then the move time is recorded; nothing else is done. The tool, the
/// repetitions left and the all-tools samples stay; the repeatability and
/// homing tests keep the frame's sample.
pub proof fn lemma_unsettled_frame_approaches<S>(
    m: AutoOffsetModel<S>,
    r: OffsetReading,
    sample: Option<S>,
    limits: AutoOffsetLimits,
)
    requires
        m.kind != AutoOffsetType::Idle,
        !((r.x.below_target && r.y.below_target) || (r.x.below_resolution
            && r.y.below_resolution)),
        m.kind == AutoOffsetType::RepeatabilityTest || m.kind == AutoOffsetType::HomingTest
            ==> sample is Some,
    ensures
        ({
            let (m2, steps) = step_next(m, r, sample, limits);
            let single = m.kind == AutoOffsetType::SingleTool;
            let testing = m.kind == AutoOffsetType::RepeatabilityTest || m.kind
                == AutoOffsetType::HomingTest;
            let qx = if single {
                r.x.below_single_fine_step
            } else {
                r.x.below_fine_step
            };
            let qy = if single {
                r.y.below_single_fine_step
            } else {
                r.y.below_fine_step
            };
            let mx: Seq<Step> = if r.x.above_target && r.x.above_resolution {
                seq![Step::MoveAxis { axis: Axis::X, quarter: qx }]
            } else {
                Seq::empty()
            };
            let my: Seq<Step> = if r.y.above_target && r.y.above_resolution {
                seq![Step::MoveAxis { axis: Axis::Y, quarter: qy }]
            } else {
                Seq::empty()
            };
            &&& steps == mx + my + seq![Step::MarkMoveTime]
            &&& m2.kind == m.kind
            &&& m2.current_tool == m.current_tool
            &&& m2.check == m.check
            &&& m2.offsets == m.offsets
            &&& m2.repeatability == if testing {
                m.repeatability.push(sample->0)
            } else {
                m.repeatability
            }
        }),
{
    let single = m.kind == AutoOffsetType::SingleTool;
    let qx = if single {
        r.x.below_single_fine_step
    } else {
        r.x.below_fine_step
    };
    let qy = if single {
        r.y.below_single_fine_step
    } else {
        r.y.below_fine_step
    };
    let mx: Seq<Step> = if r.x.above_target && r.x.above_resolution {
        seq![Step::MoveAxis { axis: Axis::X, quarter: qx }]
    } else {
        Seq::empty()
    };
    let my: Seq<Step> = if r.y.above_target && r.y.above_resolution {
        seq![Step::MoveAxis { axis: Axis::Y, quarter: qy }]
    } else {
        Seq::empty()
    };
    assert(approach_steps(r, single) =~= mx + my + seq![Step::MarkMoveTime]);
}

/// Law of the single-tool procedure: a settled frame (both axes within the
/// target accuracy, or both below the resolution) ends it; nothing is done and
/// nothing else changes.
pub proof fn lemma_single_tool_stops_when_settled<S>(
    m: AutoOffsetModel<S>,
    r: OffsetReading,
    sample: Option<S>,
    limits: AutoOffsetLimits,
)
    requires
        m.kind == AutoOffsetType::SingleTool,
        (r.x.below_target && r.y.below_target) || (r.x.below_resolution && r.y.below_resolution),
    ensures
        step_next(m, r, sample, limits).0 == (AutoOffsetModel { kind: AutoOffsetType::Idle, ..m }),
        step_next(m, r, sample, limits).1.len() == 0,
{
}

/// Law: while no procedure runs, frames change nothing and do nothing.
pub proof fn lemma_idle_frame_does_nothing<S>(
    m: AutoOffsetModel<S>,
    r: OffsetReading,
    sample: Option<S>,
    limits: AutoOffsetLimits,
)
    requires
        m.kind == AutoOffsetType::Idle,
    ensures
        step_next(m, r, sample, limits).0 == m,
        step_next(m, r, sample, limits).1.len() == 0,
{
}

/// Law of the all-tools procedure on a settled frame: without a known position
/// nothing happens; with one, its sample is appended to the current tool's
/// list and nothing else is stored. When the list is then full, the last tool
/// ends the run with the offsets processed, any other tool hands over to the
/// next tool; otherwise the tool is parked and picked up again for another
/// sample. Every hand-over clears the average and holds the next move.
pub proof fn lemma_all_tools_settled_frame<S>(
    m: AutoOffsetModel<S>,
    r: OffsetReading,
    sample: Option<S>,
    limits: AutoOffsetLimits,
)
    requires
        m.kind == AutoOffsetType::AllTools,
        0 <= m.current_tool < m.offsets.len(),
        (r.x.below_target && r.y.below_target) || (r.x.below_resolution && r.y.below_resolution),
    ensures
        ({
            let (m2, steps) = step_next(m, r, sample, limits);
            let t = m.current_tool;
            match sample {
                None => m2 == m && steps.len() == 0,
                Some(s) => {
                    &&& m2.offsets.len() == m.offsets.len()
                    &&& m2.offsets[t] == m.offsets[t].push(s)
                    &&& forall|u: int|
                        0 <= u < m.offsets.len() && u != t ==> #[trigger] m2.offsets[u]
                            == m.offsets[u]
                    &&& m2.repeatability == m.repeatability
                    &&& m2.check == m.check
                    &&& if m.offsets[t].len() + 1 >= limits.samples_per_tool {
                        if t == limits.num_tools - 1 {
                            &&& m2.kind == AutoOffsetType::Idle
                            &&& m2.current_tool == t
                            &&& steps == seq![Step::ProcessOffsets]
                        } else {
                            &&& m2.kind == AutoOffsetType::AllTools
                            &&& m2.current_tool == t + 1
                            &&& steps == seq![
                                Step::PickupTool((t + 1) as i32),
                                Step::ClearAverage,
                                Step::HoldMoveTime,
                            ]
                        }
                    } else {
                        &&& m2.kind == AutoOffsetType::AllTools
                        &&& m2.current_tool == t
                        &&& steps == seq![
                            Step::DropoffTool,
                            Step::PickupTool(t as i32),
                            Step::ClearAverage,
                            Step::HoldMoveTime,
                        ]
                    }
                },
            }
        }),
{
}

/// Law of the repeatability and homing tests on a settled frame with a known
/// position: the sample is kept. With no repetitions left the test ends and its
/// samples are reported. Otherwise one repetition is used up and the nozzle is
/// taken away and brought back: the repeatability test parks the tool (or
/// moves to the parking spot) and picks it up again; the homing test homes X
/// and Y and returns over the camera, or ends if no camera position is known.
pub proof fn lemma_repeatability_settled_frame<S>(
    m: AutoOffsetModel<S>,
    r: OffsetReading,
    s: S,
    limits: AutoOffsetLimits,
)
    requires
        m.kind == AutoOffsetType::RepeatabilityTest || m.kind == AutoOffsetType::HomingTest,
        (r.x.below_target && r.y.below_target) || (r.x.below_resolution && r.y.below_resolution),
    ensures
        ({
            let (m2, steps) = step_next(m, r, Some(s), limits);
            let homing = m.kind == AutoOffsetType::HomingTest;
            &&& m2.repeatability == m.repeatability.push(s)
            &&& m2.offsets == m.offsets
            &&& m2.current_tool == m.current_tool
            &&& if m.check == 0 {
                &&& m2.kind == AutoOffsetType::Idle
                &&& m2.check == 0
                &&& steps == seq![Step::ProcessRepeatability { homing }]
            } else {
                &&& m2.check + 1 == m.check
                &&& if !homing {
                    &&& m2.kind == AutoOffsetType::RepeatabilityTest
                    &&& steps == seq![
                        if limits.park_tool {
                            Step::DropoffTool
                        } else {
                            Step::MoveToParking
                        },
                        Step::PickupTool(m.current_tool as i32),
                        Step::ClearAverage,
                        Step::HoldMoveTime,
                    ]
                } else if limits.has_camera_position {
                    &&& m2.kind == AutoOffsetType::HomingTest
                    &&& steps == seq![
                        Step::HomeXY,
                        Step::MoveToCamera,
                        Step::ClearAverage,
                        Step::HoldMoveTime,
                    ]
                } else {
                    &&& m2.kind == AutoOffsetType::Idle
                    &&& steps.len() == 0
                }
            }
        }),
{
}

/// Law of the repeatability and homing tests: a frame taken while the
/// printer's position is unknown is skipped; nothing changes and nothing is done.
pub proof fn lemma_repeatability_skips_unknown_position<S>(
    m: AutoOffsetModel<S>,
    r: OffsetReading,
    limits: AutoOffsetLimits,
)
    requires
        m.kind == AutoOffsetType::RepeatabilityTest || m.kind == AutoOffsetType::HomingTest,
    ensures
        step_next(m, r, None, limits).0 == m,
        step_next(m, r, None, limits).1.len() == 0,
{
}

} // verus!
