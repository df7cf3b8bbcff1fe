//! The printer side: G-code commands for the Klipper firmware, request ids for
//! its JSON-RPC link, and the printer state flags read from its status reports.
use vstd::prelude::*;
use vstd::string::*;

use crate::decimal::{decimal, push_decimal};
use crate::ui_types::{Axis, axis_name};

verus! {

// ---------------------------------------------------------------- request ids

/// The ids of JSON-RPC requests, handed out in increasing order from 1.
pub struct RequestIds {
    next: usize,
}

impl RequestIds {
    /// The id the next request gets.
    pub closed spec fn next_id(&self) -> nat {
        self.next as nat
    }

    /// A counter whose first id is 1.
    pub fn new() -> (ids: Self)
        ensures
            ids.next_id() == 1,
    {
        RequestIds { next: 1 }
    }

    /// The id the next request gets, without handing it out.
    pub fn peek_id(&self) -> (id: usize)
        ensures
            id == self.next_id(),
    {
        self.next
    }

    /// Hands out the next id.
    pub fn get_id(&mut self) -> (id: usize)
        requires
            old(self).next_id() < usize::MAX,
        ensures
            id == old(self).next_id(),
            final(self).next_id() == old(self).next_id() + 1,
    {
        let id = self.next;
        self.next = self.next + 1;
        id
    }
}

/// The ids that `n` successive calls of `get_id` hand out, starting from a
/// counter whose next id is `start`.
pub open spec fn handed_out(start: nat, n: nat) -> Seq<nat> {
    Seq::new(n, |i: int| (start + i) as nat)
}

/// Law: ids never repeat. Successive calls of `get_id` hand out `start`,
/// `start + 1`, and so on, so any two of them differ.
pub proof fn lemma_ids_never_repeat(start: nat, n: nat)
    ensures
        forall|i: int, j: int|
            0 <= i < j < n ==> #[trigger] handed_out(start, n)[i] < #[trigger] handed_out(start, n)[j],
{
}

// ---------------------------------------------------------------- G-code

/// "G28": home every axis.
pub fn home_all_gcode() -> (s: String)
    ensures
        s@ == seq!['G', '2', '8'],
{
    proof { reveal_strlit("G28"); }
    String::from_str("G28")
}

/// "G28 X Y": home the X and Y axes.
pub fn home_xy_gcode() -> (s: String)
    ensures
        s@ == seq!['G', '2', '8', ' ', 'X', ' ', 'Y'],
{
    proof { reveal_strlit("G28 X Y"); }
    String::from_str("G28 X Y")
}

/// "T<n>": pick up tool `n`.
pub fn pick_tool_gcode(tool: u64) -> (s: String)
    ensures
        s@ == seq!['T'] + decimal(tool as nat),
{
    proof { reveal_strlit("T"); }
    let mut s = String::from_str("T");
    push_decimal(&mut s, tool);
    s
}

/// "T_1": put the active tool down.
pub fn dropoff_tool_gcode() -> (s: String)
    ensures
        s@ == seq!['T', '_', '1'],
{
    proof { reveal_strlit("T_1"); }
    String::from_str("T_1")
}

/// "M18": switch the motors off.
pub fn disable_motors_gcode() -> (s: String)
    ensures
        s@ == seq!['M', '1', '8'],
{
    proof { reveal_strlit("M18"); }
    String::from_str("M18")
}

/// "M400": wait until every queued move is done.
pub fn wait_for_moves_gcode() -> (s: String)
    ensures
        s@ == seq!['M', '4', '0', '0'],
{
    proof { reveal_strlit("M400"); }
    String::from_str("M400")
}

/// "G4 P<ms>": wait `ms` milliseconds.
pub fn dwell_gcode(ms: u32) -> (s: String)
    ensures
        s@ == seq!['G', '4', ' ', 'P'] + decimal(ms as nat),
{
    proof { reveal_strlit("G4 P"); }
    let mut s = String::from_str("G4 P");
    push_decimal(&mut s, ms as u64);
    s
}

/// "G91": relative positioning.
pub fn set_relative_gcode() -> (s: String)
    ensures
        s@ == seq!['G', '9', '1'],
{
    proof { reveal_strlit("G91"); }
    String::from_str("G91")
}

/// "G90": absolute positioning.
pub fn set_absolute_gcode() -> (s: String)
    ensures
        s@ == seq!['G', '9', '0'],
{
    proof { reveal_strlit("G90"); }
    String::from_str("G90")
}

/// A script that switches to absolute positioning and then runs `gcode`.
pub fn absolute_script(gcode: &str) -> (s: String)
    ensures
        s@ == seq!['G', '9', '0', '\n'] + gcode@,
{
    proof { reveal_strlit("G90\n"); }
    let mut s = String::from_str("G90\n");
    s.append(gcode);
    s
}

/// "G1 Z<z>": move the bed to height `z`, given as text.
pub fn move_z_gcode(z: &str) -> (s: String)
    ensures
        s@ == seq!['G', '1', ' ', 'Z'] + z@,
{
    proof { reveal_strlit("G1 Z"); }
    let mut s = String::from_str("G1 Z");
    s.append(z);
    s
}

/// "G1 X<x> Y<y>": move to `(x, y)`, given as text.
pub fn move_xy_gcode(x: &str, y: &str) -> (s: String)
    ensures
        s@ == seq!['G', '1', ' ', 'X'] + x@ + seq![' ', 'Y'] + y@,
{
    proof {
        reveal_strlit("G1 X");
        reveal_strlit(" Y");
    }
    let mut s = String::from_str("G1 X");
    s.append(x);
    s.append(" Y");
    s.append(y);
    s
}

/// The text of the relative-move macro call: "_CLIENT_LINEAR_MOVE ".
pub open spec fn linear_move_prefix() -> Seq<char> {
    seq![
        '_', 'C', 'L', 'I', 'E', 'N', 'T', '_', 'L', 'I', 'N', 'E', 'A', 'R', '_', 'M', 'O', 'V', 'E', ' ',
    ]
}

/// A relative move of one axis by `amount`, given as text. The Z axis moves
/// at feed rate 500: "_CLIENT_LINEAR_MOVE Z=<amount> F=500"; the others move at
/// the default feed rate: "_CLIENT_LINEAR_MOVE X=<amount>".
pub fn relative_move_gcode(axis: Axis, amount: &str) -> (s: String)
    ensures
        s@ == linear_move_prefix() + axis_name(axis) + seq!['='] + amount@ + if axis == Axis::Z {
            seq![' ', 'F', '=', '5', '0', '0']
        } else {
            Seq::empty()
        },
{
    proof {
        reveal_strlit("_CLIENT_LINEAR_MOVE ");
        reveal_strlit("=");
        reveal_strlit(" F=500");
    }
    let mut s = String::from_str("_CLIENT_LINEAR_MOVE ");
    s.append(axis.to_str());
    s.append("=");
    s.append(amount);
    match axis {
        Axis::Z => {
            s.append(" F=500");
        },
        _ => {
            proof {
                assert(s@ =~= s@ + Seq::<char>::empty());
            }
        },
    }
    s
}

/// A request named an axis that the command cannot move.
#[derive(Clone, Copy, Debug, PartialEq, Eq, Structural)]
pub enum KlipperError {
    InvalidAxis,
}

/// The axes that the HTTP printer link moves relative to the current position: X and Y.
pub fn planar_axis(axis: Axis) -> (r: Result<Axis, KlipperError>)
    ensures
        axis == Axis::Z ==> r == Err::<Axis, KlipperError>(KlipperError::InvalidAxis),
        axis != Axis::Z ==> r == Ok::<Axis, KlipperError>(axis),
{
    match axis {
        Axis::X => Ok(Axis::X),
        Axis::Y => Ok(Axis::Y),
        Axis::Z => Err(KlipperError::InvalidAxis),
    }
}

/// The offset-adjusting macro call for `tool`: axis 0 is X, axis 1 is Y, any
/// other axis is refused. "TC_ADJUST_OFFSET TOOL=<tool> AXIS=<X|Y> AMOUNT=<amount>".
pub fn adjust_offset_gcode(tool: u64, axis: u64, amount: &str) -> (r: Result<String, KlipperError>)
    ensures
        axis >= 2 ==> r == Err::<String, KlipperError>(KlipperError::InvalidAxis),
        axis < 2 ==> r is Ok && r->Ok_0@ == seq![
            'T', 'C', '_', 'A', 'D', 'J', 'U', 'S', 'T', '_', 'O', 'F', 'F', 'S', 'E', 'T', ' ', 'T', 'O', 'O', 'L', '=',
        ] + decimal(tool as nat) + seq![' ', 'A', 'X', 'I', 'S', '='] + (if axis == 0 {
            seq!['X']
        } else {
            seq!['Y']
        }) + seq![' ', 'A', 'M', 'O', 'U', 'N', 'T', '='] + amount@,
{
    if axis >= 2 {
        return Err(KlipperError::InvalidAxis);
    }
    proof {
        reveal_strlit("TC_ADJUST_OFFSET TOOL=");
        reveal_strlit(" AXIS=");
        reveal_strlit("X");
        reveal_strlit("Y");
        reveal_strlit(" AMOUNT=");
    }
    let mut s = String::from_str("TC_ADJUST_OFFSET TOOL=");
    push_decimal(&mut s, tool);
    s.append(" AXIS=");
    if axis == 0 {
        s.append("X");
    } else {
        s.append("Y");
    }
    s.append(" AMOUNT=");
    s.append(amount);
    Ok(s)
}

/// The saved-variable name of a tool's offset along an axis: "t<tool>_<axis>_offset",
/// with the axis in lower case.
pub open spec fn offset_variable(tool: nat, axis: Axis) -> Seq<char> {
    seq!['t'] + decimal(tool) + seq!['_'] + match axis {
        Axis::X => seq!['x'],
        Axis::Y => seq!['y'],
        Axis::Z => seq!['z'],
    } + seq!['_', 'o', 'f', 'f', 's', 'e', 't']
}

/// The saved-variable name of a tool's offset along an axis.
pub fn tool_offset_variable(tool: u64, axis: Axis) -> (s: String)
    ensures
        s@ == offset_variable(tool as nat, axis),
{
    proof {
        reveal_strlit("t");
        reveal_strlit("_x");
        reveal_strlit("_y");
        reveal_strlit("_z");
        reveal_strlit("_offset");
    }
    let mut s = String::from_str("t");
    push_decimal(&mut s, tool);
    match axis {
        Axis::X => s.append("_x"),
        Axis::Y => s.append("_y"),
        Axis::Z => s.append("_z"),
    }
    s.append("_offset");
    proof {
        assert(s@ =~= offset_variable(tool as nat, axis));
    }
    s
}

/// The Klipper command that stores a saved variable:
/// "SAVE_VARIABLE VARIABLE=<name> VALUE=<value>", the value given as text.
pub fn save_variable_gcode(name: &str, value: &str) -> (s: String)
    ensures
        s@ == seq![
            'S', 'A', 'V', 'E', '_', 'V', 'A', 'R', 'I', 'A', 'B', 'L', 'E', ' ', 'V', 'A', 'R', 'I', 'A', 'B',
            'L', 'E', '=',
        ] + name@ + seq![' ', 'V', 'A', 'L', 'U', 'E', '='] + value@,
{
    proof {
        reveal_strlit("SAVE_VARIABLE VARIABLE=");
        reveal_strlit(" VALUE=");
    }
    let mut s = String::from_str("SAVE_VARIABLE VARIABLE=");
    s.append(name);
    s.append(" VALUE=");
    s.append(value);
    s
}

/// The tool number to send for a pick-up request; negative tool indices name no tool.
pub fn tool_number(tool: i32) -> (r: Option<u32>)
    ensures
        tool < 0 ==> r is None,
        tool >= 0 ==> r == Some(tool as u32),
{
    if tool < 0 {
        None
    } else {
        Some(tool as u32)
    }
}

// ---------------------------------------------------------------- position cache

/// The last position read from the printer, and whether a command may have
/// moved it since.
#[derive(Clone, Copy, Debug)]
pub struct PositionCache<P> {
    pub position: Option<P>,
    pub position_stale: bool,
}

impl<P: Copy> PositionCache<P> {
    /// Nothing read yet, so the first request reads the position.
    pub fn new() -> (c: Self)
        ensures
            c.position is None,
            c.position_stale,
    {
        PositionCache { position: None, position_stale: true }
    }

    /// The position to answer a request with: `None` when it must be read from
    /// the printer first, else the cached position.
    pub fn cached(&self) -> (r: Option<Option<P>>)
        ensures
            self.position_stale ==> r is None,
            !self.position_stale ==> r == Some(self.position),
    {
        if self.position_stale {
            None
        } else {
            Some(self.position)
        }
    }

    /// Records a position read from the printer.
    pub fn record_position(&mut self, pos: P)
        ensures
            final(self).position == Some(pos),
            final(self).position_stale == old(self).position_stale,
    {
        self.position = Some(pos);
    }

    /// Records a position read to answer a request: later requests use it.
    pub fn record_fresh(&mut self, pos: P)
        ensures
            final(self).position == Some(pos),
            !final(self).position_stale,
    {
        self.position = Some(pos);
        self.position_stale = false;
    }

    /// Records that a command ran, which may have moved the printer.
    pub fn mark_stale(&mut self)
        ensures
            final(self).position == old(self).position,
            final(self).position_stale,
    {
        self.position_stale = true;
    }
}

} // verus!
