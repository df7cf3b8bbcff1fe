//! The printer state flags that the status reports of the Klipper link keep up
//! to date: which axes are homed, which motors are powered, and whether moves
//! are absolute.
use vstd::prelude::*;
use vstd::string::*;

verus! {

/// A JSON document, as the `serde_json` crate parses it.
#[verifier::external_type_specification]
#[verifier::external_body]
pub struct ExValue(serde_json::Value);

/// The value that a JSON Pointer (RFC 6901) addresses inside a document, if any.
pub uninterp spec fn json_at(v: serde_json::Value, pointer: Seq<char>) -> Option<serde_json::Value>;

/// The member of a JSON object under a key, if the value is an object that has one.
pub uninterp spec fn json_member(v: serde_json::Value, key: Seq<char>) -> Option<serde_json::Value>;

/// The boolean that a JSON value is, if it is one.
pub uninterp spec fn json_bool(v: serde_json::Value) -> Option<bool>;

/// The characters of the string that a JSON value is, if it is one.
pub uninterp spec fn json_str(v: serde_json::Value) -> Option<Seq<char>>;

/// `serde_json::Value::pointer`: the value that `pointer` addresses inside
/// `v`. The contract names the result `json_at(v, pointer)` and says nothing
/// of how the pointer is resolved.
#[verifier::external_body]
fn json_pointer<'a>(v: &'a serde_json::Value, pointer: &str) -> (r: Option<&'a serde_json::Value>)
    ensures
        match r {
            Some(x) => json_at(*v, pointer@) == Some(*x),
            None => json_at(*v, pointer@) is None,
        },
{
    v.pointer(pointer)
}

/// `serde_json::Value::get` with a key: the member of an object under that
/// key. The contract names the result `json_member(v, key)`.
#[verifier::external_body]
fn json_get<'a>(v: &'a serde_json::Value, key: &str) -> (r: Option<&'a serde_json::Value>)
    ensures
        match r {
            Some(x) => json_member(*v, key@) == Some(*x),
            None => json_member(*v, key@) is None,
        },
{
    v.get(key)
}

/// `serde_json::Value::as_bool`: the boolean, if `v` is one. The contract
/// names the result `json_bool(v)`.
#[verifier::external_body]
fn json_as_bool(v: &serde_json::Value) -> (r: Option<bool>)
    ensures
        r == json_bool(*v),
{
    v.as_bool()
}

/// `serde_json::Value::as_str`: the string, if `v` is one, copied into a
/// `String`. The contract names its characters `json_str(v)`.
#[verifier::external_body]
fn json_as_str(v: &serde_json::Value) -> (r: Option<String>)
    ensures
        match r {
            Some(s) => json_str(*v) == Some(s@),
            None => json_str(*v) is None,
        },
{
    v.as_str().map(|s| s.to_string())
}

/// The fields of a status report that the flags follow.
#[derive(Clone, Debug, PartialEq, Eq)]
pub struct StatusReport {
    pub stepper_x: Option<bool>,
    pub stepper_y: Option<bool>,
    pub stepper_z: Option<bool>,
    pub homed_axes: Option<String>,
    pub absolute_coordinates: Option<bool>,
}

/// The printer state flags.
#[derive(Clone, Copy, Debug, PartialEq, Eq)]
pub struct StatusFlags {
    pub absolute_coordinates: bool,
    pub homed_axes: (bool, bool, bool),
    pub motors_enabled: (bool, bool, bool),
}

/// The homed axes that Klipper names: "" none, "xy" X and Y, "xyz" all three.
pub open spec fn homed_axes_named(s: Seq<char>) -> Option<(bool, bool, bool)> {
    if s == Seq::<char>::empty() {
        Some((false, false, false))
    } else if s == seq!['x', 'y'] {
        Some((true, true, false))
    } else if s == seq!['x', 'y', 'z'] {
        Some((true, true, true))
    } else {
        None
    }
}

/// The homed axes that a Klipper report names, if it is one of "", "xy" and "xyz".
pub fn parse_homed_axes(s: &str) -> (r: Option<(bool, bool, bool)>)
    ensures
        r == homed_axes_named(s@),
{
    proof {
        reveal_strlit("");
        reveal_strlit("xy");
        reveal_strlit("xyz");
    }
    let n = s.unicode_len();
    if n == 0 {
        proof {
            assert(s@ =~= Seq::<char>::empty());
        }
        return Some((false, false, false));
    }
    if n == 2 && s.get_char(0) == 'x' && s.get_char(1) == 'y' {
        proof {
            assert(s@ =~= seq!['x', 'y']);
        }
        return Some((true, true, false));
    }
    if n == 3 && s.get_char(0) == 'x' && s.get_char(1) == 'y' && s.get_char(2) == 'z' {
        proof {
            assert(s@ =~= seq!['x', 'y', 'z']);
        }
        return Some((true, true, true));
    }
    proof {
        if s@ == seq!['x', 'y'] {
            assert(s@[0] == 'x' && s@[1] == 'y');
        }
        if s@ == seq!['x', 'y', 'z'] {
            assert(s@[0] == 'x' && s@[1] == 'y' && s@[2] == 'z');
        }
    }
    None
}

/// A homed-axes name that Klipper does not use.
#[derive(Clone, Debug, PartialEq, Eq)]
pub struct UnknownHomedAxes {
    pub name: String,
}

/// The motor flags after a report: each reported stepper sets its flag.
pub open spec fn motors_after(m: (bool, bool, bool), r: StatusReport) -> (bool, bool, bool) {
    (
        match r.stepper_x {
            Some(v) => v,
            None => m.0,
        },
        match r.stepper_y {
            Some(v) => v,
            None => m.1,
        },
        match r.stepper_z {
            Some(v) => v,
            None => m.2,
        },
    )
}

/// The flags after a report, and the homed axes to announce, if they changed.
/// The motor flags are updated first; an unknown homed-axes name then stops the
/// update before the homing and coordinate flags.
pub open spec fn apply_report(f: StatusFlags, r: StatusReport) -> (
    StatusFlags,
    Result<Option<(bool, bool, bool)>, Seq<char>>,
) {
    let f1 = StatusFlags { motors_enabled: motors_after(f.motors_enabled, r), ..f };
    let (f2, announce) = match r.homed_axes {
        None => (f1, Ok(None)),
        Some(name) => match homed_axes_named(name@) {
            None => (f1, Err(name@)),
            Some(h) => (
                StatusFlags { homed_axes: h, ..f1 },
                Ok(
                    if h != f.homed_axes {
                        Some(h)
                    } else {
                        None
                    },
                ),
            ),
        },
    };
    match announce {
        Err(e) => (f2, Err(e)),
        Ok(a) => (
            StatusFlags {
                absolute_coordinates: match r.absolute_coordinates {
                    Some(v) => v,
                    None => f2.absolute_coordinates,
                },
                ..f2
            },
            Ok(a),
        ),
    }
}

impl Default for StatusFlags {
    /// Absolute moves, nothing homed, motors off.
    fn default() -> (f: Self)
        ensures
            f == (StatusFlags {
                absolute_coordinates: true,
                homed_axes: (false, false, false),
                motors_enabled: (false, false, false),
            }),
    {
        StatusFlags {
            absolute_coordinates: true,
            homed_axes: (false, false, false),
            motors_enabled: (false, false, false),
        }
    }
}

/// The boolean at `pointer` inside `v`, if there is one.
pub open spec fn bool_at_spec(v: serde_json::Value, pointer: Seq<char>) -> Option<bool> {
    match json_at(v, pointer) {
        Some(x) => json_bool(x),
        None => None,
    }
}

/// The boolean member `key` of `v`, if there is one.
pub open spec fn bool_member_spec(v: Option<serde_json::Value>, key: Seq<char>) -> Option<bool> {
    match v {
        Some(obj) => match json_member(obj, key) {
            Some(x) => json_bool(x),
            None => None,
        },
        None => None,
    }
}

/// The stepper states of a status message: those of a notification, else
/// those of a query result.
pub open spec fn steppers_of(json: serde_json::Value) -> Option<serde_json::Value> {
    match json_at(json, "/params/0/stepper_enable/steppers"@) {
        Some(s) => Some(s),
        None => json_at(json, "/result/status/stepper_enable/steppers"@),
    }
}

/// `r` holds what a status message says: the three stepper states, and, from
/// the toolhead data of a notification, the homed-axes name and the
/// coordinate mode.
pub open spec fn report_of(r: StatusReport, json: serde_json::Value) -> bool {
    &&& r.stepper_x == bool_member_spec(steppers_of(json), "stepper_x"@)
    &&& r.stepper_y == bool_member_spec(steppers_of(json), "stepper_y"@)
    &&& r.stepper_z == bool_member_spec(steppers_of(json), "stepper_z"@)
    &&& match json_at(json, "/params/0/toolhead"@) {
        None => r.homed_axes is None && r.absolute_coordinates is None,
        Some(data) => {
            &&& match (r.homed_axes, json_member(data, "homed_axes"@)) {
                (Some(h), Some(x)) => json_str(x) == Some(h@),
                (None, Some(x)) => json_str(x) is None,
                (None, None) => true,
                (Some(_), None) => false,
            }
            &&& r.absolute_coordinates == bool_at_spec(
                data,
                "/params/0/gcode_move/absolute_coordinates"@,
            )
        },
    }
}

/// Law: the homed axes are announced exactly when they change. A report that
/// names a known set of homed axes `h` sets the flags to `h`, and announces
/// `h` when some axis differs from the flags before, else announces nothing; a
/// report without homed axes leaves them and announces nothing.
pub proof fn lemma_homing_announced_on_change(f: StatusFlags, r: StatusReport)
    ensures
        r.homed_axes is None ==> apply_report(f, r) == (
            StatusFlags {
                motors_enabled: motors_after(f.motors_enabled, r),
                absolute_coordinates: match r.absolute_coordinates {
                    Some(v) => v,
                    None => f.absolute_coordinates,
                },
                ..f
            },
            Ok::<Option<(bool, bool, bool)>, Seq<char>>(None),
        ),
        match r.homed_axes {
            Some(name) => match homed_axes_named(name@) {
                Some(h) => {
                    &&& apply_report(f, r).0.homed_axes == h
                    &&& apply_report(f, r).1 == Ok::<Option<(bool, bool, bool)>, Seq<char>>(
                        if h.0 != f.homed_axes.0 || h.1 != f.homed_axes.1 || h.2
                            != f.homed_axes.2 {
                            Some(h)
                        } else {
                            None
                        },
                    )
                },
                None => true,
            },
            None => true,
        },
{
    if let Some(name) = r.homed_axes {
        if let Some(h) = homed_axes_named(name@) {
            if h.0 == f.homed_axes.0 && h.1 == f.homed_axes.1 && h.2 == f.homed_axes.2 {
                assert(h == f.homed_axes);
            }
        }
    }
}

/// Law: applying a report a second time changes nothing and announces
/// nothing, since the homed axes are announced only when they change.
pub proof fn lemma_apply_report_twice(f: StatusFlags, r: StatusReport)
    requires
        apply_report(f, r).1 is Ok,
    ensures
        apply_report(apply_report(f, r).0, r) == (
            apply_report(f, r).0,
            Ok::<Option<(bool, bool, bool)>, Seq<char>>(None),
        ),
{
}

/// A status message determines its effect: any two reports that hold what
/// the message says change the flags alike and give the same result.
pub proof fn lemma_report_determines_update(
    f: StatusFlags,
    json: serde_json::Value,
    r1: StatusReport,
    r2: StatusReport,
)
    requires
        report_of(r1, json),
        report_of(r2, json),
    ensures
        apply_report(f, r1) == apply_report(f, r2),
{
    match json_at(json, "/params/0/toolhead"@) {
        None => {},
        Some(data) => {
            match (r1.homed_axes, r2.homed_axes) {
                (Some(h1), Some(h2)) => {
                    assert(h1@ == h2@);
                },
                _ => {},
            }
        },
    }
}

/// The boolean at `pointer` inside `v`, if there is one.
fn bool_at(v: &serde_json::Value, pointer: &str) -> (r: Option<bool>)
    ensures
        r == bool_at_spec(*v, pointer@),
{
    match json_pointer(v, pointer) {
        Some(x) => json_as_bool(x),
        None => None,
    }
}

/// The boolean member `key` of `v`, if there is one.
fn bool_member(v: Option<&serde_json::Value>, key: &str) -> (r: Option<bool>)
    ensures
        r == bool_member_spec(
            match v {
                Some(x) => Some(*x),
                None => None,
            },
            key@,
        ),
{
    match v {
        Some(obj) => match json_get(obj, key) {
            Some(x) => json_as_bool(x),
            None => None,
        },
        None => None,
    }
}

/// Reads the fields that the flags follow out of a status message. The stepper
/// states come from "/params/0/stepper_enable/steppers", or else from
/// "/result/status/stepper_enable/steppers"; the homed axes and the
/// coordinate mode come from the toolhead data at "/params/0/toolhead".
pub fn read_status_report(json: &serde_json::Value) -> (r: StatusReport)
    ensures
        report_of(r, *json),
{
    let steppers = match json_pointer(json, "/params/0/stepper_enable/steppers") {
        Some(s) => Some(s),
        None => json_pointer(json, "/result/status/stepper_enable/steppers"),
    };
    let stepper_x = bool_member(steppers, "stepper_x");
    let stepper_y = bool_member(steppers, "stepper_y");
    let stepper_z = bool_member(steppers, "stepper_z");
    let (homed_axes, absolute_coordinates) = match json_pointer(json, "/params/0/toolhead") {
        None => (None, None),
        Some(data) => {
            let homed = match json_get(data, "homed_axes") {
                Some(h) => json_as_str(h),
                None => None,
            };
            let abs = bool_at(data, "/params/0/gcode_move/absolute_coordinates");
            (homed, abs)
        },
    };
    StatusReport { stepper_x, stepper_y, stepper_z, homed_axes, absolute_coordinates }
}

impl StatusFlags {
    /// Applies a report: the motor flags follow the reported steppers, then the
    /// homed axes follow the reported name, then the coordinate mode follows the
    /// reported one. Returns the homed axes when they changed, so that they can
    /// be announced, or the unknown name that stopped the update.
    pub fn apply(&mut self, r: &StatusReport) -> (res: Result<Option<(bool, bool, bool)>, UnknownHomedAxes>)
        ensures
            *final(self) == apply_report(*old(self), *r).0,
            match (res, apply_report(*old(self), *r).1) {
                (Ok(a), Ok(b)) => a == b,
                (Err(e), Err(n)) => e.name@ == n,
                _ => false,
            },
    {
        match r.stepper_x {
            Some(v) => self.motors_enabled.0 = v,
            None => {},
        }
        match r.stepper_y {
            Some(v) => self.motors_enabled.1 = v,
            None => {},
        }
        match r.stepper_z {
            Some(v) => self.motors_enabled.2 = v,
            None => {},
        }
        let mut announce: Option<(bool, bool, bool)> = None;
        match &r.homed_axes {
            None => {},
            Some(name) => {
                match parse_homed_axes(name.as_str()) {
                    None => {
                        return Err(UnknownHomedAxes { name: name.clone() });
                    },
                    Some(h) => {
                        let prev = self.homed_axes;
                        self.homed_axes = h;
                        if h.0 != prev.0 || h.1 != prev.1 || h.2 != prev.2 {
                            announce = Some(h);
                        }
                    },
                }
            },
        }
        match r.absolute_coordinates {
            Some(v) => self.absolute_coordinates = v,
            None => {},
        }
        Ok(announce)
    }

    /// Reads a status message and applies it: the flags and the result are
    /// those of applying the report that the message holds.
    pub fn update(&mut self, json: &serde_json::Value) -> (res: Result<Option<(bool, bool, bool)>, UnknownHomedAxes>)
        ensures
            exists|r: StatusReport|
                {
                    &&& report_of(r, *json)
                    &&& *final(self) == apply_report(*old(self), r).0
                    &&& match (res, apply_report(*old(self), r).1) {
                        (Ok(a), Ok(b)) => a == b,
                        (Err(e), Err(n)) => e.name@ == n,
                        _ => false,
                    }
                },
    {
        let r = read_status_report(json);
        self.apply(&r)
    }
}

} // verus!
