//! Small value types shared by the user interface and the printer link.
use vstd::prelude::*;

verus! {

/// The tab shown in the main window.
#[derive(Clone, Copy, Debug, PartialEq, Eq, Structural)]
pub enum Tab {
    Webcam,
    Options,
}

impl Default for Tab {
    fn default() -> (t: Self)
        ensures
            t == Tab::Webcam,
    {
        Tab::Webcam
    }
}

/// A motion axis of the printer.
#[derive(Clone, Copy, Debug, PartialEq, Eq, Structural)]
pub enum Axis {
    X,
    Y,
    Z,
}

/// The letter that names an axis.
pub open spec fn axis_name(axis: Axis) -> Seq<char> {
    match axis {
        Axis::X => seq!['X'],
        Axis::Y => seq!['Y'],
        Axis::Z => seq!['Z'],
    }
}

impl Axis {
    /// The axis letter, as the printer's G-code expects it.
    pub fn to_str(&self) -> (s: &'static str)
        ensures
            s@ == axis_name(*self),
    {
        match self {
            Axis::X => {
                proof { reveal_strlit("X"); }
                "X"
            },
            Axis::Y => {
                proof { reveal_strlit("Y"); }
                "Y"
            },
            Axis::Z => {
                proof { reveal_strlit("Z"); }
                "Z"
            },
        }
    }
}

impl Default for Axis {
    fn default() -> (a: Self)
        ensures
            a == Axis::X,
    {
        Axis::X
    }
}

} // verus!
