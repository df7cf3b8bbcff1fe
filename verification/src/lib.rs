//! Verified core of the tool-changer calibration utility.
use vstd::prelude::*;

pub mod auto_offset;
pub mod crosshair;
pub mod decimal;
pub mod detection_window;
pub mod klipper;
pub mod klipper_status;
pub mod preprocess;
pub mod ui_types;
pub mod ui_utils;
pub mod vision_types;

verus! {

} // verus!
