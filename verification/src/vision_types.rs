//! Camera-side value types: formats, controls and detection outcomes.
use vstd::prelude::*;
use vstd::string::*;

use crate::decimal::{
    decimal, decimal_string, lemma_padded_decimal_injective, pad_left, push_decimal, push_padded,
};

verus! {

/// Where the nozzle was found relative to the image centre.
#[derive(Clone, Copy, Debug, PartialEq, Eq, Structural)]
pub enum NozzlePosition {
    Centered,
    Up,
    Down,
    Left,
    Right,
    NotVisible,
}

/// A capture format offered by the camera: frame size, pixel format code and frame rate.
#[derive(Clone, Copy, Debug, PartialEq, Eq, Hash)]
pub struct CameraFormat {
    pub size: (u32, u32),
    pub format: u32,
    pub framerate: u32,
}

/// The label of a camera format: the frame rate right-aligned in two columns,
/// then " fps, ", then width "x" height.
pub open spec fn camera_format_label(f: CameraFormat) -> Seq<char> {
    pad_left(decimal(f.framerate as nat), 2, ' ') + seq![' ', 'f', 'p', 's', ',', ' '] + decimal(
        f.size.0 as nat,
    ) + seq!['x'] + decimal(f.size.1 as nat)
}

/// The name of a pixel format code.
pub open spec fn pixel_format_name(code: u32) -> Seq<char> {
    if code == 0 {
        seq!['M', 'J', 'P', 'E', 'G']
    } else if code == 1 {
        seq!['Y', 'U', 'Y', 'V']
    } else if code == 2 {
        seq!['N', 'V', '1', '2']
    } else if code == 3 {
        seq!['G', 'R', 'A', 'Y']
    } else if code == 4 {
        seq!['R', 'A', 'W', 'R', 'G', 'B']
    } else {
        seq!['U', 'n', 'k', 'n', 'o', 'w', 'n']
    }
}

impl CameraFormat {
    /// A format from its frame size, pixel format code and frame rate.
    pub fn from_parts(width: u32, height: u32, format: u32, framerate: u32) -> (f: Self)
        ensures
            f.size == (width, height),
            f.format == format,
            f.framerate == framerate,
    {
        CameraFormat { size: (width, height), format, framerate }
    }

    /// The label shown in the format picker, such as "30 fps, 1280x800".
    pub fn to_string(&self) -> (s: String)
        ensures
            s@ == camera_format_label(*self),
    {
        let mut out = String::new();
        let rate = decimal_string(self.framerate as u64);
        push_padded(&mut out, rate.as_str(), 2, false);
        proof { reveal_strlit(" fps, "); }
        out.append(" fps, ");
        push_decimal(&mut out, self.size.0 as u64);
        proof { reveal_strlit("x"); }
        out.append("x");
        push_decimal(&mut out, self.size.1 as u64);
        out
    }

    /// The name of this format's pixel format code.
    pub fn get_format(&self) -> (s: &'static str)
        ensures
            s@ == pixel_format_name(self.format),
    {
        if self.format == 0 {
            proof { reveal_strlit("MJPEG"); }
            "MJPEG"
        } else if self.format == 1 {
            proof { reveal_strlit("YUYV"); }
            "YUYV"
        } else if self.format == 2 {
            proof { reveal_strlit("NV12"); }
            "NV12"
        } else if self.format == 3 {
            proof { reveal_strlit("GRAY"); }
            "GRAY"
        } else if self.format == 4 {
            proof { reveal_strlit("RAWRGB"); }
            "RAWRGB"
        } else {
            proof { reveal_strlit("Unknown"); }
            "Unknown"
        }
    }
}

/// The image controls the user can set on the camera.
#[derive(Clone, Copy, Debug, PartialEq, Eq, Structural)]
pub struct CameraSettings {
    pub brightness: i64,
    pub contrast: i64,
    pub saturation: i64,
    pub sharpness: i64,
    pub gamma: i64,
    pub white_balance: i64,
    pub backlight_comp: i64,
}

impl Default for CameraSettings {
    fn default() -> (s: Self)
        ensures
            s == (CameraSettings {
                brightness: 0,
                contrast: 38,
                saturation: 64,
                sharpness: 93,
                gamma: 400,
                white_balance: 4600,
                backlight_comp: 1,
            }),
    {
        CameraSettings {
            brightness: 0,
            contrast: 38,
            saturation: 64,
            sharpness: 93,
            gamma: 400,
            white_balance: 4600,
            backlight_comp: 1,
        }
    }
}

/// One camera control change requested by the user, with its new value.
#[derive(Clone, Copy, Debug, PartialEq, Eq, Structural)]
pub enum CameraControl {
    Brightness(i64),
    Contrast(i64),
    Saturation(i64),
    Sharpness(i64),
    Gamma(i64),
    WhiteBalance(i64),
    BacklightComp(i64),
}

/// The camera driver control that a `CameraControl` addresses.
#[derive(Clone, Copy, Debug, PartialEq, Eq, Structural)]
pub enum CameraControlKind {
    Brightness,
    Contrast,
    Saturation,
    Sharpness,
    Gamma,
    WhiteBalance,
    BacklightComp,
}

/// The driver control and integer value of a control change.
pub open spec fn control_target(c: CameraControl) -> (CameraControlKind, i64) {
    match c {
        CameraControl::Brightness(v) => (CameraControlKind::Brightness, v),
        CameraControl::Contrast(v) => (CameraControlKind::Contrast, v),
        CameraControl::Saturation(v) => (CameraControlKind::Saturation, v),
        CameraControl::Sharpness(v) => (CameraControlKind::Sharpness, v),
        CameraControl::Gamma(v) => (CameraControlKind::Gamma, v),
        CameraControl::WhiteBalance(v) => (CameraControlKind::WhiteBalance, v),
        CameraControl::BacklightComp(v) => (CameraControlKind::BacklightComp, v),
    }
}

impl CameraControl {
    /// The driver control to set and the integer value to set it to.
    pub fn to_control(&self) -> (r: (CameraControlKind, i64))
        ensures
            r == control_target(*self),
    {
        match self {
            CameraControl::Brightness(v) => (CameraControlKind::Brightness, *v),
            CameraControl::Contrast(v) => (CameraControlKind::Contrast, *v),
            CameraControl::Saturation(v) => (CameraControlKind::Saturation, *v),
            CameraControl::Sharpness(v) => (CameraControlKind::Sharpness, *v),
            CameraControl::Gamma(v) => (CameraControlKind::Gamma, *v),
            CameraControl::WhiteBalance(v) => (CameraControlKind::WhiteBalance, *v),
            CameraControl::BacklightComp(v) => (CameraControlKind::BacklightComp, *v),
        }
    }
}

/// The path of the `n`th saved camera frame: "test_images/frame_" then `n`
/// zero-padded to four digits, then ".jpg".
pub open spec fn frame_path(n: nat) -> Seq<char> {
    seq!['t', 'e', 's', 't', '_', 'i', 'm', 'a', 'g', 'e', 's', '/', 'f', 'r', 'a', 'm', 'e', '_']
        + pad_left(decimal(n), 4, '0') + seq!['.', 'j', 'p', 'g']
}

/// Law: different frame numbers name different files, so counting up finds
/// a free name.
pub proof fn lemma_frame_paths_distinct(a: nat, b: nat)
    requires
        a != b,
    ensures
        frame_path(a) != frame_path(b),
{
    let prefix = seq!['t', 'e', 's', 't', '_', 'i', 'm', 'a', 'g', 'e', 's', '/', 'f', 'r', 'a', 'm', 'e', '_'];
    let suffix = seq!['.', 'j', 'p', 'g'];
    let pa = pad_left(decimal(a), 4, '0');
    let pb = pad_left(decimal(b), 4, '0');
    if frame_path(a) == frame_path(b) {
        assert(frame_path(a) == prefix + pa + suffix);
        assert(frame_path(b) == prefix + pb + suffix);
        assert(pa.len() == pb.len());
        assert forall|i: int| 0 <= i < pa.len() implies pa[i] == pb[i] by {
            assert(frame_path(a)[prefix.len() + i] == pa[i]);
            assert(frame_path(b)[prefix.len() + i] == pb[i]);
        }
        assert(pa =~= pb);
        lemma_padded_decimal_injective(a, b, 4);
    }
}

/// The path of the `n`th saved camera frame.
pub fn frame_file_name(n: u64) -> (s: String)
    ensures
        s@ == frame_path(n as nat),
{
    proof {
        reveal_strlit("test_images/frame_");
        reveal_strlit(".jpg");
    }
    let mut s = String::from_str("test_images/frame_");
    let digits = decimal_string(n);
    push_padded(&mut s, digits.as_str(), 4, true);
    s.append(".jpg");
    s
}

} // verus!
