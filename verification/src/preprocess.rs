//! The image preprocessing steps that can be chained before nozzle detection.
use vstd::prelude::*;

verus! {

/// How a threshold step separates the nozzle from the background.
#[derive(Clone, Copy, Debug, PartialEq, Eq, Structural)]
pub enum ThresholdType {
    Binary,
    BinaryInv,
    BinaryTriangle,
    BinaryInvTriangle,
    BinaryOtsu,
    BinaryInvOtsu,
}

/// The threshold of detection pipeline setting `t`: 0 is an inverted binary
/// threshold, 1 the same with the triangle method, 2 with Otsu's method; other
/// settings are invalid.
pub open spec fn pipeline_threshold(t: nat) -> Option<ThresholdType> {
    if t == 0 {
        Some(ThresholdType::BinaryInv)
    } else if t == 1 {
        Some(ThresholdType::BinaryInvTriangle)
    } else if t == 2 {
        Some(ThresholdType::BinaryInvOtsu)
    } else {
        None
    }
}

impl ThresholdType {
    /// The threshold of a detection pipeline setting, if the setting is valid.
    pub fn from_setting(t: usize) -> (r: Option<ThresholdType>)
        ensures
            r == pipeline_threshold(t as nat),
    {
        if t == 0 {
            Some(ThresholdType::BinaryInv)
        } else if t == 1 {
            Some(ThresholdType::BinaryInvTriangle)
        } else if t == 2 {
            Some(ThresholdType::BinaryInvOtsu)
        } else {
            None
        }
    }
}

/// One preprocessing operation. `F` is the type of its real-valued parameters.
#[derive(Clone, Copy, Debug, PartialEq)]
pub enum PreprocessStepType<F> {
    ConvertGrayscale,
    ConvertLuma,
    GaussianBlur { ksize: u32, sigma: F },
    Threshold { threshold: F, threshold_type: ThresholdType },
    AdaptiveThreshold,
}

/// The label of an operation, as the pipeline editor shows it.
pub open spec fn step_label<F>(s: PreprocessStepType<F>) -> Seq<char> {
    match s {
        PreprocessStepType::ConvertGrayscale => seq![
            'C', 'o', 'n', 'v', 'e', 'r', 't', ' ', 'G', 'r', 'a', 'y', 's', 'c', 'a', 'l', 'e',
        ],
        PreprocessStepType::ConvertLuma => seq!['C', 'o', 'n', 'v', 'e', 'r', 't', ' ', 'L', 'u', 'm', 'a'],
        PreprocessStepType::GaussianBlur { .. } => seq![
            'G', 'a', 'u', 's', 's', 'i', 'a', 'n', ' ', 'B', 'l', 'u', 'r',
        ],
        PreprocessStepType::Threshold { .. } => seq!['T', 'h', 'r', 'e', 's', 'h', 'o', 'l', 'd'],
        PreprocessStepType::AdaptiveThreshold => seq![
            'A', 'd', 'a', 'p', 't', 'i', 'v', 'e', ' ', 'T', 'h', 'r', 'e', 's', 'h', 'o', 'l', 'd',
        ],
    }
}

impl<F> PreprocessStepType<F> {
    /// The label of the operation.
    pub fn to_str(&self) -> (s: &'static str)
        ensures
            s@ == step_label(*self),
    {
        match self {
            PreprocessStepType::ConvertGrayscale => {
                proof { reveal_strlit("Convert Grayscale"); }
                "Convert Grayscale"
            },
            PreprocessStepType::ConvertLuma => {
                proof { reveal_strlit("Convert Luma"); }
                "Convert Luma"
            },
            PreprocessStepType::GaussianBlur { .. } => {
                proof { reveal_strlit("Gaussian Blur"); }
                "Gaussian Blur"
            },
            PreprocessStepType::Threshold { .. } => {
                proof { reveal_strlit("Threshold"); }
                "Threshold"
            },
            PreprocessStepType::AdaptiveThreshold => {
                proof { reveal_strlit("Adaptive Threshold"); }
                "Adaptive Threshold"
            },
        }
    }
}

impl<F> Default for PreprocessStepType<F> {
    /// The luma conversion.
    fn default() -> (s: Self)
        ensures
            s == PreprocessStepType::<F>::ConvertLuma,
    {
        PreprocessStepType::ConvertLuma
    }
}

/// A step of the preprocessing pipeline, which the user can switch off.
#[derive(Clone, Copy, Debug, PartialEq)]
pub struct PreprocessStep<F> {
    pub step: PreprocessStepType<F>,
    pub enabled: bool,
}

} // verus!
