use vstd::prelude::*;

verus! {

/// A hint to the encoder about the kind of picture.
#[derive(Debug, Clone, Copy, PartialEq, Eq, Structural)]
pub enum ImageHint {
    Default,
    Picture,
    Photo,
    Graph,
    Last,
}

/// How the alpha plane is filtered before compression.
#[derive(Debug, Clone, Copy, PartialEq, Eq, Structural)]
pub enum AlphaFiltering {
    Off,
    Fast,
    Best,
}

/// The preprocessing applied before encoding.
#[derive(Debug, Clone, Copy, PartialEq, Eq, Structural)]
pub enum PreprocessingFilter {
    Off,
    SegmentSmooth,
    PseudoRandomDithering,
}

/// A starting point for the encoder's settings.
#[derive(Debug, Clone, Copy, PartialEq, Eq, Structural)]
pub enum Preset {
    Default,
    Picture,
    Photo,
    Drawing,
    Icon,
    Text,
}

pub open spec fn spec_hint_code(hint: ImageHint) -> u32 {
    match hint {
        ImageHint::Default => 0,
        ImageHint::Picture => 1,
        ImageHint::Photo => 2,
        ImageHint::Graph => 3,
        ImageHint::Last => 4,
    }
}

impl ImageHint {
    /// The encoder's code of this hint.
    pub fn code(self) -> (r: u32)
        ensures
            r == spec_hint_code(self),
    {
        match self {
            ImageHint::Default => 0,
            ImageHint::Picture => 1,
            ImageHint::Photo => 2,
            ImageHint::Graph => 3,
            ImageHint::Last => 4,
        }
    }

    /// The hint of an encoder code; codes above 4 have none.
    pub fn from_code(code: u32) -> (r: Option<ImageHint>)
        ensures
            code <= 4 <==> r is Some,
            r is Some ==> spec_hint_code(r->Some_0) == code,
    {
        match code {
            0 => Some(ImageHint::Default),
            1 => Some(ImageHint::Picture),
            2 => Some(ImageHint::Photo),
            3 => Some(ImageHint::Graph),
            4 => Some(ImageHint::Last),
            _ => None,
        }
    }
}

pub open spec fn spec_alpha_filtering_code(f: AlphaFiltering) -> i32 {
    match f {
        AlphaFiltering::Off => 0,
        AlphaFiltering::Fast => 1,
        AlphaFiltering::Best => 2,
    }
}

impl AlphaFiltering {
    pub fn code(self) -> (r: i32)
        ensures
            r == spec_alpha_filtering_code(self),
    {
        match self {
            AlphaFiltering::Off => 0,
            AlphaFiltering::Fast => 1,
            AlphaFiltering::Best => 2,
        }
    }

    /// The filtering of an encoder code; an unknown code reads as `Fast`.
    pub fn from_code(code: i32) -> (r: AlphaFiltering)
        ensures
            0 <= code <= 2 ==> spec_alpha_filtering_code(r) == code,
            !(0 <= code <= 2) ==> r == AlphaFiltering::Fast,
    {
        match code {
            0 => AlphaFiltering::Off,
            1 => AlphaFiltering::Fast,
            2 => AlphaFiltering::Best,
            _ => AlphaFiltering::Fast,
        }
    }
}

pub open spec fn spec_preprocessing_code(f: PreprocessingFilter) -> i32 {
    match f {
        PreprocessingFilter::Off => 0,
        PreprocessingFilter::SegmentSmooth => 1,
        PreprocessingFilter::PseudoRandomDithering => 2,
    }
}

impl PreprocessingFilter {
    pub fn code(self) -> (r: i32)
        ensures
            r == spec_preprocessing_code(self),
    {
        match self {
            PreprocessingFilter::Off => 0,
            PreprocessingFilter::SegmentSmooth => 1,
            PreprocessingFilter::PseudoRandomDithering => 2,
        }
    }

    /// The filter of an encoder code; an unknown code reads as `Off`.
    pub fn from_code(code: i32) -> (r: PreprocessingFilter)
        ensures
            0 <= code <= 2 ==> spec_preprocessing_code(r) == code,
            !(0 <= code <= 2) ==> r == PreprocessingFilter::Off,
    {
        match code {
            0 => PreprocessingFilter::Off,
            1 => PreprocessingFilter::SegmentSmooth,
            2 => PreprocessingFilter::PseudoRandomDithering,
            _ => PreprocessingFilter::Off,
        }
    }
}

pub open spec fn spec_preset_code(p: Preset) -> u32 {
    match p {
        Preset::Default => 0,
        Preset::Picture => 1,
        Preset::Photo => 2,
        Preset::Drawing => 3,
        Preset::Icon => 4,
        Preset::Text => 5,
    }
}

impl Preset {
    /// The encoder's code of this preset.
    pub fn code(self) -> (r: u32)
        ensures
            r == spec_preset_code(self),
    {
        match self {
            Preset::Default => 0,
            Preset::Picture => 1,
            Preset::Photo => 2,
            Preset::Drawing => 3,
            Preset::Icon => 4,
            Preset::Text => 5,
        }
    }
}

} // verus!
