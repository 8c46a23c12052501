use vstd::prelude::*;

use crate::webp::types::{AlphaFiltering, ImageHint, PreprocessingFilter};

verus! {

/// The integer and flag settings of the WebP frame encoder, as plain values.
#[derive(Debug, Clone, Copy, PartialEq, Eq, Structural)]
pub struct Config {
    pub lossless: bool,
    pub method: i32,
    pub image_hint: ImageHint,
    pub target_size: i32,
    pub segments: i32,
    pub sns_strength: i32,
    pub filter_strength: i32,
    pub filter_sharpness: i32,
    pub strong_filter: bool,
    pub autofilter: bool,
    pub alpha_compression: bool,
    pub alpha_filtering: AlphaFiltering,
    pub alpha_quality: i32,
    pub pass: i32,
    pub show_compressed: bool,
    pub preprocessing: PreprocessingFilter,
    pub partitions: i32,
    pub partition_limit: i32,
    pub emulate_jpeg_size: bool,
    pub thread_level: bool,
    pub low_memory: bool,
    pub near_lossless: i32,
    pub exact: bool,
    pub use_delta_palette: bool,
    pub use_sharp_yuv: bool,
}

/// The settings that a user may give; each absent one keeps its value.
#[derive(Debug, Clone, Copy, PartialEq, Eq, Structural)]
pub struct ConfigCliOptions {
    pub lossless: Option<bool>,
    pub method: Option<i32>,
    pub image_hint: Option<ImageHint>,
    pub target_size: Option<i32>,
    pub segments: Option<i32>,
    pub sns_strength: Option<i32>,
    pub filter_strength: Option<i32>,
    pub filter_sharpness: Option<i32>,
    pub strong_filter: Option<bool>,
    pub autofilter: Option<bool>,
    pub alpha_compression: Option<bool>,
    pub alpha_filtering: Option<AlphaFiltering>,
    pub alpha_quality: Option<i32>,
    pub pass: Option<i32>,
    pub show_compressed: Option<bool>,
    pub preprocessing: Option<PreprocessingFilter>,
    pub partitions: Option<i32>,
    pub partition_limit: Option<i32>,
    pub emulate_jpeg_size: Option<bool>,
    pub thread_level: Option<bool>,
    pub low_memory: Option<bool>,
    pub near_lossless: Option<i32>,
    pub exact: Option<bool>,
    pub use_delta_palette: Option<bool>,
    pub use_sharp_yuv: Option<bool>,
}

/// `v` limited to `lo..=hi`.
pub open spec fn spec_clamp(v: i32, lo: i32, hi: i32) -> i32 {
    if v < lo {
        lo
    } else if v > hi {
        hi
    } else {
        v
    }
}

/// The given value, or `current` when none was given.
pub open spec fn given_or<T>(given: Option<T>, current: T) -> T {
    match given {
        Some(v) => v,
        None => current,
    }
}

/// The given value limited to `lo..=hi`, or `current` when none was given.
pub open spec fn given_clamped_or(given: Option<i32>, lo: i32, hi: i32, current: i32) -> i32 {
    match given {
        Some(v) => spec_clamp(v, lo, hi),
        None => current,
    }
}

/// The settings after taking over what the user gave, each limited to the
/// encoder's range.
pub open spec fn spec_apply(c: Config, o: ConfigCliOptions) -> Config {
    Config {
        lossless: given_or(o.lossless, c.lossless),
        method: given_or(o.method, c.method),
        image_hint: given_or(o.image_hint, c.image_hint),
        target_size: given_or(o.target_size, c.target_size),
        segments: given_clamped_or(o.segments, 1, 4, c.segments),
        sns_strength: given_clamped_or(o.sns_strength, 0, 100, c.sns_strength),
        filter_strength: given_clamped_or(o.filter_strength, 0, 100, c.filter_strength),
        filter_sharpness: given_clamped_or(o.filter_sharpness, 0, 7, c.filter_sharpness),
        strong_filter: given_or(o.strong_filter, c.strong_filter),
        autofilter: given_or(o.autofilter, c.autofilter),
        alpha_compression: given_or(o.alpha_compression, c.alpha_compression),
        alpha_filtering: given_or(o.alpha_filtering, c.alpha_filtering),
        alpha_quality: given_clamped_or(o.alpha_quality, 0, 100, c.alpha_quality),
        pass: given_clamped_or(o.pass, 0, 100, c.pass),
        show_compressed: given_or(o.show_compressed, c.show_compressed),
        preprocessing: given_or(o.preprocessing, c.preprocessing),
        partitions: given_clamped_or(o.partitions, 0, 3, c.partitions),
        partition_limit: given_clamped_or(o.partition_limit, 0, 100, c.partition_limit),
        emulate_jpeg_size: given_or(o.emulate_jpeg_size, c.emulate_jpeg_size),
        thread_level: given_or(o.thread_level, c.thread_level),
        low_memory: given_or(o.low_memory, c.low_memory),
        near_lossless: given_clamped_or(o.near_lossless, 0, 100, c.near_lossless),
        exact: given_or(o.exact, c.exact),
        use_delta_palette: given_or(o.use_delta_palette, c.use_delta_palette),
        use_sharp_yuv: given_or(o.use_sharp_yuv, c.use_sharp_yuv),
    }
}

pub fn clamp(v: i32, lo: i32, hi: i32) -> (r: i32)
    ensures
        r == spec_clamp(v, lo, hi),
{
    if v < lo {
        lo
    } else if v > hi {
        hi
    } else {
        v
    }
}

fn given_bool(given: Option<bool>, current: bool) -> (r: bool)
    ensures
        r == given_or(given, current),
{
    match given {
        Some(v) => v,
        None => current,
    }
}

fn given_int(given: Option<i32>, current: i32) -> (r: i32)
    ensures
        r == given_or(given, current),
{
    match given {
        Some(v) => v,
        None => current,
    }
}

fn given_clamped(given: Option<i32>, lo: i32, hi: i32, current: i32) -> (r: i32)
    ensures
        r == given_clamped_or(given, lo, hi, current),
{
    match given {
        Some(v) => clamp(v, lo, hi),
        None => current,
    }
}

impl Config {
    /// Takes over each setting that the user gave, limited to the
    /// encoder's range where it has one.
    #[verifier::rlimit(50)]
    pub fn apply_cli_options(&mut self, opts: &ConfigCliOptions)
        ensures
            *final(self) == spec_apply(*old(self), *opts),
    {
        let c = *self;
        let image_hint = match opts.image_hint {
            Some(h) => h,
            None => c.image_hint,
        };
        let alpha_filtering = match opts.alpha_filtering {
            Some(f) => f,
            None => c.alpha_filtering,
        };
        let preprocessing = match opts.preprocessing {
            Some(p) => p,
            None => c.preprocessing,
        };
        let r = Config {
            lossless: given_bool(opts.lossless, c.lossless),
            method: given_int(opts.method, c.method),
            image_hint,
            target_size: given_int(opts.target_size, c.target_size),
            segments: given_clamped(opts.segments, 1, 4, c.segments),
            sns_strength: given_clamped(opts.sns_strength, 0, 100, c.sns_strength),
            filter_strength: given_clamped(opts.filter_strength, 0, 100, c.filter_strength),
            filter_sharpness: given_clamped(opts.filter_sharpness, 0, 7, c.filter_sharpness),
            strong_filter: given_bool(opts.strong_filter, c.strong_filter),
            autofilter: given_bool(opts.autofilter, c.autofilter),
            alpha_compression: given_bool(opts.alpha_compression, c.alpha_compression),
            alpha_filtering,
            alpha_quality: given_clamped(opts.alpha_quality, 0, 100, c.alpha_quality),
            pass: given_clamped(opts.pass, 0, 100, c.pass),
            show_compressed: given_bool(opts.show_compressed, c.show_compressed),
            preprocessing,
            partitions: given_clamped(opts.partitions, 0, 3, c.partitions),
            partition_limit: given_clamped(opts.partition_limit, 0, 100, c.partition_limit),
            emulate_jpeg_size: given_bool(opts.emulate_jpeg_size, c.emulate_jpeg_size),
            thread_level: given_bool(opts.thread_level, c.thread_level),
            low_memory: given_bool(opts.low_memory, c.low_memory),
            near_lossless: given_clamped(opts.near_lossless, 0, 100, c.near_lossless),
            exact: given_bool(opts.exact, c.exact),
            use_delta_palette: given_bool(opts.use_delta_palette, c.use_delta_palette),
            use_sharp_yuv: given_bool(opts.use_sharp_yuv, c.use_sharp_yuv),
        };
        *self = r;
    }
}

} // verus!
