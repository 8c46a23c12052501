use vstd::prelude::*;

use crate::pixel::{contains_format, is_alpha_format, spec_is_alpha_format, PixelFormat};

verus! {

/// The pixel formats that an encoder task consumes directly: one ordered list
/// for opaque content and one for content with alpha. The first entry of each
/// list is the format that frames are converted to.
pub struct AcceptedFormats {
    pub regular: Vec<PixelFormat>,
    pub alpha: Vec<PixelFormat>,
}

/// What the decoder output needs before it reaches the encoder.
#[derive(Debug, Clone, Copy, PartialEq, Eq, Structural)]
pub enum Conversion {
    /// The decoder's format is accepted as it is.
    PassThrough,
    /// Frames are resampled to this format.
    ResampleTo(PixelFormat),
}

impl AcceptedFormats {
    /// A format passes when either list holds it.
    pub open spec fn spec_passes(&self, format: PixelFormat) -> bool {
        self.regular@.contains(format) || self.alpha@.contains(format)
    }

    /// The conversion target: the head of the alpha list for a format with
    /// alpha, the head of the opaque list otherwise.
    pub open spec fn spec_select(&self, src_format: PixelFormat) -> Option<PixelFormat> {
        let list = if spec_is_alpha_format(src_format) {
            self.alpha@
        } else {
            self.regular@
        };
        if list.len() > 0 {
            Some(list[0])
        } else {
            None
        }
    }

    /// What a decoder that produces `src_format` needs; `None` when no target
    /// can be chosen.
    pub open spec fn spec_conversion(&self, src_format: PixelFormat) -> Option<Conversion> {
        if self.spec_passes(src_format) {
            Some(Conversion::PassThrough)
        } else {
            match self.spec_select(src_format) {
                Some(target) => Some(Conversion::ResampleTo(target)),
                None => None,
            }
        }
    }

    pub fn passes(&self, fmt: PixelFormat) -> (r: bool)
        ensures
            r == self.spec_passes(fmt),
    {
        contains_format(&self.regular, fmt) || contains_format(&self.alpha, fmt)
    }

    pub fn select(&self, src_format: PixelFormat) -> (r: Option<PixelFormat>)
        ensures
            r == self.spec_select(src_format),
    {
        let list = if is_alpha_format(src_format) {
            &self.alpha
        } else {
            &self.regular
        };
        if list.len() > 0 {
            Some(list[0])
        } else {
            None
        }
    }

    /// Decides once, for the decoder's format, whether frames pass through
    /// or are resampled, and to which format.
    pub fn conversion_for(&self, src_format: PixelFormat) -> (r: Option<Conversion>)
        ensures
            r == self.spec_conversion(src_format),
    {
        if self.passes(src_format) {
            Some(Conversion::PassThrough)
        } else {
            match self.select(src_format) {
                Some(target) => Some(Conversion::ResampleTo(target)),
                None => None,
            }
        }
    }
}

/// `select` takes its result from the list that matches the source format:
/// the alpha list for the enumerated alpha formats, the opaque list for all
/// others; it has no result only when that list is empty.
pub proof fn select_picks_from_matching_list(accepted: AcceptedFormats, src_format: PixelFormat)
    ensures
        spec_is_alpha_format(src_format) ==> match accepted.spec_select(src_format) {
            Some(f) => accepted.alpha@.len() > 0 && f == accepted.alpha@[0]
                && accepted.alpha@.contains(f),
            None => accepted.alpha@.len() == 0,
        },
        !spec_is_alpha_format(src_format) ==> match accepted.spec_select(src_format) {
            Some(f) => accepted.regular@.len() > 0 && f == accepted.regular@[0]
                && accepted.regular@.contains(f),
            None => accepted.regular@.len() == 0,
        },
{
    if spec_is_alpha_format(src_format) && accepted.alpha@.len() > 0 {
        assert(accepted.alpha@.contains(accepted.alpha@[0]));
    }
    if !spec_is_alpha_format(src_format) && accepted.regular@.len() > 0 {
        assert(accepted.regular@.contains(accepted.regular@[0]));
    }
}

/// A format that either list already holds is passed through: no resampler
/// is built for it.
pub proof fn accepted_format_passes_through(accepted: AcceptedFormats, src_format: PixelFormat)
    requires
        accepted.regular@.contains(src_format) || accepted.alpha@.contains(src_format),
    ensures
        accepted.spec_conversion(src_format) == Some(Conversion::PassThrough),
{
}

} // verus!
