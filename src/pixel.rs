use vstd::prelude::*;

verus! {

/// A pixel layout of a decoded frame.
///
/// The layouts that the encoders and the negotiation name have a variant of
/// their own; any other layout of the decoder is carried by its raw code.
#[derive(Debug, Clone, Copy, PartialEq, Eq, Structural)]
pub enum PixelFormat {
    YUV420P,
    YUV422P,
    YUV444P,
    YUVA420P,
    YUVA422P,
    YUVA444P,
    ARGB,
    ABGR,
    BGRA,
    RGBA,
    RGB24,
    BGR24,
    GRAY8,
    NV12,
    Other(i32),
}

/// The layouts that carry an alpha channel.
pub open spec fn spec_is_alpha_format(format: PixelFormat) -> bool {
    match format {
        PixelFormat::ARGB | PixelFormat::ABGR | PixelFormat::BGRA | PixelFormat::RGBA
        | PixelFormat::YUVA444P | PixelFormat::YUVA420P | PixelFormat::YUVA422P => true,
        _ => false,
    }
}

/// Whether `format` carries an alpha channel.
pub fn is_alpha_format(format: PixelFormat) -> (r: bool)
    ensures
        r == spec_is_alpha_format(format),
{
    match format {
        PixelFormat::ARGB | PixelFormat::ABGR | PixelFormat::BGRA | PixelFormat::RGBA
        | PixelFormat::YUVA444P | PixelFormat::YUVA420P | PixelFormat::YUVA422P => true,
        _ => false,
    }
}

/// Whether `list` holds `format`.
pub fn contains_format(list: &Vec<PixelFormat>, format: PixelFormat) -> (r: bool)
    ensures
        r == list@.contains(format),
{
    let mut i: usize = 0;
    while i < list.len()
        invariant
            0 <= i <= list.len(),
            forall|j: int| 0 <= j < i ==> list@[j] != format,
        decreases list.len() - i,
    {
        if list[i] == format {
            return true;
        }
        i = i + 1;
    }
    false
}

} // verus!
