use vstd::prelude::*;

verus! {

/// Why the animation encoder failed.
#[derive(Debug)]
pub enum AnimEncoderError {
    /// The encoder reported an error whose text is not UTF-8.
    InvalidErrorString,
    /// The encoder's own description of its error.
    EncoderError(String),
}

/// The still encoder's error code, carried through as it is.
#[verifier::external_type_specification]
#[verifier::external_body]
pub struct ExWebPEncodingError(libwebp_sys::WebPEncodingError);

/// Why the still encoder failed.
#[derive(Debug)]
pub enum StillEncoderError {
    /// The encoder's error code.
    EncodingError(libwebp_sys::WebPEncodingError),
    /// The output sink failed.
    IoError(std::io::Error),
    /// The output sink handed to the encoder was lost.
    CorruptedUserData,
}

/// Why a frame could not be made into an encoder picture.
#[derive(Debug, Clone, Copy, PartialEq, Eq, Structural)]
pub enum CreateImageError {
    InvalidPixelFormat,
    CannotCreateImage,
}

} // verus!
