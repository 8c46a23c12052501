use vstd::prelude::*;

verus! {

/// The errors that the AVIF encoder reports.
#[derive(Debug, Clone, Copy, PartialEq, Eq, Structural)]
pub enum Error {
    UnknownError,
    InvalidFtyp,
    NoContent,
    NoYuvFormatSelected,
    ReformatFailed,
    UnsupportedDepth,
    EncodeColorFailed,
    EncodeAlphaFailed,
    BmffParseFailed,
    NoAv1ItemsFound,
    DecodeColorFailed,
    DecodeAlphaFailed,
    ColorAlphaSizeMismatch,
    IspeSizeMismatch,
    NoCodecAvailable,
    NoImagesRemaining,
    InvalidExifPayload,
    InvalidImageGrid,
    InvalidCodecSpecificOption,
    TruncatedData,
    IoNotSet,
    IoError,
    WaitingOnIo,
    InvalidArgument,
    NotImplemented,
    /// The encoder failed with a result code that has no variant of its own.
    OtherLibav(u32),
}

/// The error of a result code; code 0 is success.
pub open spec fn spec_error_of(code: u32) -> Option<Error> {
    if code == 0 {
        None
    } else {
        Some(
            match code {
                1 => Error::UnknownError,
                2 => Error::InvalidFtyp,
                3 => Error::NoContent,
                4 => Error::NoYuvFormatSelected,
                5 => Error::ReformatFailed,
                6 => Error::UnsupportedDepth,
                7 => Error::EncodeColorFailed,
                8 => Error::EncodeAlphaFailed,
                9 => Error::BmffParseFailed,
                10 => Error::NoAv1ItemsFound,
                11 => Error::DecodeColorFailed,
                12 => Error::DecodeAlphaFailed,
                13 => Error::ColorAlphaSizeMismatch,
                14 => Error::IspeSizeMismatch,
                15 => Error::NoCodecAvailable,
                16 => Error::NoImagesRemaining,
                17 => Error::InvalidExifPayload,
                18 => Error::InvalidImageGrid,
                19 => Error::InvalidCodecSpecificOption,
                20 => Error::TruncatedData,
                21 => Error::IoNotSet,
                22 => Error::IoError,
                23 => Error::WaitingOnIo,
                24 => Error::InvalidArgument,
                25 => Error::NotImplemented,
                _ => Error::OtherLibav(code),
            },
        )
    }
}

impl Error {
    /// Reads a result code of the encoder: `Ok` for success, else its error.
    pub fn from_code(code: u32) -> (r: Result<(), Error>)
        ensures
            r == (match spec_error_of(code) {
                None => Ok(()),
                Some(e) => Err(e),
            }),
    {
        match code {
            0 => Ok(()),
            1 => Err(Error::UnknownError),
            2 => Err(Error::InvalidFtyp),
            3 => Err(Error::NoContent),
            4 => Err(Error::NoYuvFormatSelected),
            5 => Err(Error::ReformatFailed),
            6 => Err(Error::UnsupportedDepth),
            7 => Err(Error::EncodeColorFailed),
            8 => Err(Error::EncodeAlphaFailed),
            9 => Err(Error::BmffParseFailed),
            10 => Err(Error::NoAv1ItemsFound),
            11 => Err(Error::DecodeColorFailed),
            12 => Err(Error::DecodeAlphaFailed),
            13 => Err(Error::ColorAlphaSizeMismatch),
            14 => Err(Error::IspeSizeMismatch),
            15 => Err(Error::NoCodecAvailable),
            16 => Err(Error::NoImagesRemaining),
            17 => Err(Error::InvalidExifPayload),
            18 => Err(Error::InvalidImageGrid),
            19 => Err(Error::InvalidCodecSpecificOption),
            20 => Err(Error::TruncatedData),
            21 => Err(Error::IoNotSet),
            22 => Err(Error::IoError),
            23 => Err(Error::WaitingOnIo),
            24 => Err(Error::InvalidArgument),
            25 => Err(Error::NotImplemented),
            _ => Err(Error::OtherLibav(code)),
        }
    }
}

} // verus!
