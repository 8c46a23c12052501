use vstd::prelude::*;

use crate::pixel::PixelFormat;
use crate::run::RunFailure;
use crate::task::{with_extension, EncoderTask};
use crate::webp::errors::{AnimEncoderError, CreateImageError, StillEncoderError};

verus! {

/// The WebP output format.
pub struct WebpEncoderTask;

/// What a WebP run is set up with, besides the user's tuning.
#[derive(Debug, Clone, Copy, PartialEq, Eq, Structural)]
pub struct WebpEncoderConfig {
    pub width: usize,
    pub height: usize,
    /// The end time of the animation.
    pub duration_ms: i32,
}

/// Why a WebP run cannot be set up.
#[derive(Debug, Clone, Copy, PartialEq, Eq, Structural)]
pub enum WebpEncoderConfigError {
    /// The stream has no codec parameters, so no width and height.
    NoCodecPar,
}

/// Why a WebP run failed.
#[derive(Debug)]
pub enum WebpEncoderError {
    StillEncoderError(StillEncoderError),
    AnimEncoderError(AnimEncoderError),
    IoError(std::io::Error),
    /// The channel closed before the still image's frame came.
    NoImageReceived,
    CreateImageError(CreateImageError),
    CreateConfigError,
    CreateAnimEncoderOptions,
    CreateAnimEncoder,
    InvalidConfig,
}

impl EncoderTask for WebpEncoderTask {
    open spec fn spec_accepted_formats() -> Seq<PixelFormat> {
        seq![PixelFormat::YUV420P]
    }

    open spec fn spec_accepted_alpha_formats() -> Seq<PixelFormat> {
        seq![PixelFormat::YUVA420P]
    }

    open spec fn spec_convertible_formats() -> Seq<PixelFormat> {
        seq![PixelFormat::YUV420P, PixelFormat::YUVA420P]
    }

    open spec fn spec_extension() -> Seq<char> {
        "webp"@
    }

    fn accepted_formats() -> (r: Vec<PixelFormat>) {
        let r = vec![PixelFormat::YUV420P];
        assert(r@ =~= Self::spec_accepted_formats());
        r
    }

    fn accepted_alpha_formats() -> (r: Vec<PixelFormat>) {
        let r = vec![PixelFormat::YUVA420P];
        assert(r@ =~= Self::spec_accepted_alpha_formats());
        r
    }

    fn convertible_formats() -> (r: Vec<PixelFormat>) {
        let r = vec![PixelFormat::YUV420P, PixelFormat::YUVA420P];
        assert(r@ =~= Self::spec_convertible_formats());
        r
    }

    fn make_output_path(output_name: &str) -> (r: String) {
        proof {
            reveal_strlit("webp");
        }
        with_extension(output_name, "webp")
    }
}

/// How a frame is laid out for the WebP encoder: 4:2:0, with or without an
/// alpha plane.
#[derive(Debug, Clone, Copy, PartialEq, Eq, Structural)]
pub struct WebpLayout {
    pub is_alpha: bool,
}

impl WebpLayout {
    /// The number of planes that a frame of this layout has.
    pub fn planes(self) -> (r: usize)
        ensures
            r == (if self.is_alpha { 4usize } else { 3usize }),
    {
        if self.is_alpha {
            4
        } else {
            3
        }
    }
}

pub open spec fn spec_webp_layout(format: PixelFormat) -> Result<WebpLayout, CreateImageError> {
    match format {
        PixelFormat::YUV420P => Ok(WebpLayout { is_alpha: false }),
        PixelFormat::YUVA420P => Ok(WebpLayout { is_alpha: true }),
        _ => Err(CreateImageError::InvalidPixelFormat),
    }
}

impl WebpEncoderTask {
    /// The layout in which a frame of `format` is handed to the encoder; a
    /// format other than 4:2:0 planar is refused.
    pub fn image_layout(format: PixelFormat) -> (r: Result<WebpLayout, CreateImageError>)
        ensures
            r == spec_webp_layout(format),
            r is Ok <==> Self::spec_convertible_formats().contains(format),
    {
        let r = match format {
            PixelFormat::YUV420P => Ok(WebpLayout { is_alpha: false }),
            PixelFormat::YUVA420P => Ok(WebpLayout { is_alpha: true }),
            _ => Err(CreateImageError::InvalidPixelFormat),
        };
        proof {
            let c = Self::spec_convertible_formats();
            assert(c[0] == PixelFormat::YUV420P);
            assert(c[1] == PixelFormat::YUVA420P);
        }
        r
    }

    /// Derives the configuration from the stream's codec parameters (width
    /// and height, when present) and its length in milliseconds.
    pub fn configure(codec_size: Option<(i32, i32)>, duration_ms: i64) -> (r: Result<WebpEncoderConfig, WebpEncoderConfigError>)
        ensures
            r == (match codec_size {
                Some((w, h)) => Ok(WebpEncoderConfig {
                    width: w as usize,
                    height: h as usize,
                    duration_ms: duration_ms as i32,
                }),
                None => Err(WebpEncoderConfigError::NoCodecPar),
            }),
    {
        match codec_size {
            Some((w, h)) => Ok(WebpEncoderConfig { width: w as usize, height: h as usize, duration_ms: duration_ms as i32 }),
            None => Err(WebpEncoderConfigError::NoCodecPar),
        }
    }
}

impl WebpEncoderError {
    /// The error of a failed run.
    pub fn from_failure(failure: RunFailure<WebpEncoderError>) -> (r: WebpEncoderError)
        ensures
            r == (match failure {
                RunFailure::NoImageReceived => WebpEncoderError::NoImageReceived,
                RunFailure::UnsupportedFormat(_) => WebpEncoderError::CreateImageError(
                    CreateImageError::InvalidPixelFormat,
                ),
                RunFailure::Backend(e) => e,
            }),
    {
        match failure {
            RunFailure::NoImageReceived => WebpEncoderError::NoImageReceived,
            RunFailure::UnsupportedFormat(_) => WebpEncoderError::CreateImageError(CreateImageError::InvalidPixelFormat),
            RunFailure::Backend(e) => e,
        }
    }
}

} // verus!
