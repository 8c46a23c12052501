use vstd::prelude::*;

use crate::avif::error::Error;
use crate::avif::settings::{
    quantizer_value, spec_quantizer, spec_speed, spec_thread_limit, speed_value, thread_limit,
    Encoder,
};
use crate::cli::AvifOptions;
use crate::pixel::PixelFormat;
use crate::run::RunFailure;
use crate::task::{with_extension, EncoderTask};
use crate::timing::{div_trunc, trunc_div, Rational};

verus! {

/// The AVIF output format.
pub struct AvifEncoderTask;

/// What an AVIF run is set up with.
#[derive(Debug, Clone, Copy, PartialEq, Eq, Structural)]
pub struct AvifEncoderConfig {
    pub args: AvifOptions,
    /// Ticks per second of the image sequence.
    pub timescale: u64,
}

/// What a finished AVIF run reports.
pub struct AvifEncoderStats {
    pub bytes_written: usize,
    /// The encoder's settings and statistics, as text.
    pub encoder_data: String,
}

/// Why an AVIF run failed.
#[derive(Debug)]
pub enum AvifEncoderError {
    Encoder(Error),
    IoError(std::io::Error),
    /// A frame's format cannot be handed to the encoder.
    FrameConversion(PixelFormat),
    CannotCreateEncoder,
    /// The channel closed before the still image's frame came.
    NoImageReceived,
}

impl EncoderTask for AvifEncoderTask {
    open spec fn spec_accepted_formats() -> Seq<PixelFormat> {
        seq![PixelFormat::YUV444P, PixelFormat::YUV420P, PixelFormat::YUV422P]
    }

    open spec fn spec_accepted_alpha_formats() -> Seq<PixelFormat> {
        seq![PixelFormat::YUVA444P]
    }

    open spec fn spec_convertible_formats() -> Seq<PixelFormat> {
        seq![PixelFormat::YUV420P, PixelFormat::YUV422P, PixelFormat::YUV444P, PixelFormat::YUVA444P]
    }

    open spec fn spec_extension() -> Seq<char> {
        "avif"@
    }

    fn accepted_formats() -> (r: Vec<PixelFormat>) {
        let r = vec![PixelFormat::YUV444P, PixelFormat::YUV420P, PixelFormat::YUV422P];
        assert(r@ =~= Self::spec_accepted_formats());
        r
    }

    fn accepted_alpha_formats() -> (r: Vec<PixelFormat>) {
        let r = vec![PixelFormat::YUVA444P];
        assert(r@ =~= Self::spec_accepted_alpha_formats());
        r
    }

    fn convertible_formats() -> (r: Vec<PixelFormat>) {
        let r = vec![PixelFormat::YUV420P, PixelFormat::YUV422P, PixelFormat::YUV444P, PixelFormat::YUVA444P];
        assert(r@ =~= Self::spec_convertible_formats());
        r
    }

    fn make_output_path(output_name: &str) -> (r: String) {
        proof {
            reveal_strlit("avif");
        }
        with_extension(output_name, "avif")
    }
}

/// The planar layout that the AVIF encoder reads a frame in.
#[derive(Debug, Clone, Copy, PartialEq, Eq, Structural)]
pub enum AvifLayout {
    Yuv420,
    Yuv422,
    Yuv444,
    /// 4:4:4 with an alpha plane.
    Yuv444Alpha,
}

impl AvifLayout {
    /// The number of planes that a frame of this layout has.
    pub open spec fn spec_planes(self) -> usize {
        match self {
            AvifLayout::Yuv444Alpha => 4,
            _ => 3,
        }
    }

    pub fn planes(self) -> (r: usize)
        ensures
            r == self.spec_planes(),
    {
        match self {
            AvifLayout::Yuv444Alpha => 4,
            _ => 3,
        }
    }
}

pub open spec fn spec_avif_layout(format: PixelFormat) -> Option<AvifLayout> {
    match format {
        PixelFormat::YUV420P => Some(AvifLayout::Yuv420),
        PixelFormat::YUV422P => Some(AvifLayout::Yuv422),
        PixelFormat::YUV444P => Some(AvifLayout::Yuv444),
        PixelFormat::YUVA444P => Some(AvifLayout::Yuv444Alpha),
        _ => None,
    }
}

impl AvifEncoderTask {
    /// The layout in which a frame of `format` is handed to the encoder, if
    /// the encoder can read it.
    pub fn image_layout(format: PixelFormat) -> (r: Option<AvifLayout>)
        ensures
            r == spec_avif_layout(format),
            r is Some <==> Self::spec_convertible_formats().contains(format),
    {
        let r = match format {
            PixelFormat::YUV420P => Some(AvifLayout::Yuv420),
            PixelFormat::YUV422P => Some(AvifLayout::Yuv422),
            PixelFormat::YUV444P => Some(AvifLayout::Yuv444),
            PixelFormat::YUVA444P => Some(AvifLayout::Yuv444Alpha),
            _ => None,
        };
        proof {
            let c = Self::spec_convertible_formats();
            assert(c[0] == PixelFormat::YUV420P);
            assert(c[1] == PixelFormat::YUV422P);
            assert(c[2] == PixelFormat::YUV444P);
            assert(c[3] == PixelFormat::YUVA444P);
        }
        r
    }

    /// Derives the configuration: the sequence's timescale is the time base
    /// turned upside down, `den / num`, rounded toward zero.
    pub fn configure(args: AvifOptions, time_base: Rational) -> (r: AvifEncoderConfig)
        requires
            time_base.num != 0,
        ensures
            r.args == args,
            r.timescale == trunc_div(time_base.den as int, time_base.num as int) as u64,
    {
        let ticks = div_trunc(time_base.den as i64, time_base.num as i64);
        AvifEncoderConfig { args, timescale: ticks as u64 }
    }
}

/// The encoder settings of a run on a machine with `cpus` processors.
pub open spec fn spec_encoder_settings(config: AvifEncoderConfig, cpus: usize) -> Encoder {
    Encoder {
        max_threads: spec_thread_limit(
            match config.args.max_threads {
                Some(n) => n,
                None => cpus,
            },
        ),
        min_quantizer: spec_quantizer(config.args.quantizer),
        max_quantizer: spec_quantizer(config.args.quantizer),
        min_quantizer_alpha: spec_quantizer(config.args.quantizer_alpha),
        max_quantizer_alpha: spec_quantizer(config.args.quantizer_alpha),
        speed: spec_speed(config.args.speed),
        timescale: config.timescale,
        codec: config.args.codec,
    }
}

/// The encoder settings of a run, where the thread limit falls back to
/// `cpus` when the options give none.
pub fn encoder_settings(config: &AvifEncoderConfig, cpus: usize) -> (r: Encoder)
    ensures
        r == spec_encoder_settings(*config, cpus),
{
    let threads = match config.args.max_threads {
        Some(n) => n,
        None => cpus,
    };
    let q = quantizer_value(config.args.quantizer);
    let qa = quantizer_value(config.args.quantizer_alpha);
    Encoder {
        max_threads: thread_limit(threads),
        min_quantizer: q,
        max_quantizer: q,
        min_quantizer_alpha: qa,
        max_quantizer_alpha: qa,
        speed: speed_value(config.args.speed),
        timescale: config.timescale,
        codec: config.args.codec,
    }
}

/// Relies on `num_cpus::get`: the number of CPUs available to this process,
/// which its documentation promises is at least one.
#[verifier::external_body]
fn available_cpus() -> (r: usize)
    ensures
        r >= 1,
{
    num_cpus::get()
}

/// The encoder settings of a run; without a thread limit in the options the
/// encoder may use every available CPU.
pub fn make_encoder(config: &AvifEncoderConfig) -> (r: Encoder)
    ensures
        config.args.max_threads is Some ==> r == spec_encoder_settings(*config, 0),
        config.args.max_threads is None ==> exists|cpus: usize|
            cpus >= 1 && r == #[trigger] spec_encoder_settings(*config, cpus),
{
    match config.args.max_threads {
        Some(_) => encoder_settings(config, 0),
        None => {
            let cpus = available_cpus();
            let r = encoder_settings(config, cpus);
            assert(cpus >= 1 && r == spec_encoder_settings(*config, cpus));
            r
        },
    }
}

impl AvifEncoderError {
    /// The error of a failed run.
    pub fn from_failure(failure: RunFailure<AvifEncoderError>) -> (r: AvifEncoderError)
        ensures
            r == (match failure {
                RunFailure::NoImageReceived => AvifEncoderError::NoImageReceived,
                RunFailure::UnsupportedFormat(f) => AvifEncoderError::FrameConversion(f),
                RunFailure::Backend(e) => e,
            }),
    {
        match failure {
            RunFailure::NoImageReceived => AvifEncoderError::NoImageReceived,
            RunFailure::UnsupportedFormat(f) => AvifEncoderError::FrameConversion(f),
            RunFailure::Backend(e) => e,
        }
    }
}

} // verus!
