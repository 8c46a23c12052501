use vid2img::avif::codec::Codec;
use vid2img::avif::error::Error;
use vid2img::avif::settings::Encoder;
use vid2img::avif::task::{encoder_settings, make_encoder, AvifEncoderConfig, AvifEncoderTask, AvifLayout};
use vid2img::cli::AvifOptions;
use vid2img::pixel::PixelFormat;
use vid2img::timing::Rational;

fn options(max_threads: Option<usize>) -> AvifOptions {
    AvifOptions { codec: Codec::Rav1e, quantizer: 70, quantizer_alpha: 12, speed: 200, max_threads }
}

#[test]
fn result_codes_map_to_errors() {
    assert_eq!(Error::from_code(0), Ok(()));
    assert_eq!(Error::from_code(1), Err(Error::UnknownError));
    assert_eq!(Error::from_code(10), Err(Error::NoAv1ItemsFound));
    assert_eq!(Error::from_code(15), Err(Error::NoCodecAvailable));
    assert_eq!(Error::from_code(25), Err(Error::NotImplemented));
    assert_eq!(Error::from_code(26), Err(Error::OtherLibav(26)));
    assert_eq!(Error::from_code(999), Err(Error::OtherLibav(999)));
}

#[test]
fn codec_choices_round_trip() {
    for c in [Codec::Auto, Codec::Aom, Codec::Dav1d, Codec::LibGav1, Codec::Rav1e, Codec::Svt] {
        assert_eq!(Codec::from_choice(c.to_choice()), c);
    }
    assert_eq!(Codec::Svt.to_choice(), 5);
    assert_eq!(Codec::from_choice(6), Codec::Auto);
}

#[test]
fn timescale_is_inverse_time_base() {
    let c = AvifEncoderTask::configure(options(None), Rational { num: 1, den: 30 });
    assert_eq!(c.timescale, 30);
    let c = AvifEncoderTask::configure(options(None), Rational { num: 1001, den: 30000 });
    assert_eq!(c.timescale, 29);
    assert_eq!(c.args, options(None));
}

#[test]
fn settings_are_clamped() {
    let config = AvifEncoderConfig { args: options(Some(0)), timescale: 25 };
    let s = encoder_settings(&config, 8);
    assert_eq!(
        s,
        Encoder {
            max_threads: 1,
            min_quantizer: 63,
            max_quantizer: 63,
            min_quantizer_alpha: 12,
            max_quantizer_alpha: 12,
            speed: 10,
            timescale: 25,
            codec: Codec::Rav1e,
        }
    );
    assert_eq!(s.quantizer(), 63);
    assert_eq!((s.max_threads(), s.speed(), s.timescale(), s.codec()), (1, 10, 25, Codec::Rav1e));
    assert_eq!(s.quantizer_alpha(), 12);
    assert_eq!(encoder_settings(&AvifEncoderConfig { args: options(None), timescale: 25 }, 8).max_threads, 8);
}

#[test]
fn thread_limit_from_options_or_cpus() {
    let given = make_encoder(&AvifEncoderConfig { args: options(Some(3)), timescale: 1 });
    assert_eq!(given.max_threads, 3);
    let auto = make_encoder(&AvifEncoderConfig { args: options(None), timescale: 1 });
    assert!(auto.max_threads >= 1);
}

#[test]
fn setters_clamp_and_keep_other_fields() {
    let mut s = encoder_settings(&AvifEncoderConfig { args: options(Some(2)), timescale: 1 }, 1);
    s.set_quantizer(5);
    s.set_speed(4);
    s.set_max_threads(0);
    s.set_timescale(90000);
    s.set_codec(Codec::Aom);
    s.set_quantizer_alpha(64);
    assert_eq!((s.min_quantizer, s.max_quantizer, s.speed, s.max_threads), (5, 5, 4, 1));
    assert_eq!((s.timescale, s.codec, s.min_quantizer_alpha), (90000, Codec::Aom, 63));
}

#[test]
fn avif_reads_planar_yuv_frames() {
    assert_eq!(AvifEncoderTask::image_layout(PixelFormat::YUV420P), Some(AvifLayout::Yuv420));
    assert_eq!(AvifEncoderTask::image_layout(PixelFormat::YUV422P), Some(AvifLayout::Yuv422));
    assert_eq!(AvifEncoderTask::image_layout(PixelFormat::YUVA444P), Some(AvifLayout::Yuv444Alpha));
    assert_eq!(AvifLayout::Yuv444Alpha.planes(), 4);
    assert_eq!(AvifLayout::Yuv444.planes(), 3);
    assert_eq!(AvifEncoderTask::image_layout(PixelFormat::YUVA420P), None);
}
