use vid2img::cli::BackgroundColor;
use vid2img::webp::errors::CreateImageError;
use vid2img::webp::options::{distance_from_trimmed, AnimCliOptions, AnimEncoderOptions, KeyframeDistance};
use vid2img::webp::task::{WebpEncoderConfig, WebpEncoderConfigError, WebpEncoderTask, WebpLayout};
use vid2img::webp::types::{AlphaFiltering, ImageHint, PreprocessingFilter, Preset};
use vid2img::pixel::PixelFormat;

fn defaults() -> AnimEncoderOptions {
    AnimEncoderOptions { minimize_size: false, kmin: 0, kmax: 0, allow_mixed: false, bgcolor: 0xffff_ffff, loop_count: 0 }
}

#[test]
fn keyframe_distance_words() {
    assert_eq!(KeyframeDistance::parse("disabled"), Ok(KeyframeDistance::Disabled));
    for s in ["allframes", "all-frames", "allFrames", "all_frames"] {
        assert_eq!(s.parse::<KeyframeDistance>(), Ok(KeyframeDistance::AllFrames));
    }
}

#[test]
fn keyframe_distance_ranges() {
    assert_eq!(KeyframeDistance::parse("3..5"), Ok(KeyframeDistance::MinMax(3, 5)));
    assert_eq!(KeyframeDistance::parse(" 3 .. 5 "), Ok(KeyframeDistance::MinMax(3, 5)));
    assert_eq!(KeyframeDistance::parse("4,9"), Ok(KeyframeDistance::MinMax(4, 9)));
    assert_eq!(KeyframeDistance::parse("+4, 9"), Ok(KeyframeDistance::MinMax(4, 9)));
    assert_eq!(KeyframeDistance::parse("x..2..7"), Ok(KeyframeDistance::MinMax(2, 7)));
}

#[test]
fn keyframe_distance_trims_unicode_white_space() {
    assert_eq!(KeyframeDistance::parse("\u{3000}3\u{a0}..\t5\n"), Ok(KeyframeDistance::MinMax(3, 5)));
    assert_eq!(KeyframeDistance::parse("3\u{200b}..5"), Err("no max".to_string()));
}

#[test]
fn distance_from_trimmed_pieces() {
    assert_eq!(distance_from_trimmed(&vec!["3", "5"]), Ok(KeyframeDistance::MinMax(3, 5)));
    assert_eq!(distance_from_trimmed(&vec!["x", "7", "+8", "9"]), Ok(KeyframeDistance::MinMax(7, 8)));
    assert_eq!(distance_from_trimmed(&vec![" 3", "5"]), Err("no max".to_string()));
    assert_eq!(distance_from_trimmed(&vec!["4294967296", "1"]), Err("no max".to_string()));
    assert_eq!(distance_from_trimmed(&vec![]), Err("no min".to_string()));
}

#[test]
fn keyframe_distance_errors() {
    assert_eq!(KeyframeDistance::parse("3.."), Err("no max".to_string()));
    assert_eq!(KeyframeDistance::parse(".."), Err("no min".to_string()));
    assert_eq!(KeyframeDistance::parse("a,b"), Err("no min".to_string()));
    assert_eq!(KeyframeDistance::parse("-1..5"), Err("no max".to_string()));
    assert_eq!(KeyframeDistance::parse("1...7"), Err("no max".to_string()));
    assert_eq!(
        KeyframeDistance::parse("often"),
        Err("Invalid distance, try 'disabled', 'all-frames', or '3..5'".to_string())
    );
    assert!(KeyframeDistance::parse("Disabled").is_err());
}

#[test]
fn keyframe_distance_pairs() {
    assert_eq!(KeyframeDistance::Disabled.to_pair(), (-1, 0));
    assert_eq!(KeyframeDistance::AllFrames.to_pair(), (0, 1));
    assert_eq!(KeyframeDistance::MinMax(3, 9).to_pair(), (3, 9));
    assert_eq!(KeyframeDistance::from_pair((-1, 0)), KeyframeDistance::Disabled);
    assert_eq!(KeyframeDistance::from_pair((5, -3)), KeyframeDistance::Disabled);
    assert_eq!(KeyframeDistance::from_pair((0, 1)), KeyframeDistance::AllFrames);
    assert_eq!(KeyframeDistance::from_pair((3, 9)), KeyframeDistance::MinMax(3, 9));
}

#[test]
fn background_color_texts() {
    assert_eq!(BackgroundColor::parse("#ff8000"), Ok(BackgroundColor([255, 255, 128, 0])));
    assert_eq!(BackgroundColor::parse("#80FF8000"), Ok(BackgroundColor([128, 255, 128, 0])));
    assert_eq!("#0a0B0c".parse::<BackgroundColor>(), Ok(BackgroundColor([255, 10, 11, 12])));
    assert_eq!(BackgroundColor::parse("ff8000"), Err("Expected #abcdef, or #abcdef01".to_string()));
    assert_eq!(BackgroundColor::parse("#ff80"), Err("Expected #abcdef, or #abcdef01".to_string()));
    assert!(BackgroundColor::parse("#gg8000").is_err());
    assert!(BackgroundColor::parse("").is_err());
}

#[test]
fn animation_options_take_what_was_given() {
    let mut o = defaults();
    o.apply_cli_options(&AnimCliOptions {
        minimize_size: Some(true),
        keyframe_distance: Some(KeyframeDistance::MinMax(2, 8)),
        allow_mixed: None,
        background_color: Some(BackgroundColor([0x80, 1, 2, 3])),
        loop_count: Some(3),
    });
    assert_eq!(
        o,
        AnimEncoderOptions { minimize_size: true, kmin: 2, kmax: 8, allow_mixed: false, bgcolor: 0x8001_0203, loop_count: 3 }
    );
    assert_eq!(o.background_color(), [0x80, 1, 2, 3]);
    assert_eq!(o.keyframe_distance(), KeyframeDistance::MinMax(2, 8));
    let mut p = defaults();
    p.apply_cli_options(&AnimCliOptions {
        minimize_size: None,
        keyframe_distance: None,
        allow_mixed: Some(true),
        background_color: None,
        loop_count: None,
    });
    assert_eq!(p, AnimEncoderOptions { allow_mixed: true, ..defaults() });
    assert!(p.allow_mixed() && !p.minimize_size() && p.loop_count() == 0);
}

#[test]
fn webp_reads_420_frames_only() {
    assert_eq!(WebpEncoderTask::image_layout(PixelFormat::YUV420P), Ok(WebpLayout { is_alpha: false }));
    assert_eq!(WebpEncoderTask::image_layout(PixelFormat::YUVA420P), Ok(WebpLayout { is_alpha: true }));
    assert_eq!(WebpEncoderTask::image_layout(PixelFormat::YUV444P), Err(CreateImageError::InvalidPixelFormat));
    assert_eq!(WebpLayout { is_alpha: true }.planes(), 4);
    assert_eq!(WebpLayout { is_alpha: false }.planes(), 3);
}

#[test]
fn webp_configuration_needs_codec_parameters() {
    assert_eq!(WebpEncoderTask::configure(None, 1000), Err(WebpEncoderConfigError::NoCodecPar));
    assert_eq!(
        WebpEncoderTask::configure(Some((640, 480)), 3_000),
        Ok(WebpEncoderConfig { width: 640, height: 480, duration_ms: 3000 })
    );
}

#[test]
fn webp_enum_codes() {
    assert_eq!(ImageHint::Graph.code(), libwebp_sys::WebPImageHint::WEBP_HINT_GRAPH as u32);
    assert_eq!(ImageHint::from_code(2), Some(ImageHint::Photo));
    assert_eq!(ImageHint::from_code(5), None);
    assert_eq!(Preset::Text.code(), libwebp_sys::WebPPreset::WEBP_PRESET_TEXT as u32);
    assert_eq!(Preset::Default.code(), libwebp_sys::WebPPreset::WEBP_PRESET_DEFAULT as u32);
    assert_eq!(AlphaFiltering::from_code(2), AlphaFiltering::Best);
    assert_eq!(AlphaFiltering::from_code(9), AlphaFiltering::Fast);
    assert_eq!(AlphaFiltering::Off.code(), 0);
    assert_eq!(PreprocessingFilter::from_code(1), PreprocessingFilter::SegmentSmooth);
    assert_eq!(PreprocessingFilter::from_code(-4), PreprocessingFilter::Off);
    assert_eq!(PreprocessingFilter::PseudoRandomDithering.code(), 2);
}
