use vid2img::formats::{AcceptedFormats, Conversion};
use vid2img::frames::{
    extract_duration_ms, extract_frames, frame_timing, plan_conversion, route_packet, FfmpegError,
    PacketRoute,
};
use vid2img::pixel::{is_alpha_format, PixelFormat};
use vid2img::task::EncoderTask;
use vid2img::timing::{Rational, TimingData};
use vid2img::avif::task::AvifEncoderTask;
use vid2img::webp::task::WebpEncoderTask;

fn accepted(regular: Vec<PixelFormat>, alpha: Vec<PixelFormat>) -> AcceptedFormats {
    AcceptedFormats { regular, alpha }
}

#[test]
fn select_takes_head_of_opaque_list_for_opaque_input() {
    let a = accepted(vec![PixelFormat::YUV444P, PixelFormat::YUV420P], vec![PixelFormat::YUVA444P]);
    assert_eq!(a.select(PixelFormat::NV12), Some(PixelFormat::YUV444P));
    assert_eq!(a.select(PixelFormat::Other(77)), Some(PixelFormat::YUV444P));
}

#[test]
fn select_takes_head_of_alpha_list_for_each_alpha_format() {
    let a = accepted(vec![PixelFormat::YUV420P], vec![PixelFormat::YUVA420P, PixelFormat::YUVA444P]);
    for f in [
        PixelFormat::ARGB,
        PixelFormat::ABGR,
        PixelFormat::BGRA,
        PixelFormat::RGBA,
        PixelFormat::YUVA444P,
        PixelFormat::YUVA420P,
        PixelFormat::YUVA422P,
    ] {
        assert!(is_alpha_format(f));
        assert_eq!(a.select(f), Some(PixelFormat::YUVA420P));
    }
    assert!(!is_alpha_format(PixelFormat::RGB24));
}

#[test]
fn select_is_none_only_for_empty_relevant_list() {
    let no_alpha = accepted(vec![PixelFormat::YUV420P], vec![]);
    assert_eq!(no_alpha.select(PixelFormat::RGBA), None);
    assert_eq!(no_alpha.select(PixelFormat::RGB24), Some(PixelFormat::YUV420P));
    let no_opaque = accepted(vec![], vec![PixelFormat::YUVA420P]);
    assert_eq!(no_opaque.select(PixelFormat::RGB24), None);
    assert_eq!(no_opaque.select(PixelFormat::BGRA), Some(PixelFormat::YUVA420P));
}

#[test]
fn accepted_source_format_passes_through_without_resampler() {
    let a = AcceptedFormats::for_task::<AvifEncoderTask>();
    assert!(a.passes(PixelFormat::YUV420P));
    assert!(a.passes(PixelFormat::YUVA444P));
    assert!(!a.passes(PixelFormat::RGB24));
    assert_eq!(a.conversion_for(PixelFormat::YUV422P), Some(Conversion::PassThrough));
    assert_eq!(plan_conversion(&a, PixelFormat::YUV420P), Ok(Conversion::PassThrough));
}

#[test]
fn unaccepted_source_format_is_resampled_to_head_of_list() {
    let a = AcceptedFormats::for_task::<WebpEncoderTask>();
    assert_eq!(plan_conversion(&a, PixelFormat::RGB24), Ok(Conversion::ResampleTo(PixelFormat::YUV420P)));
    assert_eq!(plan_conversion(&a, PixelFormat::RGBA), Ok(Conversion::ResampleTo(PixelFormat::YUVA420P)));
    let avif = AcceptedFormats::for_task::<AvifEncoderTask>();
    assert_eq!(plan_conversion(&avif, PixelFormat::ARGB), Ok(Conversion::ResampleTo(PixelFormat::YUVA444P)));
    assert_eq!(plan_conversion(&avif, PixelFormat::NV12), Ok(Conversion::ResampleTo(PixelFormat::YUV444P)));
}

#[test]
fn no_target_format_is_an_error() {
    let a = accepted(vec![], vec![]);
    assert_eq!(plan_conversion(&a, PixelFormat::GRAY8), Err(FfmpegError::NoPixelFormat(PixelFormat::GRAY8)));
}

#[test]
fn task_format_lists() {
    assert_eq!(
        AvifEncoderTask::accepted_formats(),
        vec![PixelFormat::YUV444P, PixelFormat::YUV420P, PixelFormat::YUV422P]
    );
    assert_eq!(AvifEncoderTask::accepted_alpha_formats(), vec![PixelFormat::YUVA444P]);
    assert_eq!(WebpEncoderTask::accepted_formats(), vec![PixelFormat::YUV420P]);
    assert_eq!(WebpEncoderTask::accepted_alpha_formats(), vec![PixelFormat::YUVA420P]);
}

#[test]
fn output_path_gets_format_extension() {
    assert_eq!(AvifEncoderTask::make_output_path("out"), "out.avif");
    assert_eq!(WebpEncoderTask::make_output_path("out"), "out.webp");
    assert_eq!(WebpEncoderTask::make_output_path("clip.mp4"), "clip.webp");
    assert_eq!(AvifEncoderTask::make_output_path("dir/name.tar.gz"), "dir/name.tar.avif");
}

#[test]
fn frame_without_timestamp_stops_decoding() {
    let tb = Rational { num: 1, den: 30 };
    assert_eq!(frame_timing(None, tb), Err(FfmpegError::NoTimingInformation));
    assert_eq!(frame_timing(Some(4), tb), Ok(TimingData { timestamp: 4, time_base: tb }));
    assert_eq!(TimingData::try_new(None, tb), None);
}

#[test]
fn packets_are_routed_by_stream() {
    assert_eq!(route_packet(Some(2), 2), PacketRoute::Decode);
    assert_eq!(route_packet(Some(1), 2), PacketRoute::Skip);
    assert_eq!(route_packet(None, 2), PacketRoute::Flush);
}

#[test]
fn frame_count_from_stream_or_duration() {
    assert_eq!(extract_frames(42, 0, Rational { num: 0, den: 0 }), 42);
    // ten seconds at 30000/1001 fps
    assert_eq!(extract_frames(0, 10_000_000, Rational { num: 30000, den: 1001 }), 299);
    assert_eq!(extract_frames(0, 0, Rational { num: 25, den: 1 }), 0);
    assert_eq!(extract_frames(0, 2_000_000, Rational { num: 30, den: 1 }), 60);
    // a product of exactly i64::MIN is still divided
    assert_eq!(extract_frames(0, 1 << 62, Rational { num: -2, den: 1 }), -9_223_372_036_854);
}

#[test]
fn duration_from_stream_or_container() {
    assert_eq!(extract_duration_ms(Rational { num: 1, den: 90000 }, 180000, 0), 2000);
    assert_eq!(extract_duration_ms(Rational { num: 1, den: 30 }, 0, 2_500_000), 2500);
    assert_eq!(extract_duration_ms(Rational { num: 1, den: 30 }, 0, 1_999), 1);
}
