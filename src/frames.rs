use vstd::prelude::*;

use crate::formats::{AcceptedFormats, Conversion};
use crate::pixel::PixelFormat;
use crate::timing::{div_trunc, trunc_div, Rational, TimingData};

verus! {

/// The decoder library's internal time unit: microseconds.
pub const AV_TIME_BASE: i64 = 1000000;

/// Why the decode stage stopped.
#[derive(Debug, Clone, Copy, PartialEq, Eq, Structural)]
pub enum FfmpegError {
    /// The decoder library failed with this error code.
    Ffmpeg(i32),
    /// No accepted format can be chosen for frames of this source format.
    NoPixelFormat(PixelFormat),
    /// The encoder stage is gone; whether the channel was full.
    SendFrame(bool),
    /// A decoded frame had no timestamp.
    NoTimingInformation,
}

/// The number of frames of a stream: its own count when it has one, else
/// the container's duration times the average frame rate, else zero.
pub open spec fn spec_extract_frames(stream_frames: i64, ctx_duration: i64, rate: Rational) -> int {
    if stream_frames > 0 {
        stream_frames as int
    } else if ctx_duration > 0 {
        trunc_div(ctx_duration * rate.num, AV_TIME_BASE * rate.den)
    } else {
        0
    }
}

pub open spec fn extract_frames_ok(stream_frames: i64, ctx_duration: i64, rate: Rational) -> bool {
    stream_frames <= 0 && ctx_duration > 0 ==> {
        &&& rate.den != 0
        &&& i64::MIN <= ctx_duration * rate.num <= i64::MAX
    }
}

pub fn extract_frames(stream_frames: i64, ctx_duration: i64, avg_frame_rate: Rational) -> (r: i64)
    requires
        extract_frames_ok(stream_frames, ctx_duration, avg_frame_rate),
    ensures
        r == spec_extract_frames(stream_frames, ctx_duration, avg_frame_rate),
{
    if stream_frames > 0 {
        stream_frames
    } else if ctx_duration > 0 {
        let scaled: i64 = ctx_duration * (avg_frame_rate.num as i64);
        let per: i64 = AV_TIME_BASE * (avg_frame_rate.den as i64);
        div_trunc(scaled, per)
    } else {
        0
    }
}

/// The length of a stream in milliseconds: from its own duration in its
/// time base when it has one, else from the container's duration.
pub open spec fn spec_extract_duration_ms(time_base: Rational, stream_duration: i64, ctx_duration: i64) -> int {
    if stream_duration > 0 {
        trunc_div(1000 * stream_duration * time_base.num, time_base.den as int)
    } else {
        trunc_div(ctx_duration * 1000, AV_TIME_BASE as int)
    }
}

pub open spec fn extract_duration_ms_ok(time_base: Rational, stream_duration: i64, ctx_duration: i64) -> bool {
    if stream_duration > 0 {
        &&& time_base.den != 0
        &&& i64::MIN <= 1000 * stream_duration <= i64::MAX
        &&& i64::MIN <= 1000 * stream_duration * time_base.num <= i64::MAX
        &&& !(1000 * stream_duration * time_base.num == i64::MIN && time_base.den == -1)
    } else {
        i64::MIN <= ctx_duration * 1000 <= i64::MAX
    }
}

pub fn extract_duration_ms(time_base: Rational, stream_duration: i64, ctx_duration: i64) -> (r: i64)
    requires
        extract_duration_ms_ok(time_base, stream_duration, ctx_duration),
    ensures
        r == spec_extract_duration_ms(time_base, stream_duration, ctx_duration),
{
    if stream_duration > 0 {
        let scaled: i64 = 1000 * stream_duration * (time_base.num as i64);
        div_trunc(scaled, time_base.den as i64)
    } else {
        div_trunc(ctx_duration * 1000, AV_TIME_BASE)
    }
}

/// The conversion that the decode stage applies to every frame, or the
/// error that stops it when no target format exists.
pub fn plan_conversion(accepted: &AcceptedFormats, decoder_format: PixelFormat) -> (r: Result<Conversion, FfmpegError>)
    ensures
        r == (match accepted.spec_conversion(decoder_format) {
            Some(c) => Ok(c),
            None => Err(FfmpegError::NoPixelFormat(decoder_format)),
        }),
{
    match accepted.conversion_for(decoder_format) {
        Some(c) => Ok(c),
        None => Err(FfmpegError::NoPixelFormat(decoder_format)),
    }
}

/// The timing of a decoded frame; a frame without timestamp stops the stage.
pub fn frame_timing(timestamp: Option<i64>, stream_time_base: Rational) -> (r: Result<TimingData, FfmpegError>)
    ensures
        r == (match timestamp {
            Some(ts) => Ok(TimingData { timestamp: ts, time_base: stream_time_base }),
            None => Err(FfmpegError::NoTimingInformation),
        }),
{
    match TimingData::try_new(timestamp, stream_time_base) {
        Some(t) => Ok(t),
        None => Err(FfmpegError::NoTimingInformation),
    }
}

/// What the decode stage does with the next item of the container.
#[derive(Debug, Clone, Copy, PartialEq, Eq, Structural)]
pub enum PacketRoute {
    /// The packet belongs to the selected stream: hand it to the decoder.
    Decode,
    /// The packet belongs to another stream.
    Skip,
    /// The container is drained: signal the end of the stream to the decoder.
    Flush,
}

/// Routes a packet of stream `packet_stream` (`None` once the container is
/// drained) for the selected stream `istream_idx`.
pub fn route_packet(packet_stream: Option<usize>, istream_idx: usize) -> (r: PacketRoute)
    ensures
        r == (match packet_stream {
            Some(i) => if i == istream_idx { PacketRoute::Decode } else { PacketRoute::Skip },
            None => PacketRoute::Flush,
        }),
{
    match packet_stream {
        Some(i) => if i == istream_idx {
            PacketRoute::Decode
        } else {
            PacketRoute::Skip
        },
        None => PacketRoute::Flush,
    }
}

} // verus!
