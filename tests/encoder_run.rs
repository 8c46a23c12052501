use vid2img::avif::task::{AvifEncoderError, AvifEncoderTask};
use vid2img::pixel::PixelFormat;
use vid2img::run::{EncoderRun, FrameInfo, RunAction, RunEvent, RunFailure, RunMode, RunPhase};
use vid2img::task::run_config;
use vid2img::timing::{Rational, TimingData};
use vid2img::webp::errors::CreateImageError;
use vid2img::webp::task::{WebpEncoderError, WebpEncoderTask};

fn frame(format: PixelFormat, timestamp: i64) -> FrameInfo {
    FrameInfo { format, timing: TimingData { timestamp, time_base: Rational { num: 1, den: 30 } }, duration: 1 }
}

#[derive(Debug, PartialEq)]
enum Call {
    Still,
    Add(i64),
    Finalize(i64),
    Write,
}

/// Drives a run over `frames` with an encoder that always succeeds and
/// produces `bytes` bytes; returns the calls made and the final action.
fn drive(run: &mut EncoderRun, frames: Vec<FrameInfo>, bytes: usize) -> (Vec<Call>, RunAction<String>) {
    let mut calls = Vec::new();
    let mut pending = frames.into_iter();
    let mut action: RunAction<String> = RunAction::Receive;
    loop {
        let event = match action {
            RunAction::Receive => match pending.next() {
                Some(f) => RunEvent::Frame(f),
                None => RunEvent::Closed,
            },
            RunAction::EncodeStill(_) => {
                calls.push(Call::Still);
                RunEvent::Encoded(bytes)
            }
            RunAction::AddFrame { timestamp_ms, .. } => {
                calls.push(Call::Add(timestamp_ms));
                RunEvent::Added
            }
            RunAction::Finalize { end_ms } => {
                calls.push(Call::Finalize(end_ms));
                RunEvent::Encoded(bytes)
            }
            RunAction::Write => {
                calls.push(Call::Write);
                RunEvent::Written
            }
            other => return (calls, other),
        };
        action = run.step(event);
    }
}

#[test]
fn still_run_without_frame_fails_with_no_image_received() {
    let (mut run, first) = EncoderRun::start::<String>(run_config::<AvifEncoderTask>(RunMode::Still, 0));
    assert!(matches!(first, RunAction::Receive));
    let (calls, last) = drive(&mut run, vec![], 10);
    assert!(calls.is_empty());
    assert!(matches!(last, RunAction::Abort(RunFailure::NoImageReceived)));
    assert_eq!(run.state.phase, RunPhase::Failed);
    assert!(run.done());
}

#[test]
fn still_run_with_one_frame_writes_once() {
    let (mut run, _) = EncoderRun::start::<String>(run_config::<AvifEncoderTask>(RunMode::Still, 0));
    let (calls, last) = drive(&mut run, vec![frame(PixelFormat::YUV420P, 0)], 1234);
    assert_eq!(calls, vec![Call::Still, Call::Write]);
    assert!(matches!(last, RunAction::Finish { bytes: 1234 }));
    assert_eq!(run.state.phase, RunPhase::Finished);
    assert!(matches!(run.step::<String>(RunEvent::Written), RunAction::Idle));
    assert_eq!(run.state.phase, RunPhase::Finished);
}

#[test]
fn animation_of_ten_frames_adds_each_then_finalizes_once() {
    let (mut run, _) = EncoderRun::start::<String>(run_config::<WebpEncoderTask>(RunMode::Animation, 333));
    let frames: Vec<FrameInfo> = (0..10).map(|ts| frame(PixelFormat::YUV420P, ts)).collect();
    let (calls, last) = drive(&mut run, frames, 4096);
    assert_eq!(
        calls,
        vec![
            Call::Add(0),
            Call::Add(33),
            Call::Add(66),
            Call::Add(100),
            Call::Add(133),
            Call::Add(166),
            Call::Add(200),
            Call::Add(233),
            Call::Add(266),
            Call::Add(300),
            Call::Finalize(333),
            Call::Write,
        ]
    );
    assert!(matches!(last, RunAction::Finish { bytes: 4096 }));
}

#[test]
fn empty_animation_still_finalizes() {
    let (mut run, _) = EncoderRun::start::<String>(run_config::<AvifEncoderTask>(RunMode::Animation, 0));
    let (calls, last) = drive(&mut run, vec![], 7);
    assert_eq!(calls, vec![Call::Finalize(0), Call::Write]);
    assert!(matches!(last, RunAction::Finish { bytes: 7 }));
}

#[test]
fn unconvertible_frame_aborts_the_run() {
    let (mut run, _) = EncoderRun::start::<String>(run_config::<WebpEncoderTask>(RunMode::Animation, 0));
    let (calls, last) = drive(&mut run, vec![frame(PixelFormat::YUV420P, 0), frame(PixelFormat::RGB24, 1)], 7);
    assert_eq!(calls, vec![Call::Add(0)]);
    assert!(matches!(last, RunAction::Abort(RunFailure::UnsupportedFormat(PixelFormat::RGB24))));
}

#[test]
fn native_failure_aborts_with_that_error() {
    let (mut run, _) = EncoderRun::start::<String>(run_config::<AvifEncoderTask>(RunMode::Animation, 0));
    let a = run.step::<String>(RunEvent::Frame(frame(PixelFormat::YUV444P, 3)));
    assert!(matches!(a, RunAction::AddFrame { timestamp_ms: 100, .. }));
    let b = run.step(RunEvent::Failed("add failed".to_string()));
    match b {
        RunAction::Abort(RunFailure::Backend(e)) => assert_eq!(e, "add failed"),
        _ => panic!("expected the backend error"),
    }
    assert!(matches!(run.step::<String>(RunEvent::Closed), RunAction::Idle));
}

#[test]
fn event_out_of_turn_is_ignored() {
    let (mut run, _) = EncoderRun::start::<String>(run_config::<AvifEncoderTask>(RunMode::Still, 0));
    assert!(matches!(run.step::<String>(RunEvent::Written), RunAction::Idle));
    assert_eq!(run.state.phase, RunPhase::Receiving);
}

#[test]
fn run_failures_become_task_errors() {
    assert!(matches!(
        AvifEncoderError::from_failure(RunFailure::UnsupportedFormat(PixelFormat::NV12)),
        AvifEncoderError::FrameConversion(PixelFormat::NV12)
    ));
    assert!(matches!(
        AvifEncoderError::from_failure(RunFailure::NoImageReceived),
        AvifEncoderError::NoImageReceived
    ));
    assert!(matches!(
        AvifEncoderError::from_failure(RunFailure::Backend(AvifEncoderError::CannotCreateEncoder)),
        AvifEncoderError::CannotCreateEncoder
    ));
    assert!(matches!(
        WebpEncoderError::from_failure(RunFailure::UnsupportedFormat(PixelFormat::NV12)),
        WebpEncoderError::CreateImageError(CreateImageError::InvalidPixelFormat)
    ));
    assert!(matches!(
        WebpEncoderError::from_failure(RunFailure::NoImageReceived),
        WebpEncoderError::NoImageReceived
    ));
}
