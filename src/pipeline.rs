use vstd::prelude::*;

use crate::run::RunMode;

verus! {

/// The channel bound of a stream of more than one frame: large enough to
/// absorb the difference in pace of decoder and encoder.
pub const DEFAULT_CHANNEL_CAPACITY: usize = 20;

/// Why a run does not start.
#[derive(Debug, Clone, Copy, PartialEq, Eq, Structural)]
pub enum PipelineError {
    /// The number of frames of the stream is not known to be positive.
    NoFrames,
}

/// How a run is set up once the stream is known.
#[derive(Debug, Clone, Copy, PartialEq, Eq, Structural)]
pub struct RunPlan {
    /// The length of the progress display.
    pub progress_frames: u64,
    /// A stream of exactly one frame gives a still image.
    pub mode: RunMode,
    /// The bound of the frame channel.
    pub capacity: usize,
}

pub open spec fn spec_channel_capacity(stream_frames: i64) -> usize {
    if stream_frames == 1 {
        1
    } else {
        DEFAULT_CHANNEL_CAPACITY
    }
}

/// Whether the stream reports exactly one frame.
pub fn is_single_frame(stream_frames: i64) -> (r: bool)
    ensures
        r == (stream_frames == 1),
{
    stream_frames == 1
}

/// The channel bound: one for a stream that reports exactly one frame, the
/// default bound otherwise.
pub fn channel_capacity(stream_frames: i64) -> (r: usize)
    ensures
        r == spec_channel_capacity(stream_frames),
{
    if is_single_frame(stream_frames) {
        1
    } else {
        DEFAULT_CHANNEL_CAPACITY
    }
}

/// Sets a run up from the frame count derived for progress (`frames`) and
/// the count that the stream itself reports (`stream_frames`).
pub fn plan_run(frames: i64, stream_frames: i64) -> (r: Result<RunPlan, PipelineError>)
    ensures
        frames <= 0 ==> r == Err::<RunPlan, PipelineError>(PipelineError::NoFrames),
        frames > 0 ==> r == Ok::<RunPlan, PipelineError>(RunPlan {
            progress_frames: frames as u64,
            mode: if stream_frames == 1 { RunMode::Still } else { RunMode::Animation },
            capacity: spec_channel_capacity(stream_frames),
        }),
{
    if frames <= 0 {
        return Err(PipelineError::NoFrames);
    }
    let mode = if is_single_frame(stream_frames) {
        RunMode::Still
    } else {
        RunMode::Animation
    };
    Ok(RunPlan { progress_frames: frames as u64, mode, capacity: channel_capacity(stream_frames) })
}

/// How one worker ended.
pub enum WorkerOutcome<T, E> {
    /// It returned a result.
    Finished(T),
    /// It returned a domain error.
    Errored(E),
    /// It ended abnormally, without returning.
    Panicked,
}

/// The result of a whole run.
pub enum PipelineOutcome<S, D, E> {
    /// Both workers finished; the encoder's statistics.
    Success(S),
    /// At least one worker did not finish; how each one ended.
    Failure { decoder: WorkerOutcome<(), D>, encoder: WorkerOutcome<S, E> },
}

/// The line reported for one worker of a failed run.
#[derive(Debug, Clone, Copy, PartialEq, Eq, Structural)]
pub enum WorkerReport {
    FinishedWithoutErrors,
    Errored,
    Panicked,
}

pub open spec fn spec_combine<S, D, E>(decoder: WorkerOutcome<(), D>, encoder: WorkerOutcome<S, E>) -> PipelineOutcome<S, D, E> {
    match (decoder, encoder) {
        (WorkerOutcome::Finished(_), WorkerOutcome::Finished(s)) => PipelineOutcome::Success(s),
        (d, e) => PipelineOutcome::Failure { decoder: d, encoder: e },
    }
}

pub open spec fn spec_report<T, E>(outcome: WorkerOutcome<T, E>) -> WorkerReport {
    match outcome {
        WorkerOutcome::Finished(_) => WorkerReport::FinishedWithoutErrors,
        WorkerOutcome::Errored(_) => WorkerReport::Errored,
        WorkerOutcome::Panicked => WorkerReport::Panicked,
    }
}

pub open spec fn spec_exit_code<S, D, E>(outcome: PipelineOutcome<S, D, E>) -> i32 {
    match outcome {
        PipelineOutcome::Success(_) => 0,
        PipelineOutcome::Failure { .. } => -1i32,
    }
}

/// Combines the two workers' outcomes: success needs both to finish;
/// otherwise both outcomes are kept for reporting.
pub fn combine_outcomes<S, D, E>(decoder: WorkerOutcome<(), D>, encoder: WorkerOutcome<S, E>) -> (r: PipelineOutcome<S, D, E>)
    ensures
        r == spec_combine(decoder, encoder),
{
    match decoder {
        WorkerOutcome::Finished(d) => match encoder {
            WorkerOutcome::Finished(s) => PipelineOutcome::Success(s),
            e => PipelineOutcome::Failure { decoder: WorkerOutcome::Finished(d), encoder: e },
        },
        d => PipelineOutcome::Failure { decoder: d, encoder },
    }
}

/// The report line of a worker.
pub fn report_of<T, E>(outcome: &WorkerOutcome<T, E>) -> (r: WorkerReport)
    ensures
        r == spec_report(*outcome),
{
    match outcome {
        WorkerOutcome::Finished(_) => WorkerReport::FinishedWithoutErrors,
        WorkerOutcome::Errored(_) => WorkerReport::Errored,
        WorkerOutcome::Panicked => WorkerReport::Panicked,
    }
}

/// The process status: zero on success, non-zero otherwise.
pub fn exit_code<S, D, E>(outcome: &PipelineOutcome<S, D, E>) -> (r: i32)
    ensures
        r == spec_exit_code(*outcome),
{
    match outcome {
        PipelineOutcome::Success(_) => 0,
        PipelineOutcome::Failure { .. } => -1,
    }
}

/// When both workers fail, the run fails with a non-zero status and reports
/// each worker's own failure; when only the encoder fails, the decoder is
/// still reported as finished and the run fails all the same.
pub proof fn failed_workers_are_each_reported<S, D, E>(
    decoder: WorkerOutcome<(), D>,
    encoder: WorkerOutcome<S, E>,
)
    ensures
        !(decoder is Finished) && !(encoder is Finished) ==> {
            &&& spec_combine(decoder, encoder) == (PipelineOutcome::Failure { decoder, encoder })
            &&& spec_report(decoder) != WorkerReport::FinishedWithoutErrors
            &&& spec_report(encoder) != WorkerReport::FinishedWithoutErrors
            &&& spec_exit_code(spec_combine(decoder, encoder)) != 0
        },
        decoder is Finished && !(encoder is Finished) ==> {
            &&& spec_combine(decoder, encoder) == (PipelineOutcome::Failure { decoder, encoder })
            &&& spec_report(decoder) == WorkerReport::FinishedWithoutErrors
            &&& spec_report(encoder) != WorkerReport::FinishedWithoutErrors
            &&& spec_exit_code(spec_combine(decoder, encoder)) != 0
        },
        spec_exit_code(spec_combine(decoder, encoder)) == 0 <==> decoder is Finished && encoder is Finished,
{
}

} // verus!
