use vid2img::pipeline::{
    channel_capacity, combine_outcomes, exit_code, is_single_frame, plan_run, report_of,
    PipelineError, PipelineOutcome, RunPlan, WorkerOutcome, WorkerReport, DEFAULT_CHANNEL_CAPACITY,
};
use vid2img::run::RunMode;

#[test]
fn single_frame_stream_gets_capacity_one() {
    assert_eq!(channel_capacity(1), 1);
    assert!(is_single_frame(1));
}

#[test]
fn other_streams_get_default_capacity() {
    assert_eq!(DEFAULT_CHANNEL_CAPACITY, 20);
    assert_eq!(channel_capacity(0), 20);
    assert_eq!(channel_capacity(2), 20);
    assert_eq!(channel_capacity(-1), 20);
    assert!(!is_single_frame(0));
}

#[test]
fn plan_for_still_and_animation() {
    assert_eq!(plan_run(1, 1), Ok(RunPlan { progress_frames: 1, mode: RunMode::Still, capacity: 1 }));
    assert_eq!(plan_run(250, 250), Ok(RunPlan { progress_frames: 250, mode: RunMode::Animation, capacity: 20 }));
    assert_eq!(plan_run(12, 0), Ok(RunPlan { progress_frames: 12, mode: RunMode::Animation, capacity: 20 }));
}

#[test]
fn stream_without_frames_is_refused() {
    assert_eq!(plan_run(0, 0), Err(PipelineError::NoFrames));
    assert_eq!(plan_run(-5, 1), Err(PipelineError::NoFrames));
}

#[test]
fn both_workers_finished_is_success() {
    let out: PipelineOutcome<usize, String, String> =
        combine_outcomes(WorkerOutcome::Finished(()), WorkerOutcome::Finished(99));
    assert!(matches!(out, PipelineOutcome::Success(99)));
    assert_eq!(exit_code(&out), 0);
}

#[test]
fn both_workers_failing_are_both_reported() {
    let out: PipelineOutcome<usize, String, String> = combine_outcomes(
        WorkerOutcome::Errored("decode".to_string()),
        WorkerOutcome::Panicked,
    );
    match &out {
        PipelineOutcome::Failure { decoder, encoder } => {
            assert_eq!(report_of(decoder), WorkerReport::Errored);
            assert_eq!(report_of(encoder), WorkerReport::Panicked);
        }
        PipelineOutcome::Success(_) => panic!("expected a failure"),
    }
    assert_ne!(exit_code(&out), 0);
}

#[test]
fn only_encoder_failing_still_reports_decoder_success() {
    let out: PipelineOutcome<usize, String, String> = combine_outcomes(
        WorkerOutcome::Finished(()),
        WorkerOutcome::Errored("encode".to_string()),
    );
    match &out {
        PipelineOutcome::Failure { decoder, encoder } => {
            assert_eq!(report_of(decoder), WorkerReport::FinishedWithoutErrors);
            assert_eq!(report_of(encoder), WorkerReport::Errored);
        }
        PipelineOutcome::Success(_) => panic!("expected a failure"),
    }
    assert_eq!(exit_code(&out), -1);
}

#[test]
fn channel_of_capacity_one_holds_one_frame_and_loses_none() {
    let (tx, rx) = crossbeam::channel::bounded::<u32>(channel_capacity(1));
    tx.send(1).unwrap();
    assert!(tx.is_full());
    assert!(tx.try_send(2).is_err());
    assert_eq!(rx.recv(), Ok(1));
    tx.send(2).unwrap();
    drop(tx);
    assert_eq!(rx.recv(), Ok(2));
    assert!(rx.recv().is_err());
}

#[test]
fn default_channel_keeps_order_up_to_its_bound() {
    let (tx, rx) = crossbeam::channel::bounded::<u32>(channel_capacity(10));
    for i in 0..20 {
        tx.try_send(i).unwrap();
    }
    assert!(tx.try_send(20).is_err());
    drop(tx);
    let got: Vec<u32> = rx.iter().collect();
    assert_eq!(got, (0..20).collect::<Vec<u32>>());
}
