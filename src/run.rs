use vstd::prelude::*;

use crate::pixel::{contains_format, PixelFormat};
use crate::timing::TimingData;

verus! {

/// The two terminal modes of an encoder task.
#[derive(Debug, Clone, Copy, PartialEq, Eq, Structural)]
pub enum RunMode {
    /// Exactly one frame is encoded into a still image.
    Still,
    /// Every frame of the stream is fed to an animation encoder.
    Animation,
}

/// What the encoder stage learns of one frame taken from the channel.
#[derive(Debug, Clone, Copy, PartialEq, Eq, Structural)]
pub struct FrameInfo {
    pub format: PixelFormat,
    pub timing: TimingData,
    /// The frame's duration in stream time-base units.
    pub duration: i64,
}

/// Where an encoder run stands.
#[derive(Debug, Clone, Copy, PartialEq, Eq, Structural)]
pub enum RunPhase {
    /// Waiting for the next item of the channel.
    Receiving,
    /// Waiting for the native encoder to take one animation frame.
    Adding,
    /// Waiting for the native encoder to hand over the encoded buffer.
    AwaitingBuffer,
    /// Waiting for the output sink to take the buffer.
    Writing,
    Finished,
    Failed,
}

/// What happened since the last action.
pub enum RunEvent<E> {
    /// The channel handed over a frame.
    Frame(FrameInfo),
    /// The channel was closed: no further frame will come.
    Closed,
    /// The native encoder took the frame of the last `AddFrame`.
    Added,
    /// The native encoder produced the whole encoded buffer, of this length.
    Encoded(usize),
    /// The output sink took the buffer.
    Written,
    /// The native encoder or the output sink failed.
    Failed(E),
}

/// Why a run failed.
pub enum RunFailure<E> {
    /// The channel closed before a still-image run received its frame.
    NoImageReceived,
    /// A frame came in a layout that the task's converter cannot read.
    UnsupportedFormat(PixelFormat),
    /// The native encoder or the output sink reported this error.
    Backend(E),
}

/// What the caller does next.
pub enum RunAction<E> {
    /// Take the next item of the channel.
    Receive,
    /// Encode this frame as the single still image.
    EncodeStill(FrameInfo),
    /// Feed this frame to the animation encoder at this time in milliseconds.
    AddFrame { frame: FrameInfo, timestamp_ms: i64 },
    /// Close the animation at this end time and assemble its buffer.
    Finalize { end_ms: i64 },
    /// Write the encoded buffer to the output sink, in one call.
    Write,
    /// The run succeeded; the sink took this many bytes.
    Finish { bytes: usize },
    /// The run failed.
    Abort(RunFailure<E>),
    /// The event did not fit the phase and was ignored.
    Idle,
}

/// What a run is set up with; it does not change while the run goes.
pub struct RunConfig {
    pub mode: RunMode,
    /// The layouts that the task can hand to its native encoder.
    pub convertible: Vec<PixelFormat>,
    /// The end time handed to `Finalize`.
    pub end_ms: i64,
}

/// The changing part of a run.
#[derive(Debug, Clone, Copy, PartialEq, Eq, Structural)]
pub struct RunState {
    pub phase: RunPhase,
    /// The length of the encoded buffer, once there is one.
    pub bytes: usize,
}

/// The encoder stage of the pipeline, driven one event at a time.
pub struct EncoderRun {
    pub config: RunConfig,
    pub state: RunState,
}

pub open spec fn initial_state() -> RunState {
    RunState { phase: RunPhase::Receiving, bytes: 0 }
}

/// Whether an event can be handled without arithmetic overflow.
pub open spec fn event_ok<E>(cfg: RunConfig, s: RunState, e: RunEvent<E>) -> bool {
    match e {
        RunEvent::Frame(f) => cfg.mode == RunMode::Animation && s.phase == RunPhase::Receiving
            && cfg.convertible@.contains(f.format) ==> f.timing.wf(),
        _ => true,
    }
}

/// One transition: the next state and the action that goes with it.
pub open spec fn spec_step<E>(cfg: RunConfig, s: RunState, e: RunEvent<E>) -> (RunState, RunAction<E>) {
    let failed = RunState { phase: RunPhase::Failed, ..s };
    match (s.phase, e) {
        (RunPhase::Receiving, RunEvent::Frame(f)) => {
            if !cfg.convertible@.contains(f.format) {
                (failed, RunAction::Abort(RunFailure::UnsupportedFormat(f.format)))
            } else if cfg.mode == RunMode::Still {
                (RunState { phase: RunPhase::AwaitingBuffer, ..s }, RunAction::EncodeStill(f))
            } else {
                (
                    RunState { phase: RunPhase::Adding, ..s },
                    RunAction::AddFrame { frame: f, timestamp_ms: f.timing.spec_ms() as i64 },
                )
            }
        },
        (RunPhase::Receiving, RunEvent::Closed) => {
            if cfg.mode == RunMode::Still {
                (failed, RunAction::Abort(RunFailure::NoImageReceived))
            } else {
                (
                    RunState { phase: RunPhase::AwaitingBuffer, ..s },
                    RunAction::Finalize { end_ms: cfg.end_ms },
                )
            }
        },
        (RunPhase::Adding, RunEvent::Added) => (
            RunState { phase: RunPhase::Receiving, ..s },
            RunAction::Receive,
        ),
        (RunPhase::AwaitingBuffer, RunEvent::Encoded(n)) => (
            RunState { phase: RunPhase::Writing, bytes: n },
            RunAction::Write,
        ),
        (RunPhase::Writing, RunEvent::Written) => (
            RunState { phase: RunPhase::Finished, ..s },
            RunAction::Finish { bytes: s.bytes },
        ),
        (RunPhase::Receiving, RunEvent::Failed(err)) | (RunPhase::Adding, RunEvent::Failed(err))
        | (RunPhase::AwaitingBuffer, RunEvent::Failed(err))
        | (RunPhase::Writing, RunEvent::Failed(err)) => (
            failed,
            RunAction::Abort(RunFailure::Backend(err)),
        ),
        _ => (s, RunAction::Idle),
    }
}

impl EncoderRun {
    pub open spec fn is_done(&self) -> bool {
        self.state.phase == RunPhase::Finished || self.state.phase == RunPhase::Failed
    }

    /// A new run; its first action is `Receive`.
    pub fn start<E>(config: RunConfig) -> (r: (EncoderRun, RunAction<E>))
        ensures
            r.0.config == config,
            r.0.state == initial_state(),
            r.1 is Receive,
    {
        (EncoderRun { config, state: RunState { phase: RunPhase::Receiving, bytes: 0 } }, RunAction::Receive)
    }

    /// Whether the run has reached `Finished` or `Failed`.
    pub fn done(&self) -> (r: bool)
        ensures
            r == self.is_done(),
    {
        match self.state.phase {
            RunPhase::Finished | RunPhase::Failed => true,
            _ => false,
        }
    }

    /// Takes one event and says what to do next.
    pub fn step<E>(&mut self, event: RunEvent<E>) -> (r: RunAction<E>)
        requires
            event_ok(old(self).config, old(self).state, event),
        ensures
            final(self).config == old(self).config,
            (final(self).state, r) == spec_step(old(self).config, old(self).state, event),
    {
        let s = self.state;
        match event {
            RunEvent::Frame(f) => {
                if s.phase != RunPhase::Receiving {
                    return RunAction::Idle;
                }
                if !contains_format(&self.config.convertible, f.format) {
                    self.state = RunState { phase: RunPhase::Failed, ..s };
                    RunAction::Abort(RunFailure::UnsupportedFormat(f.format))
                } else if self.config.mode == RunMode::Still {
                    self.state = RunState { phase: RunPhase::AwaitingBuffer, ..s };
                    RunAction::EncodeStill(f)
                } else {
                    let ms = f.timing.ts_in_ms();
                    self.state = RunState { phase: RunPhase::Adding, ..s };
                    RunAction::AddFrame { frame: f, timestamp_ms: ms }
                }
            },
            RunEvent::Closed => {
                if s.phase != RunPhase::Receiving {
                    return RunAction::Idle;
                }
                if self.config.mode == RunMode::Still {
                    self.state = RunState { phase: RunPhase::Failed, ..s };
                    RunAction::Abort(RunFailure::NoImageReceived)
                } else {
                    self.state = RunState { phase: RunPhase::AwaitingBuffer, ..s };
                    RunAction::Finalize { end_ms: self.config.end_ms }
                }
            },
            RunEvent::Added => {
                if s.phase != RunPhase::Adding {
                    return RunAction::Idle;
                }
                self.state = RunState { phase: RunPhase::Receiving, ..s };
                RunAction::Receive
            },
            RunEvent::Encoded(n) => {
                if s.phase != RunPhase::AwaitingBuffer {
                    return RunAction::Idle;
                }
                self.state = RunState { phase: RunPhase::Writing, bytes: n };
                RunAction::Write
            },
            RunEvent::Written => {
                if s.phase != RunPhase::Writing {
                    return RunAction::Idle;
                }
                self.state = RunState { phase: RunPhase::Finished, ..s };
                RunAction::Finish { bytes: s.bytes }
            },
            RunEvent::Failed(err) => {
                if s.phase == RunPhase::Finished || s.phase == RunPhase::Failed {
                    return RunAction::Idle;
                }
                self.state = RunState { phase: RunPhase::Failed, ..s };
                RunAction::Abort(RunFailure::Backend(err))
            },
        }
    }
}

/// The states and actions of a run that takes `events` in order from `s`.
pub open spec fn run_events<E>(cfg: RunConfig, s: RunState, events: Seq<RunEvent<E>>) -> (RunState, Seq<RunAction<E>>)
    decreases events.len(),
{
    if events.len() == 0 {
        (s, Seq::empty())
    } else {
        let (s1, a) = spec_step(cfg, s, events[0]);
        let (s2, rest) = run_events(cfg, s1, events.drop_first());
        (s2, seq![a] + rest)
    }
}

/// The events of an animation run in which each frame is taken by the
/// native encoder: a frame, then its acknowledgement.
pub open spec fn frame_events<E>(frames: Seq<FrameInfo>) -> Seq<RunEvent<E>>
    decreases frames.len(),
{
    if frames.len() == 0 {
        Seq::empty()
    } else {
        seq![RunEvent::Frame(frames[0]), RunEvent::Added] + frame_events(frames.drop_first())
    }
}

/// The actions that answer `frame_events(frames)`: one add-call per frame,
/// at the frame's time in milliseconds, each followed by a receive.
pub open spec fn add_actions<E>(frames: Seq<FrameInfo>) -> Seq<RunAction<E>>
    decreases frames.len(),
{
    if frames.len() == 0 {
        Seq::empty()
    } else {
        seq![
            RunAction::AddFrame {
                frame: frames[0],
                timestamp_ms: frames[0].timing.spec_ms() as i64,
            },
            RunAction::Receive,
        ] + add_actions(frames.drop_first())
    }
}

proof fn lemma_run_events_append<E>(cfg: RunConfig, s: RunState, e1: Seq<RunEvent<E>>, e2: Seq<RunEvent<E>>)
    ensures
        run_events(cfg, s, e1 + e2) == (
            run_events(cfg, run_events(cfg, s, e1).0, e2).0,
            run_events(cfg, s, e1).1 + run_events(cfg, run_events(cfg, s, e1).0, e2).1,
        ),
    decreases e1.len(),
{
    if e1.len() == 0 {
        assert(e1 + e2 =~= e2);
        assert(Seq::<RunAction<E>>::empty() + run_events(cfg, s, e2).1 =~= run_events(cfg, s, e2).1);
    } else {
        let s1 = spec_step(cfg, s, e1[0]).0;
        let a = spec_step(cfg, s, e1[0]).1;
        assert((e1 + e2)[0] == e1[0]);
        assert((e1 + e2).drop_first() =~= e1.drop_first() + e2);
        lemma_run_events_append(cfg, s1, e1.drop_first(), e2);
        let mid = run_events(cfg, s1, e1.drop_first());
        let tail = run_events(cfg, mid.0, e2);
        assert(seq![a] + (mid.1 + tail.1) =~= (seq![a] + mid.1) + tail.1);
    }
}

proof fn lemma_frames_in_animation<E>(cfg: RunConfig, s: RunState, frames: Seq<FrameInfo>)
    requires
        cfg.mode == RunMode::Animation,
        s.phase == RunPhase::Receiving,
        forall|i: int| 0 <= i < frames.len() ==> cfg.convertible@.contains(#[trigger] frames[i].format),
    ensures
        run_events(cfg, s, frame_events::<E>(frames)) == (s, add_actions::<E>(frames)),
    decreases frames.len(),
{
    if frames.len() > 0 {
        reveal_with_fuel(run_events, 3);
        let f = frames[0];
        let head = seq![RunEvent::<E>::Frame(f), RunEvent::<E>::Added];
        assert(cfg.convertible@.contains(frames[0].format));
        lemma_run_events_append(cfg, s, head, frame_events::<E>(frames.drop_first()));
        let s1 = spec_step(cfg, s, head[0]).0;
        assert(head.drop_first().drop_first() =~= Seq::<RunEvent<E>>::empty());
        assert(run_events(cfg, s1, head.drop_first()) == run_events(cfg, s1, seq![RunEvent::<E>::Added]));
        lemma_frames_in_animation::<E>(cfg, s, frames.drop_first());
        let acts = seq![
            RunAction::<E>::AddFrame { frame: f, timestamp_ms: f.timing.spec_ms() as i64 },
            RunAction::<E>::Receive,
        ];
        assert(run_events(cfg, s, head).1 =~= acts);
    }
}

/// An animation run that receives `frames`, each taken by the native
/// encoder, and then the end of the stream, makes one add-call per frame in
/// order, at that frame's time in milliseconds, then exactly one finalize
/// call, then writes the assembled buffer once and finishes with its length.
pub proof fn animation_run_adds_each_frame_then_finalizes_once<E>(
    cfg: RunConfig,
    frames: Seq<FrameInfo>,
    n: usize,
)
    requires
        cfg.mode == RunMode::Animation,
        forall|i: int| 0 <= i < frames.len() ==> cfg.convertible@.contains(#[trigger] frames[i].format),
    ensures
        run_events(
            cfg,
            initial_state(),
            frame_events::<E>(frames) + seq![RunEvent::Closed, RunEvent::Encoded(n), RunEvent::Written],
        ) == (
            RunState { phase: RunPhase::Finished, bytes: n },
            add_actions::<E>(frames) + seq![
                RunAction::Finalize { end_ms: cfg.end_ms },
                RunAction::Write,
                RunAction::Finish { bytes: n },
            ],
        ),
{
    reveal_with_fuel(run_events, 4);
    let tail = seq![RunEvent::<E>::Closed, RunEvent::<E>::Encoded(n), RunEvent::<E>::Written];
    lemma_run_events_append(cfg, initial_state(), frame_events::<E>(frames), tail);
    lemma_frames_in_animation::<E>(cfg, initial_state(), frames);
    let s1 = spec_step(cfg, initial_state(), tail[0]).0;
    let s2 = spec_step(cfg, s1, tail[1]).0;
    assert(tail.drop_first()[0] == tail[1]);
    assert(tail.drop_first().drop_first()[0] == tail[2]);
    assert(tail.drop_first().drop_first().drop_first() =~= Seq::<RunEvent<E>>::empty());
    assert(run_events(cfg, initial_state(), tail).1 =~= seq![
        RunAction::<E>::Finalize { end_ms: cfg.end_ms },
        RunAction::<E>::Write,
        RunAction::<E>::Finish { bytes: n },
    ]);
}

/// The add-call that answers the `i`-th frame carries that frame and its
/// time in milliseconds.
pub proof fn add_action_of_frame<E>(frames: Seq<FrameInfo>, i: int)
    requires
        0 <= i < frames.len(),
    ensures
        add_actions::<E>(frames).len() == 2 * frames.len(),
        add_actions::<E>(frames)[2 * i] == (RunAction::<E>::AddFrame {
            frame: frames[i],
            timestamp_ms: frames[i].timing.spec_ms() as i64,
        }),
    decreases frames.len(),
{
    lemma_add_actions_len::<E>(frames);
    if i > 0 {
        add_action_of_frame::<E>(frames.drop_first(), i - 1);
        assert(frames.drop_first()[i - 1] == frames[i]);
    }
}

/// The time in milliseconds that an add-call carries.
pub open spec fn add_call_time<E>(a: RunAction<E>) -> int {
    match a {
        RunAction::AddFrame { timestamp_ms, .. } => timestamp_ms as int,
        _ => 0,
    }
}

/// For frames of one time base with a positive denominator and a
/// non-negative numerator, whose timestamps do not decrease, the add-calls
/// carry times in milliseconds that do not decrease either.
pub proof fn add_call_times_non_decreasing<E>(frames: Seq<FrameInfo>, i: int, j: int)
    requires
        0 <= i <= j < frames.len(),
        frames[0].timing.time_base.den > 0,
        frames[0].timing.time_base.num >= 0,
        forall|k: int| 0 <= k < frames.len() ==> (#[trigger] frames[k]).timing.wf()
            && frames[k].timing.time_base == frames[0].timing.time_base,
        forall|k: int, l: int| 0 <= k <= l < frames.len()
            ==> (#[trigger] frames[k]).timing.timestamp <= (#[trigger] frames[l]).timing.timestamp,
    ensures
        add_actions::<E>(frames)[2 * i] is AddFrame,
        add_actions::<E>(frames)[2 * j] is AddFrame,
        add_call_time(add_actions::<E>(frames)[2 * i]) <= add_call_time(add_actions::<E>(frames)[2 * j]),
{
    add_action_of_frame::<E>(frames, i);
    add_action_of_frame::<E>(frames, j);
    let ti = frames[i].timing;
    let tj = frames[j].timing;
    crate::timing::ms_fits_i64(ti);
    crate::timing::ms_fits_i64(tj);
    crate::timing::ms_non_decreasing(ti, tj);
}

proof fn lemma_add_actions_len<E>(frames: Seq<FrameInfo>)
    ensures
        add_actions::<E>(frames).len() == 2 * frames.len(),
    decreases frames.len(),
{
    if frames.len() > 0 {
        lemma_add_actions_len::<E>(frames.drop_first());
    }
}

/// A still-image run fails with "no image received" when the channel closes
/// before any frame; when it receives one frame it encodes that frame, writes
/// the buffer once and finishes with its length.
pub proof fn still_run_outcomes<E>(cfg: RunConfig, f: FrameInfo, n: usize)
    requires
        cfg.mode == RunMode::Still,
        cfg.convertible@.contains(f.format),
    ensures
        run_events(cfg, initial_state(), seq![RunEvent::<E>::Closed]) == (
            RunState { phase: RunPhase::Failed, bytes: 0 },
            seq![RunAction::<E>::Abort(RunFailure::NoImageReceived)],
        ),
        run_events(
            cfg,
            initial_state(),
            seq![RunEvent::<E>::Frame(f), RunEvent::Encoded(n), RunEvent::Written],
        ) == (
            RunState { phase: RunPhase::Finished, bytes: n },
            seq![RunAction::<E>::EncodeStill(f), RunAction::Write, RunAction::Finish { bytes: n }],
        ),
{
    reveal_with_fuel(run_events, 4);
    let closed = seq![RunEvent::<E>::Closed];
    assert(closed.drop_first() =~= Seq::<RunEvent<E>>::empty());
    assert(run_events(cfg, initial_state(), closed).1 =~= seq![
        RunAction::<E>::Abort(RunFailure::NoImageReceived),
    ]);
    let ev = seq![RunEvent::<E>::Frame(f), RunEvent::Encoded(n), RunEvent::Written];
    assert(ev.drop_first()[0] == ev[1]);
    assert(ev.drop_first().drop_first()[0] == ev[2]);
    assert(ev.drop_first().drop_first().drop_first() =~= Seq::<RunEvent<E>>::empty());
    assert(run_events(cfg, initial_state(), ev).1 =~= seq![
        RunAction::<E>::EncodeStill(f),
        RunAction::Write,
        RunAction::Finish { bytes: n },
    ]);
}

/// A finished or failed run stays as it is: whatever events follow, it
/// makes no further call and only answers `Idle`. In particular the output
/// sink is never written again.
pub proof fn done_run_stays_done<E>(cfg: RunConfig, s: RunState, events: Seq<RunEvent<E>>)
    requires
        s.phase == RunPhase::Finished || s.phase == RunPhase::Failed,
    ensures
        run_events(cfg, s, events).0 == s,
        forall|i: int| 0 <= i < events.len() ==> run_events(cfg, s, events).1[i] is Idle,
        run_events(cfg, s, events).1.len() == events.len(),
    decreases events.len(),
{
    if events.len() > 0 {
        done_run_stays_done(cfg, s, events.drop_first());
        let rest = run_events(cfg, s, events.drop_first()).1;
        assert forall|i: int| 0 <= i < events.len() implies run_events(cfg, s, events).1[i] is Idle by {
            if i > 0 {
                assert(run_events(cfg, s, events).1[i] == rest[i - 1]);
            }
        }
    }
}

proof fn lemma_one_action_per_event<E>(cfg: RunConfig, s: RunState, events: Seq<RunEvent<E>>)
    ensures
        run_events(cfg, s, events).1.len() == events.len(),
    decreases events.len(),
{
    if events.len() > 0 {
        lemma_one_action_per_event(cfg, spec_step(cfg, s, events[0]).0, events.drop_first());
    }
}

/// The phases after the encoded buffer was asked for.
pub open spec fn past_encoding(p: RunPhase) -> bool {
    p == RunPhase::AwaitingBuffer || p == RunPhase::Writing || p == RunPhase::Finished
        || p == RunPhase::Failed
}

/// The phases after the buffer was handed to the output sink.
pub open spec fn past_writing(p: RunPhase) -> bool {
    p == RunPhase::Writing || p == RunPhase::Finished || p == RunPhase::Failed
}

/// An action that asks the native encoder for work.
pub open spec fn is_encoder_call<E>(a: RunAction<E>) -> bool {
    a is EncodeStill || a is AddFrame || a is Finalize
}

proof fn lemma_no_encoder_call_past_encoding<E>(cfg: RunConfig, s: RunState, events: Seq<RunEvent<E>>)
    requires
        past_encoding(s.phase),
    ensures
        run_events(cfg, s, events).1.len() == events.len(),
        forall|k: int| 0 <= k < events.len() ==> !is_encoder_call(#[trigger] run_events(cfg, s, events).1[k]),
        past_writing(s.phase) ==> forall|k: int| 0 <= k < events.len()
            ==> !(#[trigger] run_events(cfg, s, events).1[k] is Write),
    decreases events.len(),
{
    if events.len() > 0 {
        let s1 = spec_step(cfg, s, events[0]).0;
        lemma_no_encoder_call_past_encoding(cfg, s1, events.drop_first());
        lemma_one_action_per_event(cfg, s1, events.drop_first());
        let acts = run_events(cfg, s, events).1;
        let rest = run_events(cfg, s1, events.drop_first()).1;
        assert forall|k: int| 0 < k < events.len() implies acts[k] == rest[k - 1] by {}
    }
}

/// Whatever events a run takes, once it has asked for the finalize call it
/// makes no further add-call and no second finalize call, and once it has
/// written the buffer to the output sink it never writes again.
pub proof fn no_add_after_finalize_and_one_write<E>(cfg: RunConfig, s: RunState, events: Seq<RunEvent<E>>, i: int, j: int)
    requires
        0 <= i < j < events.len(),
    ensures
        run_events(cfg, s, events).1[i] is Finalize ==> !is_encoder_call(run_events(cfg, s, events).1[j]),
        run_events(cfg, s, events).1[i] is Write ==> !(run_events(cfg, s, events).1[j] is Write),
    decreases events.len(),
{
    let s1 = spec_step(cfg, s, events[0]).0;
    let acts = run_events(cfg, s, events).1;
    let rest = run_events(cfg, s1, events.drop_first()).1;
    lemma_one_action_per_event(cfg, s1, events.drop_first());
    assert(acts[j] == rest[j - 1]);
    if i == 0 {
        if acts[0] is Finalize || acts[0] is Write {
            lemma_no_encoder_call_past_encoding(cfg, s1, events.drop_first());
            assert(!is_encoder_call(rest[j - 1]));
        }
    } else {
        assert(acts[i] == rest[i - 1]);
        no_add_after_finalize_and_one_write(cfg, s1, events.drop_first(), i - 1, j - 1);
    }
}

} // verus!
