//! Runs of the engine, and what holds of every run.
//!
//! A run is a sequence of inputs: a front end puts a command in the queue,
//! or the back end reports an outcome and the engine takes a step. The
//! theorems below are stated over [`history`], which replays a run on the
//! model of the engine.

use crate::action::Action;
use crate::engine::{Directive, EngineState, LoopModel, Outcome, Request};
use crate::error::{DecodeError, EngineError};
use crate::frame::{SampleFrame, SinkFormat};
use std::path::PathBuf;
use vstd::prelude::*;

verus! {

/// One thing that happens to an engine.
pub enum Input {
    /// A front end puts this command in the queue.
    Enqueue(Action),
    /// The back end reports this outcome and the engine takes a step.
    Step(Outcome),
}

/// What a run has led to.
pub struct History {
    /// The engine after the run.
    pub model: LoopModel,
    /// The commands that were put in the queue during the run, in order.
    pub issued: Seq<Action>,
    /// The commands that the engine took from the queue during the run, in
    /// order.
    pub taken: Seq<Action>,
    /// The engine's answers, one for each step of the run, in order.
    pub directives: Seq<Directive>,
}

/// Whether a step on `outcome` takes a command from the queue: the engine is
/// idle, or its session has just been released, and a command waits.
pub open spec fn takes(model: LoopModel, outcome: Outcome) -> bool {
    model.queue.len() > 0 && (model.state is Idle || (model.state is Stopping
        && outcome is Released))
}

/// Replays `inputs` on an engine that starts as `start`.
pub open spec fn history(start: LoopModel, inputs: Seq<Input>) -> History
    decreases inputs.len(),
{
    if inputs.len() == 0 {
        History {
            model: start,
            issued: Seq::empty(),
            taken: Seq::empty(),
            directives: Seq::empty(),
        }
    } else {
        extend(history(start, inputs.drop_last()), inputs.last())
    }
}

/// A history with one more input.
pub open spec fn extend(before: History, input: Input) -> History {
    match input {
        Input::Enqueue(action) => History {
            model: before.model.enqueue(action),
            issued: before.issued.push(action),
            ..before
        },
        Input::Step(outcome) => History {
            model: before.model.step(outcome).0,
            taken: if takes(before.model, outcome) {
                before.taken.push(before.model.queue.first())
            } else {
                before.taken
            },
            directives: before.directives.push(before.model.step(outcome).1),
            ..before
        },
    }
}

/// The frames that the directives hand to the output device, in order.
pub open spec fn written(directives: Seq<Directive>) -> Seq<SampleFrame>
    decreases directives.len(),
{
    if directives.len() == 0 {
        Seq::empty()
    } else {
        match directives.last().request {
            Request::Write(frame) => written(directives.drop_last()).push(frame),
            _ => written(directives.drop_last()),
        }
    }
}

/// Whether a directive touches the stream: it asks for a frame or writes one.
pub open spec fn streams(directive: Directive) -> bool {
    directive.request is NextFrame || directive.request is Write
}

/// Whether some directive before position `end` asks for the decoder of
/// `path`.
pub open spec fn asked_to_open(directives: Seq<Directive>, path: PathBuf, end: int) -> bool {
    exists|j: int|
        0 <= j < end && j < directives.len() && (#[trigger] directives[j]).request
            == Request::OpenDecoder(path)
}

/// The run in which a back end plays a track of these frames to its end,
/// undisturbed: it opens the decoder and the device, decodes and writes
/// frame after frame, meets the end of the stream, and releases the session.
pub open spec fn playback(frames: Seq<SampleFrame>) -> Seq<Input> {
    streaming(frames).push(Input::Step(Outcome::EndOfStream)).push(Input::Step(Outcome::Released))
}

/// The run of [`playback`] up to the moment the last frame has been written.
pub open spec fn streaming(frames: Seq<SampleFrame>) -> Seq<Input>
    decreases frames.len(),
{
    if frames.len() == 0 {
        seq![
            Input::Step(Outcome::Ready),
            Input::Step(Outcome::DecoderOpened),
            Input::Step(Outcome::SinkOpened),
        ]
    } else {
        streaming(frames.drop_last()).push(Input::Step(Outcome::Frame(frames.last()))).push(
            Input::Step(Outcome::Written),
        )
    }
}

proof fn lemma_history_push(start: LoopModel, inputs: Seq<Input>, input: Input)
    ensures
        history(start, inputs.push(input)) == extend(history(start, inputs), input),
{
    assert(inputs.push(input).drop_last() =~= inputs);
}

proof fn lemma_written_push(directives: Seq<Directive>, directive: Directive)
    ensures
        written(directives.push(directive)) == match directive.request {
            Request::Write(frame) => written(directives).push(frame),
            _ => written(directives),
        },
{
    assert(directives.push(directive).drop_last() =~= directives);
}

/// After a step the flag is set exactly if a track is being streamed: the
/// device has just been opened with no command waiting, or the engine was
/// streaming and goes on, with a frame to write or with no command waiting.
/// Whatever ends a session clears it: a command that waits, the end of the
/// stream, a failure.
pub proof fn flag_after_step(model: LoopModel, outcome: Outcome)
    ensures
        model.step(outcome).0.consistent(),
        model.step(outcome).0.playing <==> {
            ||| model.state is Loading && outcome is SinkOpened && model.queue.len() == 0
            ||| model.state is Playing && outcome is Frame
            ||| model.state is Playing && outcome is Written && model.queue.len() == 0
        },
{
}

/// Throughout every run the flag mirrors the state: it is set exactly while
/// the engine is in `Playing`.
pub proof fn flag_mirrors_state(start: LoopModel, inputs: Seq<Input>)
    requires
        start.consistent(),
    ensures
        history(start, inputs).model.consistent(),
    decreases inputs.len(),
{
    if inputs.len() > 0 {
        flag_mirrors_state(start, inputs.drop_last());
    }
}

/// In every run of a fresh engine, the track that is being loaded or played
/// is the one named by the command taken last, and that command is a `Load`.
/// So the flag is set only if the command processed last was a `Load`.
pub proof fn session_belongs_to_last_command(inputs: Seq<Input>)
    ensures
        ({
            let after = history(LoopModel::initial(), inputs);
            &&& after.model.state matches EngineState::Loading(path) ==> after.taken.len() > 0
                && after.taken.last() == Action::Load(path)
            &&& after.model.state matches EngineState::Playing(path) ==> after.taken.len() > 0
                && after.taken.last() == Action::Load(path)
            &&& after.model.playing ==> after.taken.len() > 0 && after.taken.last() is Load
        }),
    decreases inputs.len(),
{
    if inputs.len() > 0 {
        session_belongs_to_last_command(inputs.drop_last());
        flag_mirrors_state(LoopModel::initial(), inputs.drop_last());
    }
}

/// `Stop` on an idle engine changes nothing: the engine stays idle, the flag
/// stays clear, and the back end is asked to open nothing, only to wait for
/// the next command.
pub proof fn stop_while_idle_is_no_op(model: LoopModel, outcome: Outcome)
    requires
        model.state is Idle,
        model.queue.len() > 0,
        model.queue.first() is Stop,
    ensures
        model.step(outcome).0 == (LoopModel {
            queue: model.queue.drop_first(),
            state: EngineState::Idle,
            playing: false,
        }),
        model.step(outcome).1 == (Directive { request: Request::AwaitCommand, report: None }),
{
}

/// From idle, `Load` leads to playback: the engine asks for the decoder,
/// then for the device, and once both are open it is in `Playing` with the
/// flag set and asks for the first frame.
pub proof fn load_from_idle_starts_playback(path: PathBuf)
    ensures
        ({
            let start = LoopModel {
                queue: seq![Action::Load(path)],
                state: EngineState::Idle,
                playing: false,
            };
            let asked = start.step(Outcome::Ready);
            let half = asked.0.step(Outcome::DecoderOpened);
            let open = half.0.step(Outcome::SinkOpened);
            &&& asked.1 == (Directive { request: Request::OpenDecoder(path), report: None })
            &&& asked.0.state == EngineState::Loading(path) && !asked.0.playing
            &&& half.1 == (Directive {
                request: Request::OpenSink(SinkFormat::standard()),
                report: None,
            })
            &&& half.0.state == EngineState::Loading(path) && !half.0.playing
            &&& open.1 == (Directive { request: Request::NextFrame, report: None })
            &&& open.0.state == EngineState::Playing(path) && open.0.playing
        }),
{
    let start = LoopModel {
        queue: seq![Action::Load(path)],
        state: EngineState::Idle,
        playing: false,
    };
    assert(start.queue.first() == Action::Load(path));
    assert(start.queue.drop_first() =~= Seq::<Action>::empty());
}

/// During playback, `Stop` leads to idle: at the next frame boundary the
/// engine clears the flag and asks for the release of the session, and once
/// that is done it is idle and waits.
pub proof fn stop_during_playback_ends_idle(path: PathBuf)
    ensures
        ({
            let start = LoopModel {
                queue: seq![Action::Stop],
                state: EngineState::Playing(path),
                playing: true,
            };
            let stopping = start.step(Outcome::Written);
            let idle = stopping.0.step(Outcome::Released);
            &&& stopping.1 == (Directive { request: Request::Release, report: None })
            &&& stopping.0.state is Stopping && !stopping.0.playing
            &&& idle.1 == (Directive { request: Request::AwaitCommand, report: None })
            &&& idle.0 == LoopModel::initial()
        }),
{
    let start = LoopModel {
        queue: seq![Action::Stop],
        state: EngineState::Playing(path),
        playing: true,
    };
    assert(start.queue.first() == Action::Stop);
    assert(start.queue.drop_first() =~= Seq::<Action>::empty());
}

/// During playback, `Load` replaces the track: at the next frame boundary
/// the engine asks for the release of the session, and only then for the
/// decoder of the new track. Once decoder and device are open it plays the
/// new track with the flag set.
pub proof fn load_during_playback_replaces_track(playing: PathBuf, wanted: PathBuf)
    ensures
        ({
            let start = LoopModel {
                queue: seq![Action::Load(wanted)],
                state: EngineState::Playing(playing),
                playing: true,
            };
            let stopping = start.step(Outcome::Written);
            let asked = stopping.0.step(Outcome::Released);
            let half = asked.0.step(Outcome::DecoderOpened);
            let open = half.0.step(Outcome::SinkOpened);
            &&& stopping.1 == (Directive { request: Request::Release, report: None })
            &&& stopping.0.state is Stopping && !stopping.0.playing
            &&& asked.1 == (Directive { request: Request::OpenDecoder(wanted), report: None })
            &&& asked.0.state == EngineState::Loading(wanted)
            &&& half.1.request == Request::OpenSink(SinkFormat::standard())
            &&& open.1 == (Directive { request: Request::NextFrame, report: None })
            &&& open.0.state == EngineState::Playing(wanted) && open.0.playing
        }),
{
    let start = LoopModel {
        queue: seq![Action::Load(wanted)],
        state: EngineState::Playing(playing),
        playing: true,
    };
    assert(start.queue.first() == Action::Load(wanted));
    assert(start.queue.drop_first() =~= Seq::<Action>::empty());
}

/// The end of the stream leads to idle: the engine clears the flag and asks
/// for the release of the session, and once that is done it is idle. The
/// same holds of a failure in mid-stream, which is reported as well.
pub proof fn end_of_stream_ends_idle(path: PathBuf, outcome: Outcome)
    requires
        outcome is EndOfStream || outcome is DecodeFailed || outcome is SinkFailed,
    ensures
        ({
            let start = LoopModel {
                queue: Seq::empty(),
                state: EngineState::Playing(path),
                playing: true,
            };
            let stopping = start.step(outcome);
            let idle = stopping.0.step(Outcome::Released);
            &&& stopping.1.request is Release
            &&& stopping.1.report == match outcome {
                Outcome::DecodeFailed(error) => Some(EngineError::Decode(error)),
                Outcome::SinkFailed(error) => Some(EngineError::Sink(error)),
                _ => None,
            }
            &&& stopping.0.state is Stopping && !stopping.0.playing
            &&& idle.1 == (Directive { request: Request::AwaitCommand, report: None })
            &&& idle.0 == LoopModel::initial()
        }),
{
}

/// The engine takes commands in the order in which they were issued: at any
/// point of a run, the commands taken so far, followed by those that still
/// wait, are the commands that waited at the start followed by those issued
/// since.
pub proof fn commands_are_taken_in_issue_order(start: LoopModel, inputs: Seq<Input>)
    ensures
        ({
            let after = history(start, inputs);
            after.taken + after.model.queue == start.queue + after.issued
        }),
    decreases inputs.len(),
{
    let after = history(start, inputs);
    if inputs.len() == 0 {
        assert(after.taken + after.model.queue =~= start.queue + after.issued);
    } else {
        commands_are_taken_in_issue_order(start, inputs.drop_last());
        let before = history(start, inputs.drop_last());
        match inputs.last() {
            Input::Enqueue(action) => {
                assert(after.taken + after.model.queue =~= (before.taken
                    + before.model.queue).push(action));
                assert(start.queue + after.issued =~= (start.queue + before.issued).push(action));
            },
            Input::Step(outcome) => {
                assert(after.taken + after.model.queue =~= before.taken + before.model.queue);
            },
        }
    }
}

/// A `Load` whose file cannot be opened leaves the engine idle with the flag
/// clear. The failure is reported once, and the device is never asked for.
pub proof fn failed_open_returns_to_idle(path: PathBuf, error: DecodeError)
    ensures
        ({
            let start = LoopModel::initial().enqueue(Action::Load(path));
            let opening = history(start, seq![Input::Step(Outcome::Ready)]);
            let failed = extend(opening, Input::Step(Outcome::DecodeFailed(error)));
            let released = extend(failed, Input::Step(Outcome::Released));
            &&& opening.model.state == EngineState::Loading(path)
            &&& !opening.model.playing
            &&& failed.model.state is Stopping
            &&& !failed.model.playing
            &&& released.model == LoopModel::initial()
            &&& released.directives == seq![
                Directive { request: Request::OpenDecoder(path), report: None },
                Directive {
                    request: Request::Release,
                    report: Some(EngineError::Decode(error)),
                },
                Directive { request: Request::AwaitCommand, report: None },
            ]
        }),
{
    let start = LoopModel::initial().enqueue(Action::Load(path));
    let first = Input::Step(Outcome::Ready);
    lemma_history_push(start, Seq::empty(), first);
    assert(seq![first] =~= Seq::<Input>::empty().push(first));
    assert(start.queue.drop_first() =~= Seq::<Action>::empty());
    let released = extend(
        extend(history(start, seq![first]), Input::Step(Outcome::DecodeFailed(error))),
        Input::Step(Outcome::Released),
    );
    assert(released.directives =~= seq![
        Directive { request: Request::OpenDecoder(path), report: None },
        Directive { request: Request::Release, report: Some(EngineError::Decode(error)) },
        Directive { request: Request::AwaitCommand, report: None },
    ]);
}

proof fn lemma_streaming(path: PathBuf, frames: Seq<SampleFrame>)
    ensures
        ({
            let start = LoopModel::initial().enqueue(Action::Load(path));
            let after = history(start, streaming(frames));
            &&& after.model == (LoopModel {
                queue: Seq::empty(),
                state: EngineState::Playing(path),
                playing: true,
            })
            &&& written(after.directives) == frames
            &&& after.directives.len() == 3 + 2 * frames.len()
            &&& after.directives.last().request is NextFrame
        }),
    decreases frames.len(),
{
    let start = LoopModel::initial().enqueue(Action::Load(path));
    if frames.len() == 0 {
        let none = Seq::<Input>::empty();
        let one = none.push(Input::Step(Outcome::Ready));
        let two = one.push(Input::Step(Outcome::DecoderOpened));
        let three = two.push(Input::Step(Outcome::SinkOpened));
        assert(streaming(frames) =~= three);
        lemma_history_push(start, none, Input::Step(Outcome::Ready));
        lemma_history_push(start, one, Input::Step(Outcome::DecoderOpened));
        lemma_history_push(start, two, Input::Step(Outcome::SinkOpened));
        assert(start.queue.drop_first() =~= Seq::<Action>::empty());
        lemma_written_push(history(start, none).directives, history(start, one).directives.last());
        lemma_written_push(history(start, one).directives, history(start, two).directives.last());
        lemma_written_push(
            history(start, two).directives,
            history(start, three).directives.last(),
        );
    } else {
        let decoded = Input::Step(Outcome::Frame(frames.last()));
        let wrote = Input::Step(Outcome::Written);
        let base = streaming(frames.drop_last());
        lemma_streaming(path, frames.drop_last());
        lemma_history_push(start, base, decoded);
        lemma_history_push(start, base.push(decoded), wrote);
        lemma_written_push(
            history(start, base).directives,
            history(start, base.push(decoded)).directives.last(),
        );
        lemma_written_push(
            history(start, base.push(decoded)).directives,
            history(start, base.push(decoded).push(wrote)).directives.last(),
        );
        assert(frames.drop_last().push(frames.last()) =~= frames);
    }
}

/// A track that is loaded and left alone is streamed whole: every frame the
/// decoder yields is written to the device, once, in the decoder's order,
/// and nothing else is written. When the stream ends the session is released
/// and the engine is idle again, with the flag clear.
pub proof fn undisturbed_track_is_written_in_order(path: PathBuf, frames: Seq<SampleFrame>)
    ensures
        ({
            let start = LoopModel::initial().enqueue(Action::Load(path));
            let after = history(start, playback(frames));
            &&& written(after.directives) == frames
            &&& after.model == LoopModel::initial()
            &&& after.directives.len() == 5 + 2 * frames.len()
            &&& after.directives[after.directives.len() - 2].request is Release
            &&& after.directives.last().request is AwaitCommand
        }),
{
    let start = LoopModel::initial().enqueue(Action::Load(path));
    let ended = Input::Step(Outcome::EndOfStream);
    let released = Input::Step(Outcome::Released);
    let base = streaming(frames);
    lemma_streaming(path, frames);
    lemma_history_push(start, base, ended);
    lemma_history_push(start, base.push(ended), released);
    lemma_written_push(
        history(start, base).directives,
        history(start, base.push(ended)).directives.last(),
    );
    lemma_written_push(
        history(start, base.push(ended)).directives,
        history(start, base.push(ended).push(released)).directives.last(),
    );
}

/// The engine has `Load(first)` and, right behind it, `Load(second)` to deal
/// with, and has not yet got to the second.
spec fn second_waits(model: LoopModel, first: PathBuf, second: PathBuf) -> bool {
    ||| model.state is Idle && model.queue.len() >= 2 && model.queue[0] == Action::Load(first)
        && model.queue[1] == Action::Load(second)
    ||| (model.state == EngineState::Loading(first) || model.state is Stopping)
        && model.queue.len() >= 1 && model.queue[0] == Action::Load(second)
}

proof fn lemma_superseded(first: PathBuf, second: PathBuf, inputs: Seq<Input>)
    ensures
        ({
            let start = LoopModel::initial().enqueue(Action::Load(first)).enqueue(
                Action::Load(second),
            );
            let after = history(start, inputs);
            &&& second_waits(after.model, first, second) || asked_to_open(
                after.directives,
                second,
                after.directives.len() as int,
            )
            &&& forall|k: int|
                0 <= k < after.directives.len() && streams(#[trigger] after.directives[k])
                    ==> asked_to_open(after.directives, second, k)
        }),
    decreases inputs.len(),
{
    let start = LoopModel::initial().enqueue(Action::Load(first)).enqueue(Action::Load(second));
    if inputs.len() > 0 {
        lemma_superseded(first, second, inputs.drop_last());
        let before = history(start, inputs.drop_last());
        let after = history(start, inputs);
        assert forall|k: int|
            0 <= k < after.directives.len() && streams(
                #[trigger] after.directives[k],
            ) implies asked_to_open(after.directives, second, k) by {
            if k < before.directives.len() {
                assert(after.directives[k] == before.directives[k]);
                let j = choose|j: int|
                    0 <= j < k && j < before.directives.len() && (
                    #[trigger] before.directives[j]).request == Request::OpenDecoder(second);
                assert(after.directives[j] == before.directives[j]);
            } else {
                let j = choose|j: int|
                    0 <= j < before.directives.len() && (
                    #[trigger] before.directives[j]).request == Request::OpenDecoder(second);
                assert(after.directives[j] == before.directives[j]);
            }
        }
        if !second_waits(after.model, first, second) {
            if second_waits(before.model, first, second) {
                assert(after.directives[before.directives.len() as int].request
                    == Request::OpenDecoder(second));
            } else {
                let j = choose|j: int|
                    0 <= j < before.directives.len() && (
                    #[trigger] before.directives[j]).request == Request::OpenDecoder(second);
                assert(after.directives[j] == before.directives[j]);
            }
        }
    }
}

/// `Load(first)` followed at once by `Load(second)`: whatever the back end
/// reports and whatever else is issued, the engine asks for no frame and
/// writes none until it has asked for the decoder of the second track. The
/// first track is opened and released, but never streamed.
pub proof fn superseded_track_is_never_streamed(
    first: PathBuf,
    second: PathBuf,
    inputs: Seq<Input>,
)
    ensures
        ({
            let start = LoopModel::initial().enqueue(Action::Load(first)).enqueue(
                Action::Load(second),
            );
            let after = history(start, inputs);
            forall|k: int|
                0 <= k < after.directives.len() && streams(#[trigger] after.directives[k])
                    ==> asked_to_open(after.directives, second, k)
        }),
{
    lemma_superseded(first, second, inputs);
}

/// The engine has `Load(first)` and, right behind it, `next` to deal with,
/// and has taken `taken` commands so far.
spec fn next_waits(model: LoopModel, taken: nat, first: PathBuf, next: Action) -> bool {
    ||| taken == 0 && model.state is Idle && model.queue.len() >= 2 && model.queue[0]
        == Action::Load(first) && model.queue[1] == next
    ||| taken == 1 && (model.state == EngineState::Loading(first) || model.state is Stopping)
        && model.queue.len() >= 1 && model.queue[0] == next
}

proof fn lemma_second_command(first: PathBuf, next: Action, inputs: Seq<Input>)
    ensures
        ({
            let start = LoopModel::initial().enqueue(Action::Load(first)).enqueue(next);
            let after = history(start, inputs);
            after.taken.len() < 2 ==> {
                &&& next_waits(after.model, after.taken.len(), first, next)
                &&& forall|k: int|
                    0 <= k < after.directives.len() ==> !streams(#[trigger] after.directives[k])
            }
        }),
    decreases inputs.len(),
{
    if inputs.len() > 0 {
        lemma_second_command(first, next, inputs.drop_last());
    }
}

/// A command issued right behind a `Load` holds the stream back: whatever
/// the back end reports and whatever else is issued, the engine asks for no
/// frame and writes none before it has taken that command. So
/// `Load(first)` followed at once by `Stop` never lets the first track be
/// heard, and the `Stop` is never heeded before the `Load`.
pub proof fn command_behind_load_holds_the_stream(
    first: PathBuf,
    next: Action,
    inputs: Seq<Input>,
)
    ensures
        ({
            let start = LoopModel::initial().enqueue(Action::Load(first)).enqueue(next);
            let after = history(start, inputs);
            &&& after.taken.len() < 2 ==> forall|k: int|
                0 <= k < after.directives.len() ==> !streams(#[trigger] after.directives[k])
            &&& after.taken.len() >= 1 ==> after.taken[0] == Action::Load(first)
            &&& after.taken.len() >= 2 ==> after.taken[1] == next
        }),
{
    lemma_second_command(first, next, inputs);
    commands_are_taken_in_issue_order(
        LoopModel::initial().enqueue(Action::Load(first)).enqueue(next),
        inputs,
    );
    let start = LoopModel::initial().enqueue(Action::Load(first)).enqueue(next);
    let after = history(start, inputs);
    let all = start.queue + after.issued;
    assert(all[0] == Action::Load(first));
    assert(all[1] == next);
    if after.taken.len() >= 1 {
        assert((after.taken + after.model.queue)[0] == after.taken[0]);
    }
    if after.taken.len() >= 2 {
        assert((after.taken + after.model.queue)[1] == after.taken[1]);
    }
}

/// While a command waits and no track is being streamed, the engine neither
/// asks for a frame nor writes one, and does not start to stream: a waiting
/// command always comes before the stream.
pub proof fn waiting_command_holds_the_stream(model: LoopModel, outcome: Outcome)
    requires
        !(model.state is Playing),
        model.queue.len() > 0,
    ensures
        !streams(model.step(outcome).1),
        !(model.step(outcome).0.state is Playing),
        !model.step(outcome).0.playing,
{
}

} // verus!
