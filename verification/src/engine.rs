//! The playback engine: a state machine that is told what the audio back end
//! did last and answers with what it is to do next.
//!
//! The engine opens no file and no device. Whoever drives it performs each
//! request and hands the outcome to the next call of [`EventLoop::step`].

use crate::action::Action;
use crate::error::{DecodeError, EngineError, SinkError};
use crate::frame::{SampleFrame, SinkFormat};
use crate::queue::CommandQueue;
use std::path::PathBuf;
use vstd::prelude::*;

verus! {

/// Where the engine stands.
#[derive(Debug, PartialEq, Eq)]
pub enum EngineState {
    /// Nothing is open; the engine waits for a command.
    Idle,
    /// The decoder and the device for this track are being opened.
    Loading(PathBuf),
    /// Frames of this track are being streamed.
    Playing(PathBuf),
    /// The session is being torn down.
    Stopping,
}

/// What the back end reports to the engine.
#[derive(Clone, Copy, Debug, PartialEq, Eq)]
pub enum Outcome {
    /// Nothing to report: the first call, or the wait for a command is over.
    Ready,
    /// The decoder was opened.
    DecoderOpened,
    /// The output device was opened.
    SinkOpened,
    /// The decoder produced this frame.
    Frame(SampleFrame),
    /// The decoder has no frame left.
    EndOfStream,
    /// The device took the frame.
    Written,
    /// Decoder and device are closed.
    Released,
    /// The decoder could not be opened, or failed in mid-stream.
    DecodeFailed(DecodeError),
    /// The device could not be opened, or failed.
    SinkFailed(SinkError),
}

/// What the engine asks the back end to do.
#[derive(Debug, PartialEq, Eq)]
pub enum Request {
    /// Sleep until a command is in the queue; come back at once if one
    /// already is.
    AwaitCommand,
    /// Open a decoder on the file at this path.
    OpenDecoder(PathBuf),
    /// Open the output device with this format.
    OpenSink(SinkFormat),
    /// Decode the next frame.
    NextFrame,
    /// Hand this frame to the device, waiting until it has room.
    Write(SampleFrame),
    /// Close the decoder and the device, whichever of them is open.
    Release,
}

/// The engine's answer to one outcome.
#[derive(Debug, PartialEq, Eq)]
pub struct Directive {
    /// What to do next.
    pub request: Request,
    /// A failure to report, if the outcome was one.
    pub report: Option<EngineError>,
}

/// The engine as contracts see it.
pub struct LoopModel {
    /// The commands that wait, the oldest first.
    pub queue: Seq<Action>,
    pub state: EngineState,
    /// The flag that a front end reads.
    pub playing: bool,
}

impl LoopModel {
    /// A fresh engine: idle, silent, with no command waiting.
    pub open spec fn initial() -> LoopModel {
        LoopModel { queue: Seq::empty(), state: EngineState::Idle, playing: false }
    }

    /// The flag is set exactly while a track is being streamed.
    pub open spec fn consistent(self) -> bool {
        self.playing == (self.state is Playing)
    }

    /// The model after `action` was put in the queue.
    pub open spec fn enqueue(self, action: Action) -> LoopModel {
        LoopModel { queue: self.queue.push(action), ..self }
    }

    /// An idle engine looks at the queue. `Stop` changes nothing; `Load`
    /// starts a session by asking for the decoder.
    pub open spec fn take_command(self) -> (LoopModel, Directive) {
        if self.queue.len() == 0 {
            (
                LoopModel { queue: self.queue, state: EngineState::Idle, playing: false },
                Directive { request: Request::AwaitCommand, report: None },
            )
        } else {
            match self.queue.first() {
                Action::Stop => (
                    LoopModel {
                        queue: self.queue.drop_first(),
                        state: EngineState::Idle,
                        playing: false,
                    },
                    Directive { request: Request::AwaitCommand, report: None },
                ),
                Action::Load(path) => (
                    LoopModel {
                        queue: self.queue.drop_first(),
                        state: EngineState::Loading(path),
                        playing: false,
                    },
                    Directive { request: Request::OpenDecoder(path), report: None },
                ),
            }
        }
    }

    /// The session ends: the flag is cleared and the back end is asked to
    /// close what is open.
    pub open spec fn wind_down(self, report: Option<EngineError>) -> (LoopModel, Directive) {
        (
            LoopModel { queue: self.queue, state: EngineState::Stopping, playing: false },
            Directive { request: Request::Release, report },
        )
    }

    /// The engine stays in its state and asks for `request`.
    pub open spec fn carry_on(self, request: Request) -> (LoopModel, Directive) {
        (
            LoopModel { queue: self.queue, state: self.state, playing: self.state is Playing },
            Directive { request, report: None },
        )
    }

    /// One step of the engine.
    ///
    /// | state      | outcome                     | next state | request       |
    /// |------------|-----------------------------|------------|---------------|
    /// | `Idle`     | any, no command waits       | `Idle`     | `AwaitCommand`|
    /// | `Idle`     | any, `Stop` is next         | `Idle`     | `AwaitCommand`|
    /// | `Idle`     | any, `Load(p)` is next      | `Loading(p)` | `OpenDecoder(p)` |
    /// | `Loading`  | `DecoderOpened`             | `Loading`  | `OpenSink`    |
    /// | `Loading(p)` | `SinkOpened`, no command waits | `Playing(p)` | `NextFrame` |
    /// | `Loading`  | `SinkOpened`, a command waits | `Stopping` | `Release`   |
    /// | `Loading`  | anything else               | `Stopping` | `Release`     |
    /// | `Playing`  | `Frame(f)`                  | `Playing`  | `Write(f)`    |
    /// | `Playing`  | `Written`, no command waits | `Playing`  | `NextFrame`   |
    /// | `Playing`  | `Written`, a command waits  | `Stopping` | `Release`     |
    /// | `Playing`  | anything else               | `Stopping` | `Release`     |
    /// | `Stopping` | `Released`                  | as `Idle`  | as `Idle`     |
    /// | `Stopping` | anything else               | `Stopping` | `Release`     |
    ///
    /// The flag is set in `Playing` and clear in every other state.
    ///
    /// A command is taken from the queue only by an idle engine, so a
    /// command that arrives during a session first ends the session: the
    /// engine looks at the queue before it asks for a frame, and winds down
    /// if a command waits. The end of the stream and every failure wind the
    /// session down as well; a failure is reported once, in the directive of
    /// the step that does so. An outcome that answers nothing the engine
    /// asked for is taken as a fault of the back end and also winds the
    /// session down.
    pub open spec fn step(self, outcome: Outcome) -> (LoopModel, Directive) {
        match self.state {
            EngineState::Idle => self.take_command(),
            EngineState::Loading(path) => match outcome {
                Outcome::DecoderOpened => self.carry_on(Request::OpenSink(SinkFormat::standard())),
                Outcome::SinkOpened => if self.queue.len() == 0 {
                    (
                        LoopModel {
                            queue: self.queue,
                            state: EngineState::Playing(path),
                            playing: true,
                        },
                        Directive { request: Request::NextFrame, report: None },
                    )
                } else {
                    self.wind_down(None)
                },
                Outcome::DecodeFailed(error) => self.wind_down(Some(EngineError::Decode(error))),
                Outcome::SinkFailed(error) => self.wind_down(Some(EngineError::Sink(error))),
                _ => self.wind_down(None),
            },
            EngineState::Playing(path) => match outcome {
                Outcome::Frame(frame) => self.carry_on(Request::Write(frame)),
                Outcome::Written => if self.queue.len() == 0 {
                    self.carry_on(Request::NextFrame)
                } else {
                    self.wind_down(None)
                },
                Outcome::DecodeFailed(error) => self.wind_down(Some(EngineError::Decode(error))),
                Outcome::SinkFailed(error) => self.wind_down(Some(EngineError::Sink(error))),
                _ => self.wind_down(None),
            },
            EngineState::Stopping => if outcome is Released {
                self.take_command()
            } else {
                self.wind_down(None)
            },
        }
    }
}

/// The engine's state and the flag that mirrors it. The two change together.
struct Status {
    state: EngineState,
    playing: bool,
}

impl Status {
    #[verifier::type_invariant]
    spec fn flag_mirrors_state(self) -> bool {
        self.playing == (self.state is Playing)
    }
}

/// The engine together with its command queue.
pub struct EventLoop {
    queue: CommandQueue,
    status: Status,
}

impl View for EventLoop {
    type V = LoopModel;

    closed spec fn view(&self) -> LoopModel {
        LoopModel { queue: self.queue@, state: self.status.state, playing: self.status.playing }
    }
}

impl EventLoop {
    /// An idle engine with an empty queue.
    pub fn new() -> (event_loop: Self)
        ensures
            event_loop@ == LoopModel::initial(),
    {
        EventLoop {
            queue: CommandQueue::new(),
            status: Status { state: EngineState::Idle, playing: false },
        }
    }

    /// Puts `Load(path)` behind the commands that already wait. The engine
    /// itself is not touched.
    pub fn enqueue_load(&mut self, path: PathBuf)
        ensures
            final(self)@ == old(self)@.enqueue(Action::Load(path)),
    {
        self.queue.push(Action::Load(path));
    }

    /// Puts `Stop` behind the commands that already wait. The engine itself
    /// is not touched.
    pub fn enqueue_stop(&mut self)
        ensures
            final(self)@ == old(self)@.enqueue(Action::Stop),
    {
        self.queue.push(Action::Stop);
    }

    /// Whether a track is being streamed.
    pub fn is_playing(&self) -> (playing: bool)
        ensures
            playing == self@.playing,
            self@.consistent(),
    {
        proof {
            use_type_invariant(&self.status);
        }
        self.status.playing
    }

    /// Where the engine stands.
    pub fn state(&self) -> (state: &EngineState)
        ensures
            *state == self@.state,
    {
        &self.status.state
    }

    /// Whether a command waits in the queue.
    pub fn has_pending(&self) -> (pending: bool)
        ensures
            pending == (self@.queue.len() > 0),
    {
        !self.queue.is_empty()
    }

    fn take_command(&mut self) -> (directive: Directive)
        ensures
            (final(self)@, directive) == old(self)@.take_command(),
    {
        match self.queue.try_pop() {
            None => {
                self.status = Status { state: EngineState::Idle, playing: false };
                Directive { request: Request::AwaitCommand, report: None }
            },
            Some(Action::Stop) => {
                self.status = Status { state: EngineState::Idle, playing: false };
                Directive { request: Request::AwaitCommand, report: None }
            },
            Some(Action::Load(path)) => {
                let wanted = path.clone();
                self.status = Status { state: EngineState::Loading(path), playing: false };
                Directive { request: Request::OpenDecoder(wanted), report: None }
            },
        }
    }

    fn wind_down(&mut self, report: Option<EngineError>) -> (directive: Directive)
        ensures
            (final(self)@, directive) == old(self)@.wind_down(report),
    {
        self.status = Status { state: EngineState::Stopping, playing: false };
        Directive { request: Request::Release, report }
    }

    /// Takes in what the back end did last and decides what it does next.
    ///
    /// The first call passes `Outcome::Ready`. After that, each call passes
    /// the outcome of the request that the call before it returned.
    pub fn step(&mut self, outcome: Outcome) -> (directive: Directive)
        ensures
            (final(self)@, directive) == old(self)@.step(outcome),
            final(self)@.consistent(),
    {
        proof {
            use_type_invariant(&self.status);
        }
        let pending = !self.queue.is_empty();
        let directive = match &self.status.state {
            EngineState::Idle => self.take_command(),
            EngineState::Loading(path) => match outcome {
                Outcome::DecoderOpened => Directive {
                    request: Request::OpenSink(SinkFormat::standard()),
                    report: None,
                },
                Outcome::SinkOpened => if pending {
                    self.wind_down(None)
                } else {
                    let track = path.clone();
                    self.status = Status { state: EngineState::Playing(track), playing: true };
                    Directive { request: Request::NextFrame, report: None }
                },
                Outcome::DecodeFailed(error) => self.wind_down(Some(EngineError::Decode(error))),
                Outcome::SinkFailed(error) => self.wind_down(Some(EngineError::Sink(error))),
                _ => self.wind_down(None),
            },
            EngineState::Playing(_) => match outcome {
                Outcome::Frame(frame) => Directive { request: Request::Write(frame), report: None },
                Outcome::Written => if pending {
                    self.wind_down(None)
                } else {
                    Directive { request: Request::NextFrame, report: None }
                },
                Outcome::DecodeFailed(error) => self.wind_down(Some(EngineError::Decode(error))),
                Outcome::SinkFailed(error) => self.wind_down(Some(EngineError::Sink(error))),
                _ => self.wind_down(None),
            },
            EngineState::Stopping => match outcome {
                Outcome::Released => self.take_command(),
                _ => self.wind_down(None),
            },
        };
        proof {
            use_type_invariant(&self.status);
        }
        directive
    }
}

} // verus!
