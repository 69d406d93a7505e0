//! The playback core of a desktop music player: the commands a front end
//! issues, the queue that carries them, and the engine that decides what the
//! audio back end does next.
//!
//! The engine is a state machine without side effects of its own. A shell
//! around it opens files and the audio device, and tells the engine what
//! came of it; [`engine::EventLoop::step`] answers with the next thing to
//! do. [`traces`] holds what is proved of every run of the engine.
//!
//! Beside the engine stand the small decisions of the player's window: the
//! texts of a row of the track list ([`playlist`]), the label of the play
//! button ([`toolbar`]), and the way from a decoder's blocks to single
//! frames ([`pcm`], [`decoder`]).

pub mod action;
pub mod decoder;
pub mod engine;
pub mod error;
pub mod frame;
pub mod pcm;
pub mod playlist;
pub mod queue;
pub mod toolbar;
pub mod traces;
