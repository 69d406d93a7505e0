use music_player::action::Action;
use music_player::engine::{Directive, EngineState, EventLoop, Outcome, Request};
use music_player::error::{DecodeError, EngineError, SinkError};
use music_player::frame::{SampleFrame, SinkFormat, CHANNELS, DEFAULT_RATE};
use std::path::PathBuf;

/// A back end made of memory: tracks are lists of frames, the device is a
/// list of what was written to it.
struct Studio {
    tracks: Vec<(PathBuf, Vec<SampleFrame>)>,
    corrupt_after: Option<usize>,
    device: Result<(), SinkError>,
    decoder: Option<(Vec<SampleFrame>, usize)>,
    sink_open: bool,
    opened: Vec<PathBuf>,
    sinks_opened: usize,
    releases: usize,
    written: Vec<SampleFrame>,
    reports: Vec<EngineError>,
    flags: Vec<bool>,
}

fn studio(tracks: Vec<(PathBuf, Vec<SampleFrame>)>) -> Studio {
    Studio {
        tracks,
        corrupt_after: None,
        device: Ok(()),
        decoder: None,
        sink_open: false,
        opened: Vec::new(),
        sinks_opened: 0,
        releases: 0,
        written: Vec::new(),
        reports: Vec::new(),
        flags: Vec::new(),
    }
}

fn frame(n: i16) -> SampleFrame {
    SampleFrame { left: n, right: -n }
}

fn frames(from: i16, count: i16) -> Vec<SampleFrame> {
    let mut out = Vec::new();
    let mut i = 0;
    while i < count {
        out.push(frame(from + i));
        i += 1;
    }
    out
}

fn path(name: &str) -> PathBuf {
    PathBuf::from(name)
}

fn plain(request: Request) -> Directive {
    Directive { request, report: None }
}

/// Does what the engine asked. `None` where the engine asked to wait for a
/// command.
fn perform(studio: &mut Studio, request: Request) -> Option<Outcome> {
    match request {
        Request::AwaitCommand => None,
        Request::OpenDecoder(wanted) => {
            assert!(studio.decoder.is_none(), "a decoder is still open");
            studio.opened.push(wanted.clone());
            let found = studio.tracks.iter().find(|(name, _)| *name == wanted);
            match found {
                Some((_, track)) => {
                    studio.decoder = Some((track.clone(), 0));
                    Some(Outcome::DecoderOpened)
                }
                None => Some(Outcome::DecodeFailed(DecodeError::NotFound)),
            }
        }
        Request::OpenSink(format) => {
            assert_eq!(format, SinkFormat { sample_rate: 44100, channels: 2 });
            assert!(studio.decoder.is_some(), "the device is opened before the decoder");
            assert!(!studio.sink_open, "the device is still open");
            studio.sinks_opened += 1;
            match studio.device {
                Ok(()) => {
                    studio.sink_open = true;
                    Some(Outcome::SinkOpened)
                }
                Err(error) => Some(Outcome::SinkFailed(error)),
            }
        }
        Request::NextFrame => {
            let corrupt_after = studio.corrupt_after;
            let (track, at) = studio.decoder.as_mut().expect("no decoder is open");
            if corrupt_after == Some(*at) {
                Some(Outcome::DecodeFailed(DecodeError::Corrupt))
            } else if *at < track.len() {
                let next = track[*at];
                *at += 1;
                Some(Outcome::Frame(next))
            } else {
                Some(Outcome::EndOfStream)
            }
        }
        Request::Write(frame) => {
            assert!(studio.sink_open, "no device is open");
            studio.written.push(frame);
            Some(Outcome::Written)
        }
        Request::Release => {
            studio.decoder = None;
            studio.sink_open = false;
            studio.releases += 1;
            Some(Outcome::Released)
        }
    }
}

/// Drives the engine until it asks to wait for a command, at most `limit`
/// steps. Returns the number of steps taken.
fn run(engine: &mut EventLoop, studio: &mut Studio, limit: usize) -> usize {
    let mut outcome = Outcome::Ready;
    let mut steps = 0;
    while steps < limit {
        let directive = engine.step(outcome);
        steps += 1;
        studio.flags.push(engine.is_playing());
        assert_eq!(
            engine.is_playing(),
            matches!(engine.state(), EngineState::Playing(_))
        );
        if let Some(error) = directive.report {
            studio.reports.push(error);
        }
        match perform(studio, directive.request) {
            Some(next) => outcome = next,
            None => return steps,
        }
    }
    steps
}

#[test]
fn fresh_engine_is_idle_and_silent() {
    let engine = EventLoop::new();
    assert_eq!(*engine.state(), EngineState::Idle);
    assert!(!engine.is_playing());
    assert!(!engine.has_pending());
}

#[test]
fn idle_engine_with_empty_queue_waits() {
    let mut engine = EventLoop::new();
    assert_eq!(engine.step(Outcome::Ready), plain(Request::AwaitCommand));
    assert_eq!(*engine.state(), EngineState::Idle);
    assert!(!engine.is_playing());
}

#[test]
fn enqueue_touches_only_the_queue() {
    let mut engine = EventLoop::new();
    engine.enqueue_load(path("a.mp3"));
    assert!(engine.has_pending());
    assert_eq!(*engine.state(), EngineState::Idle);
    assert!(!engine.is_playing());
    engine.enqueue_stop();
    assert!(engine.has_pending());
    assert_eq!(*engine.state(), EngineState::Idle);
}

#[test]
fn stop_while_idle_is_a_no_op() {
    let mut engine = EventLoop::new();
    let mut studio = studio(vec![(path("a.mp3"), frames(0, 3))]);
    engine.enqueue_stop();
    assert_eq!(engine.step(Outcome::Ready), plain(Request::AwaitCommand));
    assert_eq!(*engine.state(), EngineState::Idle);
    assert!(!engine.is_playing());
    assert!(!engine.has_pending());
    engine.enqueue_stop();
    engine.enqueue_stop();
    let mut rounds = 0;
    while engine.has_pending() {
        run(&mut engine, &mut studio, 10);
        rounds += 1;
    }
    assert_eq!(rounds, 2);
    assert!(studio.opened.is_empty());
    assert_eq!(studio.sinks_opened, 0);
    assert_eq!(studio.releases, 0);
    assert!(studio.flags.iter().all(|flag| !flag));
}

#[test]
fn load_asks_for_decoder_then_device_then_frames() {
    let mut engine = EventLoop::new();
    engine.enqueue_load(path("a.mp3"));
    assert_eq!(
        engine.step(Outcome::Ready),
        plain(Request::OpenDecoder(path("a.mp3")))
    );
    assert_eq!(*engine.state(), EngineState::Loading(path("a.mp3")));
    assert!(!engine.is_playing());
    assert_eq!(
        engine.step(Outcome::DecoderOpened),
        plain(Request::OpenSink(SinkFormat { sample_rate: 44100, channels: 2 }))
    );
    assert_eq!(*engine.state(), EngineState::Loading(path("a.mp3")));
    assert!(!engine.is_playing());
    assert_eq!(engine.step(Outcome::SinkOpened), plain(Request::NextFrame));
    assert_eq!(*engine.state(), EngineState::Playing(path("a.mp3")));
    assert!(engine.is_playing());
    assert_eq!(
        engine.step(Outcome::Frame(frame(7))),
        plain(Request::Write(frame(7)))
    );
    assert!(engine.is_playing());
    assert_eq!(engine.step(Outcome::Written), plain(Request::NextFrame));
    assert_eq!(engine.step(Outcome::EndOfStream), plain(Request::Release));
    assert_eq!(*engine.state(), EngineState::Stopping);
    assert!(!engine.is_playing());
    assert_eq!(engine.step(Outcome::Released), plain(Request::AwaitCommand));
    assert_eq!(*engine.state(), EngineState::Idle);
    assert!(!engine.is_playing());
}

#[test]
fn track_of_n_frames_is_written_in_order() {
    let mut engine = EventLoop::new();
    let track = frames(100, 25);
    let mut studio = studio(vec![(path("a.mp3"), track.clone())]);
    engine.enqueue_load(path("a.mp3"));
    let steps = run(&mut engine, &mut studio, 1000);
    assert_eq!(steps, 5 + 2 * 25);
    assert_eq!(studio.written, track);
    assert_eq!(studio.opened, vec![path("a.mp3")]);
    assert_eq!(studio.sinks_opened, 1);
    assert_eq!(studio.releases, 1);
    assert!(studio.reports.is_empty());
    assert_eq!(*engine.state(), EngineState::Idle);
    assert!(!engine.is_playing());
}

#[test]
fn empty_track_writes_nothing() {
    let mut engine = EventLoop::new();
    let mut studio = studio(vec![(path("silence.mp3"), Vec::new())]);
    engine.enqueue_load(path("silence.mp3"));
    let steps = run(&mut engine, &mut studio, 100);
    assert_eq!(steps, 5);
    assert!(studio.written.is_empty());
    assert_eq!(studio.releases, 1);
    assert_eq!(*engine.state(), EngineState::Idle);
    assert!(!engine.is_playing());
}

#[test]
fn flag_is_set_exactly_while_streaming() {
    let mut engine = EventLoop::new();
    let mut studio = studio(vec![(path("a.mp3"), frames(0, 2))]);
    engine.enqueue_load(path("a.mp3"));
    run(&mut engine, &mut studio, 100);
    assert_eq!(
        studio.flags,
        vec![false, false, true, true, true, true, true, false, false]
    );
}

#[test]
fn load_then_load_streams_only_the_second() {
    let mut engine = EventLoop::new();
    let first = frames(0, 4);
    let second = frames(1000, 6);
    let mut studio = studio(vec![
        (path("a.mp3"), first),
        (path("b.mp3"), second.clone()),
    ]);
    engine.enqueue_load(path("a.mp3"));
    engine.enqueue_load(path("b.mp3"));
    run(&mut engine, &mut studio, 1000);
    assert_eq!(studio.opened, vec![path("a.mp3"), path("b.mp3")]);
    assert_eq!(studio.written, second);
    assert_eq!(studio.releases, 2);
    assert_eq!(*engine.state(), EngineState::Idle);
    assert!(!engine.is_playing());
}

#[test]
fn load_during_playback_replaces_the_track() {
    let mut engine = EventLoop::new();
    engine.enqueue_load(path("a.mp3"));
    engine.step(Outcome::Ready);
    engine.step(Outcome::DecoderOpened);
    engine.step(Outcome::SinkOpened);
    assert_eq!(
        engine.step(Outcome::Frame(frame(1))),
        plain(Request::Write(frame(1)))
    );
    engine.enqueue_load(path("b.mp3"));
    assert_eq!(engine.step(Outcome::Written), plain(Request::Release));
    assert_eq!(*engine.state(), EngineState::Stopping);
    assert!(!engine.is_playing());
    assert_eq!(
        engine.step(Outcome::Released),
        plain(Request::OpenDecoder(path("b.mp3")))
    );
    assert_eq!(*engine.state(), EngineState::Loading(path("b.mp3")));
    engine.step(Outcome::DecoderOpened);
    assert_eq!(engine.step(Outcome::SinkOpened), plain(Request::NextFrame));
    assert_eq!(*engine.state(), EngineState::Playing(path("b.mp3")));
    assert!(engine.is_playing());
}

#[test]
fn frame_in_hand_is_written_before_a_command_is_heeded() {
    let mut engine = EventLoop::new();
    engine.enqueue_load(path("a.mp3"));
    engine.step(Outcome::Ready);
    engine.step(Outcome::DecoderOpened);
    engine.step(Outcome::SinkOpened);
    engine.enqueue_stop();
    assert_eq!(
        engine.step(Outcome::Frame(frame(9))),
        plain(Request::Write(frame(9)))
    );
    assert!(engine.is_playing());
    assert_eq!(engine.step(Outcome::Written), plain(Request::Release));
}

#[test]
fn stop_during_playback_ends_idle() {
    let mut engine = EventLoop::new();
    engine.enqueue_load(path("a.mp3"));
    engine.step(Outcome::Ready);
    engine.step(Outcome::DecoderOpened);
    engine.step(Outcome::SinkOpened);
    engine.step(Outcome::Frame(frame(1)));
    engine.enqueue_stop();
    assert_eq!(engine.step(Outcome::Written), plain(Request::Release));
    assert!(!engine.is_playing());
    assert_eq!(engine.step(Outcome::Released), plain(Request::AwaitCommand));
    assert_eq!(*engine.state(), EngineState::Idle);
    assert!(!engine.is_playing());
    assert!(!engine.has_pending());
}

#[test]
fn load_then_stop_are_heeded_in_that_order() {
    let mut engine = EventLoop::new();
    let mut studio = studio(vec![(path("a.mp3"), frames(0, 50))]);
    engine.enqueue_load(path("a.mp3"));
    engine.enqueue_stop();
    run(&mut engine, &mut studio, 1000);
    assert_eq!(studio.opened, vec![path("a.mp3")]);
    assert!(studio.written.is_empty());
    assert_eq!(studio.releases, 1);
    assert_eq!(*engine.state(), EngineState::Idle);
    assert!(!engine.is_playing());
    assert!(!engine.has_pending());
}

#[test]
fn stop_then_load_plays_the_track() {
    let mut engine = EventLoop::new();
    let track = frames(0, 3);
    let mut studio = studio(vec![(path("a.mp3"), track.clone())]);
    engine.enqueue_stop();
    engine.enqueue_load(path("a.mp3"));
    assert_eq!(run(&mut engine, &mut studio, 1000), 1);
    assert!(engine.has_pending());
    run(&mut engine, &mut studio, 1000);
    assert_eq!(studio.written, track);
    assert_eq!(*engine.state(), EngineState::Idle);
}

#[test]
fn missing_file_returns_to_idle() {
    let mut engine = EventLoop::new();
    let mut studio = studio(Vec::new());
    engine.enqueue_load(path("nowhere.mp3"));
    run(&mut engine, &mut studio, 100);
    assert_eq!(studio.reports, vec![EngineError::Decode(DecodeError::NotFound)]);
    assert_eq!(studio.sinks_opened, 0);
    assert!(studio.written.is_empty());
    assert!(studio.flags.iter().all(|flag| !flag));
    assert_eq!(*engine.state(), EngineState::Idle);
    assert!(!engine.is_playing());
}

#[test]
fn missing_file_step_by_step() {
    let mut engine = EventLoop::new();
    engine.enqueue_load(path("nowhere.mp3"));
    assert_eq!(
        engine.step(Outcome::Ready),
        plain(Request::OpenDecoder(path("nowhere.mp3")))
    );
    assert_eq!(
        engine.step(Outcome::DecodeFailed(DecodeError::NotFound)),
        Directive {
            request: Request::Release,
            report: Some(EngineError::Decode(DecodeError::NotFound)),
        }
    );
    assert_eq!(*engine.state(), EngineState::Stopping);
    assert!(!engine.is_playing());
    assert_eq!(engine.step(Outcome::Released), plain(Request::AwaitCommand));
    assert_eq!(*engine.state(), EngineState::Idle);
}

#[test]
fn unsupported_format_is_reported() {
    let mut engine = EventLoop::new();
    engine.enqueue_load(path("notes.txt"));
    engine.step(Outcome::Ready);
    assert_eq!(
        engine.step(Outcome::DecodeFailed(DecodeError::UnsupportedFormat)),
        Directive {
            request: Request::Release,
            report: Some(EngineError::Decode(DecodeError::UnsupportedFormat)),
        }
    );
    assert!(!engine.is_playing());
}

#[test]
fn corrupt_stream_stops_the_track_and_is_reported() {
    let mut engine = EventLoop::new();
    let mut studio = studio(vec![(path("a.mp3"), frames(0, 10))]);
    studio.corrupt_after = Some(4);
    engine.enqueue_load(path("a.mp3"));
    run(&mut engine, &mut studio, 1000);
    assert_eq!(studio.written, frames(0, 4));
    assert_eq!(studio.reports, vec![EngineError::Decode(DecodeError::Corrupt)]);
    assert_eq!(studio.releases, 1);
    assert_eq!(*engine.state(), EngineState::Idle);
    assert!(!engine.is_playing());
}

#[test]
fn unavailable_device_releases_the_decoder() {
    let mut engine = EventLoop::new();
    let mut studio = studio(vec![(path("a.mp3"), frames(0, 10))]);
    studio.device = Err(SinkError::DeviceUnavailable);
    engine.enqueue_load(path("a.mp3"));
    run(&mut engine, &mut studio, 1000);
    assert_eq!(
        studio.reports,
        vec![EngineError::Sink(SinkError::DeviceUnavailable)]
    );
    assert!(studio.written.is_empty());
    assert!(studio.decoder.is_none());
    assert_eq!(studio.releases, 1);
    assert!(studio.flags.iter().all(|flag| !flag));
    assert_eq!(*engine.state(), EngineState::Idle);
}

#[test]
fn rejected_format_is_reported() {
    let mut engine = EventLoop::new();
    engine.enqueue_load(path("a.mp3"));
    engine.step(Outcome::Ready);
    engine.step(Outcome::DecoderOpened);
    assert_eq!(
        engine.step(Outcome::SinkFailed(SinkError::FormatRejected)),
        Directive {
            request: Request::Release,
            report: Some(EngineError::Sink(SinkError::FormatRejected)),
        }
    );
    assert_eq!(*engine.state(), EngineState::Stopping);
}

#[test]
fn device_failure_in_mid_stream_stops_the_track() {
    let mut engine = EventLoop::new();
    engine.enqueue_load(path("a.mp3"));
    engine.step(Outcome::Ready);
    engine.step(Outcome::DecoderOpened);
    engine.step(Outcome::SinkOpened);
    engine.step(Outcome::Frame(frame(1)));
    assert_eq!(
        engine.step(Outcome::SinkFailed(SinkError::DeviceUnavailable)),
        Directive {
            request: Request::Release,
            report: Some(EngineError::Sink(SinkError::DeviceUnavailable)),
        }
    );
    assert!(!engine.is_playing());
}

#[test]
fn engine_survives_a_failed_track() {
    let mut engine = EventLoop::new();
    let good = frames(5, 5);
    let mut studio = studio(vec![(path("good.mp3"), good.clone())]);
    engine.enqueue_load(path("bad.mp3"));
    run(&mut engine, &mut studio, 1000);
    engine.enqueue_load(path("good.mp3"));
    run(&mut engine, &mut studio, 1000);
    assert_eq!(studio.written, good);
    assert_eq!(studio.reports, vec![EngineError::Decode(DecodeError::NotFound)]);
    assert_eq!(*engine.state(), EngineState::Idle);
}

#[test]
fn outcome_that_answers_nothing_winds_the_session_down() {
    let mut engine = EventLoop::new();
    engine.enqueue_load(path("a.mp3"));
    engine.step(Outcome::Ready);
    assert_eq!(engine.step(Outcome::Written), plain(Request::Release));
    assert_eq!(*engine.state(), EngineState::Stopping);

    let mut engine = EventLoop::new();
    engine.enqueue_load(path("a.mp3"));
    engine.step(Outcome::Ready);
    engine.step(Outcome::DecoderOpened);
    engine.step(Outcome::SinkOpened);
    assert_eq!(engine.step(Outcome::Ready), plain(Request::Release));
    assert_eq!(*engine.state(), EngineState::Stopping);
    assert!(!engine.is_playing());
}

#[test]
fn stopping_engine_insists_on_release() {
    let mut engine = EventLoop::new();
    engine.enqueue_load(path("a.mp3"));
    engine.step(Outcome::Ready);
    engine.step(Outcome::DecoderOpened);
    engine.step(Outcome::SinkOpened);
    engine.step(Outcome::EndOfStream);
    engine.enqueue_load(path("b.mp3"));
    assert_eq!(engine.step(Outcome::Written), plain(Request::Release));
    assert_eq!(engine.step(Outcome::Ready), plain(Request::Release));
    assert_eq!(*engine.state(), EngineState::Stopping);
    assert!(engine.has_pending());
    assert_eq!(
        engine.step(Outcome::Released),
        plain(Request::OpenDecoder(path("b.mp3")))
    );
}

#[test]
fn idle_engine_ignores_what_is_reported() {
    let mut engine = EventLoop::new();
    assert_eq!(
        engine.step(Outcome::DecodeFailed(DecodeError::Corrupt)),
        plain(Request::AwaitCommand)
    );
    assert_eq!(
        engine.step(Outcome::Frame(frame(3))),
        plain(Request::AwaitCommand)
    );
    assert_eq!(*engine.state(), EngineState::Idle);
    assert!(!engine.is_playing());
}

#[test]
fn standard_format_is_stereo_at_default_rate() {
    assert_eq!(DEFAULT_RATE, 44100);
    assert_eq!(CHANNELS, 2);
    assert_eq!(
        SinkFormat::standard(),
        SinkFormat { sample_rate: 44100, channels: 2 }
    );
}

#[test]
fn commands_of_a_long_session_are_heeded_in_order() {
    let mut engine = EventLoop::new();
    let mut studio = studio(vec![
        (path("a.mp3"), frames(0, 2)),
        (path("b.mp3"), frames(10, 2)),
        (path("c.mp3"), frames(20, 2)),
    ]);
    engine.enqueue_load(path("a.mp3"));
    run(&mut engine, &mut studio, 1000);
    engine.enqueue_stop();
    engine.enqueue_load(path("b.mp3"));
    while engine.has_pending() {
        run(&mut engine, &mut studio, 1000);
    }
    engine.enqueue_load(path("c.mp3"));
    run(&mut engine, &mut studio, 1000);
    assert_eq!(
        studio.opened,
        vec![path("a.mp3"), path("b.mp3"), path("c.mp3")]
    );
    let mut expected = frames(0, 2);
    expected.extend(frames(10, 2));
    expected.extend(frames(20, 2));
    assert_eq!(studio.written, expected);
    assert_eq!(Action::Stop, Action::Stop);
}
