use trombone::audio_core::config::{Direction, StreamConfig};
use trombone::audio_core::error::AudioError;
use trombone::audio_core::stream::{Stream, StreamState};

fn no_backend() -> Result<(), AudioError> {
    Ok(())
}

#[test]
fn start_stop_transitions_update_state() {
    let mut stream = Stream::new(StreamConfig::default());
    assert_eq!(stream.state(), StreamState::Stopped);

    stream
        .set_render_callback(no_backend)
        .expect("callback should set");
    stream.start(false, no_backend).expect("start should work");
    assert_eq!(stream.state(), StreamState::Running);

    stream.stop(no_backend).expect("stop should work");
    assert_eq!(stream.state(), StreamState::Stopped);
}

#[test]
fn invalid_transitions_return_error() {
    let mut stream = Stream::new(StreamConfig::default());

    let stop_err = stream
        .stop(no_backend)
        .expect_err("stop before start should fail");
    assert_eq!(stop_err, AudioError::InvalidStateTransition);

    stream
        .set_render_callback(no_backend)
        .expect("callback should set");
    stream.start(false, no_backend).expect("first start should work");
    let start_err = stream
        .start(false, no_backend)
        .expect_err("second start should fail");
    assert_eq!(start_err, AudioError::InvalidStateTransition);
}

#[test]
fn backend_start_failure_keeps_stream_stopped() {
    let mut stream = Stream::new(StreamConfig::default());
    stream
        .set_render_callback(no_backend)
        .expect("callback should set");

    let err = stream
        .start(false, || Err(AudioError::BackendFailure { code: -100 }))
        .expect_err("backend failure should bubble up");
    assert_eq!(err, AudioError::BackendFailure { code: -100 });
    assert_eq!(stream.state(), StreamState::Stopped);
}

#[test]
fn callback_can_only_be_set_while_stopped() {
    let mut stream = Stream::new(StreamConfig::default());
    stream
        .set_render_callback(no_backend)
        .expect("setting callback while stopped should work");
    stream
        .set_capture_callback(no_backend)
        .expect("setting capture callback while stopped should work");

    stream.start(false, no_backend).expect("start should work");
    let err = stream
        .set_render_callback(no_backend)
        .expect_err("changing callback while running should fail");
    assert_eq!(err, AudioError::InvalidStateTransition);
    let capture_err = stream
        .set_capture_callback(no_backend)
        .expect_err("changing capture callback while running should fail");
    assert_eq!(capture_err, AudioError::InvalidStateTransition);
}

#[test]
fn start_without_output_callback_fails() {
    let mut stream = Stream::new(StreamConfig::default());
    let err = stream
        .start(false, no_backend)
        .expect_err("output stream start should fail without callback");
    assert_eq!(err, AudioError::RenderCallbackNotSet);
}

#[test]
fn start_without_input_callback_fails() {
    let config = StreamConfig {
        direction: Direction::Input,
        ..StreamConfig::default()
    };
    let mut stream = Stream::new(config);
    let err = stream
        .start(false, no_backend)
        .expect_err("input stream start should fail without callback");
    assert_eq!(err, AudioError::CaptureCallbackNotSet);
}

#[test]
fn refused_start_does_not_run_backend_start() {
    let mut stream = Stream::new(StreamConfig::default());
    let mut ran = false;
    let err = stream.start(false, || {
        ran = true;
        Ok(())
    });
    assert_eq!(err, Err(AudioError::RenderCallbackNotSet));
    assert!(!ran);
    assert_eq!(stream.state(), StreamState::Stopped);
}

#[test]
fn backend_stop_failure_keeps_stream_running() {
    let mut stream = Stream::new(StreamConfig::default());
    stream.set_render_callback(no_backend).unwrap();
    stream.start(false, no_backend).unwrap();
    let err = stream.stop(|| Err(AudioError::BackendFailure { code: -200 }));
    assert_eq!(err, Err(AudioError::BackendFailure { code: -200 }));
    assert_eq!(stream.state(), StreamState::Running);
    stream.stop(no_backend).unwrap();
    assert_eq!(stream.state(), StreamState::Stopped);
}

#[test]
fn failed_callback_store_leaves_callback_unset() {
    let mut stream = Stream::new(StreamConfig::default());
    let err = stream.set_render_callback(|| Err(AudioError::BackendFailure { code: -3 }));
    assert_eq!(err, Err(AudioError::BackendFailure { code: -3 }));
    assert!(!stream.has_render_callback());
    assert_eq!(stream.start(false, no_backend), Err(AudioError::RenderCallbackNotSet));
}

#[test]
fn start_then_stop_restores_stream() {
    let config = StreamConfig {
        direction: Direction::Input,
        ..StreamConfig::default()
    };
    let mut stream = Stream::new(config);
    stream.set_capture_callback(no_backend).unwrap();
    stream.start(false, no_backend).unwrap();
    stream.stop(no_backend).unwrap();
    assert_eq!(stream.state(), StreamState::Stopped);
    assert_eq!(stream.config(), config);
    assert!(stream.has_capture_callback());
    assert!(!stream.has_render_callback());
    stream.start(false, no_backend).unwrap();
    assert_eq!(stream.state(), StreamState::Running);
}

#[test]
fn default_config_values() {
    let config = StreamConfig::default();
    assert_eq!(config.channels.get(), 2);
    assert_eq!(config.sample_rate_hz.get(), 48_000);
    assert_eq!(config.frames_per_burst.get(), 192);
    assert_eq!(config.direction, Direction::Output);
}

#[test]
fn poisoned_callback_lock_refuses_start() {
    let mut stream = Stream::new(StreamConfig::default());
    stream.set_render_callback(no_backend).unwrap();
    let mut ran = false;
    let err = stream.start(true, || {
        ran = true;
        Ok(())
    });
    assert_eq!(err, Err(AudioError::BackendFailure { code: -3 }));
    assert!(!ran);
    assert_eq!(stream.state(), StreamState::Stopped);

    let config = StreamConfig {
        direction: Direction::Input,
        ..StreamConfig::default()
    };
    let mut input = Stream::new(config);
    assert_eq!(input.start(true, no_backend), Err(AudioError::BackendFailure { code: -4 }));
}

#[test]
fn render_into_uses_registered_callback() {
    let mut stream = Stream::new(StreamConfig::default());
    stream.set_render_callback(no_backend).expect("callback should set");
    let mut out = [0.0_f32; 8];
    let mut seen = false;
    stream
        .render_into(false, || {
            out.fill(0.75);
            seen = true;
        })
        .expect("render should work");
    assert!(seen);
    assert_eq!(out, [0.75_f32; 8]);
}

#[test]
fn render_into_without_callback_returns_error() {
    let stream = Stream::new(StreamConfig::default());
    let mut out = [0.0_f32; 4];
    let err = stream
        .render_into(false, || out.fill(0.5))
        .expect_err("render without callback should fail");
    assert_eq!(err, AudioError::RenderCallbackNotSet);
    assert_eq!(out, [0.0_f32; 4]);
}

#[test]
fn capture_from_uses_registered_callback() {
    let config = StreamConfig {
        direction: Direction::Input,
        ..StreamConfig::default()
    };
    let mut stream = Stream::new(config);
    stream.set_capture_callback(no_backend).expect("callback should set");
    let input = [0.1_f32; 8];
    let mut seen = false;
    stream
        .capture_from(false, || {
            if !input.is_empty() {
                seen = true;
            }
        })
        .expect("capture should work");
    assert!(seen);
}

#[test]
fn capture_from_without_callback_returns_error() {
    let config = StreamConfig {
        direction: Direction::Input,
        ..StreamConfig::default()
    };
    let stream = Stream::new(config);
    let err = stream
        .capture_from(false, || {})
        .expect_err("capture without callback should fail");
    assert_eq!(err, AudioError::CaptureCallbackNotSet);
    assert_eq!(
        stream.capture_from(true, || {}),
        Err(AudioError::BackendFailure { code: -4 })
    );
}
