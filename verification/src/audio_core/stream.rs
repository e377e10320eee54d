//! Stream state and lifecycle.
//!
//! `Stream` holds the settings, the lifecycle state and which callbacks have
//! been registered. The work that a platform does on start, stop and callback
//! registration is handed in as a closure; the stream decides whether that
//! work happens at all and what state follows from its outcome.
use vstd::prelude::*;
use crate::audio_core::config::{Direction, StreamConfig};
use crate::audio_core::error::{AudioError, Result};

verus! {

/// Current stream state.
#[derive(Debug, Clone, Copy, PartialEq, Eq, Structural)]
pub enum StreamState {
    /// Created, not started.
    Stopped,
    /// Running callbacks.
    Running,
    /// Stream hit a recoverable runtime fault.
    XRun,
}

/// What a stream is, as far as its contracts speak of it.
pub struct StreamModel {
    /// Settings the stream was created with.
    pub config: StreamConfig,
    /// Lifecycle state.
    pub state: StreamState,
    /// Whether an output callback has been registered.
    pub render_callback_set: bool,
    /// Whether an input callback has been registered.
    pub capture_callback_set: bool,
}

impl StreamModel {
    /// The same stream in state `state`.
    pub open spec fn with_state(self, state: StreamState) -> StreamModel {
        StreamModel { state, ..self }
    }

    /// The same stream with its output callback registered.
    pub open spec fn with_render_callback(self) -> StreamModel {
        StreamModel { render_callback_set: true, ..self }
    }

    /// The same stream with its input callback registered.
    pub open spec fn with_capture_callback(self) -> StreamModel {
        StreamModel { capture_callback_set: true, ..self }
    }
}

/// The freshly created stream for `config`: stopped, with no callbacks.
pub open spec fn new_stream_model(config: StreamConfig) -> StreamModel {
    StreamModel {
        config,
        state: StreamState::Stopped,
        render_callback_set: false,
        capture_callback_set: false,
    }
}

/// The failure code of a poisoned output callback lock.
pub const RENDER_LOCK_POISONED: i32 = -3;
/// The failure code of a poisoned input callback lock.
pub const CAPTURE_LOCK_POISONED: i32 = -4;

/// Why rendering a buffer is refused, or `None` when the output callback
/// runs: a poisoned output callback lock is failure `-3`, and a stream with no
/// output callback answers `RenderCallbackNotSet`.
pub open spec fn render_refusal(m: StreamModel, lock_poisoned: bool) -> Option<AudioError> {
    if lock_poisoned {
        Some(AudioError::BackendFailure { code: RENDER_LOCK_POISONED })
    } else if m.render_callback_set {
        None
    } else {
        Some(AudioError::RenderCallbackNotSet)
    }
}

/// Why consuming an input buffer is refused, or `None` when the input
/// callback runs: a poisoned input callback lock is failure `-4`, and a
/// stream with no input callback answers `CaptureCallbackNotSet`.
pub open spec fn capture_refusal(m: StreamModel, lock_poisoned: bool) -> Option<AudioError> {
    if lock_poisoned {
        Some(AudioError::BackendFailure { code: CAPTURE_LOCK_POISONED })
    } else if m.capture_callback_set {
        None
    } else {
        Some(AudioError::CaptureCallbackNotSet)
    }
}

/// Why `start` refuses to run the platform start, or `None` when it goes ahead:
/// only a stopped stream starts, and it needs the callback of its direction,
/// looked up under that callback's lock (`lock_poisoned` tells whether the
/// lock is poisoned).
pub open spec fn start_refusal(m: StreamModel, lock_poisoned: bool) -> Option<AudioError> {
    match m.state {
        StreamState::Stopped => match m.config.direction {
            Direction::Output => render_refusal(m, lock_poisoned),
            Direction::Input => capture_refusal(m, lock_poisoned),
        },
        StreamState::Running | StreamState::XRun => Some(AudioError::InvalidStateTransition),
    }
}

/// Why `stop` refuses to run the platform stop, or `None` when it goes ahead:
/// only a running (or faulted) stream stops.
pub open spec fn stop_refusal(m: StreamModel) -> Option<AudioError> {
    match m.state {
        StreamState::Running | StreamState::XRun => None,
        StreamState::Stopped => Some(AudioError::InvalidStateTransition),
    }
}

/// Why a callback cannot be registered now, or `None` when it can:
/// callbacks change only while the stream is stopped.
pub open spec fn callback_refusal(m: StreamModel) -> Option<AudioError> {
    if m.state == StreamState::Stopped {
        None
    } else {
        Some(AudioError::InvalidStateTransition)
    }
}

/// `r` is the outcome `expected` describes: the same error, or a stream whose
/// model is the expected one.
pub open spec fn outcome_is(r: Result<Stream>, expected: Result<StreamModel>) -> bool {
    match expected {
        Ok(m) => r matches Ok(s) && s@ == m,
        Err(e) => r == Err::<Stream, AudioError>(e),
    }
}

/// Stream handle used across backends.
pub struct Stream {
    config: StreamConfig,
    state: StreamState,
    render_callback_set: bool,
    capture_callback_set: bool,
}

impl View for Stream {
    type V = StreamModel;

    closed spec fn view(&self) -> StreamModel {
        StreamModel {
            config: self.config,
            state: self.state,
            render_callback_set: self.render_callback_set,
            capture_callback_set: self.capture_callback_set,
        }
    }
}

impl Stream {
    /// Create a new stopped stream.
    pub fn new(config: StreamConfig) -> (r: Self)
        ensures
            r@ == new_stream_model(config),
    {
        Stream {
            config,
            state: StreamState::Stopped,
            render_callback_set: false,
            capture_callback_set: false,
        }
    }

    /// Get stream config.
    pub fn config(&self) -> (r: StreamConfig)
        ensures
            r == self@.config,
    {
        self.config
    }

    /// Get current state.
    pub fn state(&self) -> (r: StreamState)
        ensures
            r == self@.state,
    {
        self.state
    }

    /// Start the stream.
    ///
    /// A stream that is not stopped, or whose callback of its direction is
    /// missing or sits under a poisoned lock (`lock_poisoned`), is refused and
    /// `backend_start` is not run. Otherwise `backend_start` runs once: its
    /// error is returned with the stream left stopped, and its success leaves
    /// the stream running.
    pub fn start<F>(&mut self, lock_poisoned: bool, backend_start: F) -> (r: Result<()>)
        where
            F: FnOnce() -> Result<()>,
        requires
            start_refusal(old(self)@, lock_poisoned) is None ==> backend_start.requires(()),
        ensures
            start_refusal(old(self)@, lock_poisoned) matches Some(e) ==> r == Err::<(), AudioError>(e)
                && final(self)@ == old(self)@,
            start_refusal(old(self)@, lock_poisoned) is None ==> backend_start.ensures((), r),
            start_refusal(old(self)@, lock_poisoned) is None && r is Ok ==> final(self)@
                == old(self)@.with_state(StreamState::Running),
            start_refusal(old(self)@, lock_poisoned) is None && r is Err ==> final(self)@ == old(self)@,
    {
        match self.state {
            StreamState::Stopped => {
                let refusal = match self.config.direction {
                    Direction::Output => self.render_check(lock_poisoned),
                    Direction::Input => self.capture_check(lock_poisoned),
                };
                if let Err(e) = refusal {
                    return Err(e);
                }
                let outcome = backend_start();
                if outcome.is_ok() {
                    self.state = StreamState::Running;
                }
                outcome
            },
            StreamState::Running | StreamState::XRun => Err(AudioError::InvalidStateTransition),
        }
    }

    /// Stop the stream.
    ///
    /// A stopped stream is refused and `backend_stop` is not run. Otherwise
    /// `backend_stop` runs once: its error is returned with the state left as
    /// it was, and its success leaves the stream stopped.
    pub fn stop<F>(&mut self, backend_stop: F) -> (r: Result<()>)
        where
            F: FnOnce() -> Result<()>,
        requires
            stop_refusal(old(self)@) is None ==> backend_stop.requires(()),
        ensures
            stop_refusal(old(self)@) matches Some(e) ==> r == Err::<(), AudioError>(e)
                && final(self)@ == old(self)@,
            stop_refusal(old(self)@) is None ==> backend_stop.ensures((), r),
            stop_refusal(old(self)@) is None && r is Ok ==> final(self)@ == old(self)@.with_state(
                StreamState::Stopped,
            ),
            stop_refusal(old(self)@) is None && r is Err ==> final(self)@ == old(self)@,
    {
        match self.state {
            StreamState::Running | StreamState::XRun => {
                let outcome = backend_stop();
                if outcome.is_ok() {
                    self.state = StreamState::Stopped;
                }
                outcome
            },
            StreamState::Stopped => Err(AudioError::InvalidStateTransition),
        }
    }

    /// Set the output callback.
    ///
    /// Callback can only be changed while stopped: otherwise the call is
    /// refused and `store` is not run. While stopped, `store` (which hands the
    /// callback to the platform side) runs once; on success the stream has an
    /// output callback, on failure its error is returned and nothing changes.
    pub fn set_render_callback<F>(&mut self, store: F) -> (r: Result<()>)
        where
            F: FnOnce() -> Result<()>,
        requires
            callback_refusal(old(self)@) is None ==> store.requires(()),
        ensures
            callback_refusal(old(self)@) matches Some(e) ==> r == Err::<(), AudioError>(e)
                && final(self)@ == old(self)@,
            callback_refusal(old(self)@) is None ==> store.ensures((), r),
            callback_refusal(old(self)@) is None && r is Ok ==> final(self)@
                == old(self)@.with_render_callback(),
            callback_refusal(old(self)@) is None && r is Err ==> final(self)@ == old(self)@,
    {
        if self.state != StreamState::Stopped {
            return Err(AudioError::InvalidStateTransition);
        }
        let outcome = store();
        if outcome.is_ok() {
            self.render_callback_set = true;
        }
        outcome
    }

    /// Set the input callback.
    ///
    /// Callback can only be changed while stopped: otherwise the call is
    /// refused and `store` is not run. While stopped, `store` runs once; on
    /// success the stream has an input callback, on failure its error is
    /// returned and nothing changes.
    pub fn set_capture_callback<F>(&mut self, store: F) -> (r: Result<()>)
        where
            F: FnOnce() -> Result<()>,
        requires
            callback_refusal(old(self)@) is None ==> store.requires(()),
        ensures
            callback_refusal(old(self)@) matches Some(e) ==> r == Err::<(), AudioError>(e)
                && final(self)@ == old(self)@,
            callback_refusal(old(self)@) is None ==> store.ensures((), r),
            callback_refusal(old(self)@) is None && r is Ok ==> final(self)@
                == old(self)@.with_capture_callback(),
            callback_refusal(old(self)@) is None && r is Err ==> final(self)@ == old(self)@,
    {
        if self.state != StreamState::Stopped {
            return Err(AudioError::InvalidStateTransition);
        }
        let outcome = store();
        if outcome.is_ok() {
            self.capture_callback_set = true;
        }
        outcome
    }

    /// Whether the output callback can run: `Ok` when one is registered and
    /// its lock is sound, else the error `render_refusal` names.
    fn render_check(&self, lock_poisoned: bool) -> (r: Result<()>)
        ensures
            r == (match render_refusal(self@, lock_poisoned) {
                Some(e) => Err::<(), AudioError>(e),
                None => Ok(()),
            }),
    {
        if lock_poisoned {
            Err(AudioError::BackendFailure { code: RENDER_LOCK_POISONED })
        } else if self.render_callback_set {
            Ok(())
        } else {
            Err(AudioError::RenderCallbackNotSet)
        }
    }

    /// Whether the input callback can run: `Ok` when one is registered and
    /// its lock is sound, else the error `capture_refusal` names.
    fn capture_check(&self, lock_poisoned: bool) -> (r: Result<()>)
        ensures
            r == (match capture_refusal(self@, lock_poisoned) {
                Some(e) => Err::<(), AudioError>(e),
                None => Ok(()),
            }),
    {
        if lock_poisoned {
            Err(AudioError::BackendFailure { code: CAPTURE_LOCK_POISONED })
        } else if self.capture_callback_set {
            Ok(())
        } else {
            Err(AudioError::CaptureCallbackNotSet)
        }
    }

    /// Render one buffer with the registered callback.
    ///
    /// `render` runs the output callback on the buffer. It runs only when
    /// `render_refusal` finds nothing against it (the callback lock is sound
    /// and a callback is registered); otherwise the refusal's error is
    /// returned and `render` does not run.
    pub fn render_into<F>(&self, lock_poisoned: bool, render: F) -> (r: Result<()>)
        where
            F: FnOnce(),
        requires
            render_refusal(self@, lock_poisoned) is None ==> render.requires(()),
        ensures
            render_refusal(self@, lock_poisoned) matches Some(e) ==> r == Err::<(), AudioError>(e),
            render_refusal(self@, lock_poisoned) is None ==> r is Ok && render.ensures((), ()),
    {
        match self.render_check(lock_poisoned) {
            Err(e) => Err(e),
            Ok(()) => {
                render();
                Ok(())
            },
        }
    }

    /// Consume one input buffer with the registered callback.
    ///
    /// `capture` runs the input callback on the buffer. It runs only when
    /// `capture_refusal` finds nothing against it; otherwise the refusal's
    /// error is returned and `capture` does not run.
    pub fn capture_from<F>(&self, lock_poisoned: bool, capture: F) -> (r: Result<()>)
        where
            F: FnOnce(),
        requires
            capture_refusal(self@, lock_poisoned) is None ==> capture.requires(()),
        ensures
            capture_refusal(self@, lock_poisoned) matches Some(e) ==> r == Err::<(), AudioError>(e),
            capture_refusal(self@, lock_poisoned) is None ==> r is Ok && capture.ensures((), ()),
    {
        match self.capture_check(lock_poisoned) {
            Err(e) => Err(e),
            Ok(()) => {
                capture();
                Ok(())
            },
        }
    }

    /// Whether an output callback has been registered.
    pub fn has_render_callback(&self) -> (r: bool)
        ensures
            r == self@.render_callback_set,
    {
        self.render_callback_set
    }

    /// Whether an input callback has been registered.
    pub fn has_capture_callback(&self) -> (r: bool)
        ensures
            r == self@.capture_callback_set,
    {
        self.capture_callback_set
    }
}

/// Starting a stream that may start and then stopping it brings it back to
/// exactly the stream it was: stopped, with the same settings and callbacks.
pub proof fn lemma_start_then_stop_restores(m: StreamModel, lock_poisoned: bool)
    requires
        start_refusal(m, lock_poisoned) is None,
    ensures
        m.state == StreamState::Stopped,
        stop_refusal(m.with_state(StreamState::Running)) is None,
        m.with_state(StreamState::Running).with_state(StreamState::Stopped) == m,
{
}

/// A stream that is running (or faulted) can neither be started again nor have
/// its callbacks changed; both are answered with `InvalidStateTransition`.
pub proof fn lemma_running_refuses_start_and_callbacks(m: StreamModel, lock_poisoned: bool)
    requires
        m.state != StreamState::Stopped,
    ensures
        start_refusal(m, lock_poisoned) == Some(AudioError::InvalidStateTransition),
        callback_refusal(m) == Some(AudioError::InvalidStateTransition),
{
}

/// A stopped stream cannot be stopped again.
pub proof fn lemma_stopped_refuses_stop(m: StreamModel)
    requires
        m.state == StreamState::Stopped,
    ensures
        stop_refusal(m) == Some(AudioError::InvalidStateTransition),
{
}

/// A new stream cannot start until the callback of its direction is
/// registered, and it can start once that callback is registered and its
/// lock is sound.
pub proof fn lemma_new_stream_needs_its_callback(config: StreamConfig)
    ensures
        config.direction == Direction::Output ==> start_refusal(new_stream_model(config), false)
            == Some(AudioError::RenderCallbackNotSet),
        config.direction == Direction::Input ==> start_refusal(new_stream_model(config), false)
            == Some(AudioError::CaptureCallbackNotSet),
        config.direction == Direction::Output ==> start_refusal(
            new_stream_model(config).with_render_callback(),
            false,
        ) is None,
        config.direction == Direction::Input ==> start_refusal(
            new_stream_model(config).with_capture_callback(),
            false,
        ) is None,
{
}

/// A stopped stream whose callback lock is poisoned does not start: the
/// failure is `-3` for an output stream and `-4` for an input stream.
pub proof fn lemma_poisoned_lock_refuses_start(m: StreamModel)
    requires
        m.state == StreamState::Stopped,
    ensures
        m.config.direction == Direction::Output ==> start_refusal(m, true) == Some(
            AudioError::BackendFailure { code: RENDER_LOCK_POISONED },
        ),
        m.config.direction == Direction::Input ==> start_refusal(m, true) == Some(
            AudioError::BackendFailure { code: CAPTURE_LOCK_POISONED },
        ),
{
}

/// Without a registered callback, rendering is refused with
/// `RenderCallbackNotSet` and capturing with `CaptureCallbackNotSet`; once a
/// callback is registered (and its lock is sound) it runs, in any state.
pub proof fn lemma_callbacks_run_only_when_registered(m: StreamModel)
    ensures
        !m.render_callback_set ==> render_refusal(m, false) == Some(AudioError::RenderCallbackNotSet),
        !m.capture_callback_set ==> capture_refusal(m, false) == Some(AudioError::CaptureCallbackNotSet),
        render_refusal(m.with_render_callback(), false) is None,
        capture_refusal(m.with_capture_callback(), false) is None,
        render_refusal(m.with_state(StreamState::Running), false) == render_refusal(m, false),
        capture_refusal(m.with_state(StreamState::Running), false) == capture_refusal(m, false),
{
}

/// No lifecycle step changes a stream's settings.
pub proof fn lemma_steps_keep_config(m: StreamModel, state: StreamState)
    ensures
        m.with_state(state).config == m.config,
        m.with_render_callback().config == m.config,
        m.with_capture_callback().config == m.config,
{
}

} // verus!
