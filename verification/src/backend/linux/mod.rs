//! Linux backend modules.
use vstd::prelude::*;
use crate::audio_core::config::StreamConfig;
use crate::audio_core::error::{AudioError, Result};
use crate::audio_core::stream::{new_stream_model, outcome_is, Stream, StreamModel};
use crate::backend::{fallback, AudioBackend};

pub mod alsa;
pub mod pipewire;

verus! {

/// Linux backend choice.
#[derive(Debug, Clone, Copy, PartialEq, Eq, Structural)]
pub enum LinuxBackendKind {
    /// Auto-select backend (PipeWire first, then ALSA).
    Auto,
    /// ALSA backend.
    Alsa,
    /// PipeWire backend.
    PipeWire,
}

/// Linux backend selector.
#[derive(Debug, Clone, Copy, PartialEq, Eq, Structural)]
pub struct LinuxBackend {
    kind: LinuxBackendKind,
}

impl LinuxBackend {
    /// The backend type this selector was made with.
    pub closed spec fn spec_kind(&self) -> LinuxBackendKind {
        self.kind
    }

    /// Create a backend with the chosen implementation.
    pub fn new(kind: LinuxBackendKind) -> (r: Self)
        ensures
            r.spec_kind() == kind,
    {
        Self { kind }
    }

    /// Get selected backend type.
    pub fn kind(&self) -> (r: LinuxBackendKind)
        ensures
            r == self.spec_kind(),
    {
        self.kind
    }
}

/// What a Linux host offers the backends: whether it is Linux at all (ALSA
/// needs nothing more to create a stream) and what it offers of native
/// PipeWire.
#[derive(Debug, Clone, Copy, PartialEq, Eq, Structural)]
pub struct LinuxHost {
    /// Whether the host runs Linux.
    pub on_linux: bool,
    /// What the host offers of native PipeWire.
    pub pipewire: pipewire::PipeWireClient,
}

/// What a Linux backend of kind `kind` answers to a request for `config` on
/// `host`.
pub open spec fn spec_linux_create_stream(kind: LinuxBackendKind, config: StreamConfig, host: LinuxHost) -> Result<StreamModel> {
    match kind {
        LinuxBackendKind::Auto => fallback(
            pipewire::spec_create_stream(config, host.pipewire),
            alsa::spec_create_stream(config, host.on_linux),
        ),
        LinuxBackendKind::PipeWire => pipewire::spec_create_stream(config, host.pipewire),
        LinuxBackendKind::Alsa => alsa::spec_create_stream(config, host.on_linux),
    }
}

impl AudioBackend<LinuxHost> for LinuxBackend {
    open spec fn native_requires(&self, config: StreamConfig, native: LinuxHost) -> bool {
        true
    }

    fn create_stream(&self, config: StreamConfig, native: LinuxHost) -> (r: Result<Stream>)
        ensures
            outcome_is(r, spec_linux_create_stream(self.spec_kind(), config, native)),
    {
        match self.kind {
            LinuxBackendKind::Auto => create_stream_auto(config, native),
            LinuxBackendKind::PipeWire => pipewire::create_stream(config, native.pipewire),
            LinuxBackendKind::Alsa => alsa::create_stream(config, native.on_linux),
        }
    }
}

/// PipeWire first; ALSA only when PipeWire fails; the PipeWire error when both fail.
fn create_stream_auto(config: StreamConfig, host: LinuxHost) -> (r: Result<Stream>)
    ensures
        outcome_is(
            r,
            fallback(pipewire::spec_create_stream(config, host.pipewire), alsa::spec_create_stream(config, host.on_linux)),
        ),
{
    let first = pipewire::create_stream(config, host.pipewire);
    let first_error = match first {
        Ok(stream) => return Ok(stream),
        Err(error) => error,
    };
    match alsa::create_stream(config, host.on_linux) {
        Ok(stream) => Ok(stream),
        Err(_) => Err(first_error),
    }
}

/// What the starting thread heard back from a newly started worker thread.
#[derive(Debug, Clone, Copy, PartialEq, Eq)]
pub enum WorkerReady {
    /// The worker reported whether it could open and prepare the device.
    Reported(Result<()>),
    /// The worker reported nothing within the waiting time.
    TimedOut,
    /// The worker ended without reporting.
    Disconnected,
}

/// The outcome of starting a worker: its report when it made one; a backend
/// failure `-5` when it stayed silent too long and `-6` when it ended without
/// a word.
pub fn worker_start_outcome(ready: WorkerReady) -> (r: Result<()>)
    ensures
        ready matches WorkerReady::Reported(report) ==> r == report,
        ready is TimedOut ==> r == Err::<(), AudioError>(AudioError::BackendFailure { code: -5i32 }),
        ready is Disconnected ==> r == Err::<(), AudioError>(AudioError::BackendFailure { code: -6i32 }),
{
    match ready {
        WorkerReady::Reported(report) => report,
        WorkerReady::TimedOut => Err(AudioError::BackendFailure { code: -5i32 }),
        WorkerReady::Disconnected => Err(AudioError::BackendFailure { code: -6i32 }),
    }
}

/// A Linux backend of kind `Alsa` uses ALSA alone: on a Linux host it gives a
/// new stopped stream for the request, whatever the host offers of
/// PipeWire; elsewhere `NotImplemented`.
pub proof fn lemma_alsa_kind_uses_alsa(config: StreamConfig, host: LinuxHost)
    ensures
        host.on_linux ==> spec_linux_create_stream(LinuxBackendKind::Alsa, config, host) == Ok::<
            StreamModel,
            AudioError,
        >(new_stream_model(config)),
        !host.on_linux ==> spec_linux_create_stream(LinuxBackendKind::Alsa, config, host) == Err::<
            StreamModel,
            AudioError,
        >(AudioError::NotImplemented),
{
}

/// A Linux backend of kind `PipeWire` uses PipeWire alone: without a native
/// client it answers `NotImplemented`; with one, `-730` without the server
/// socket, `-731` without the client library, and otherwise a new stopped
/// stream for the request, whether or not the host is Linux for ALSA.
pub proof fn lemma_pipewire_kind_uses_pipewire(config: StreamConfig, host: LinuxHost)
    ensures
        ({
            let r = spec_linux_create_stream(LinuxBackendKind::PipeWire, config, host);
            &&& host.pipewire is Unavailable ==> r == Err::<StreamModel, AudioError>(AudioError::NotImplemented)
            &&& host.pipewire matches pipewire::PipeWireClient::Available { socket_exists, library_available } ==> {
                &&& !socket_exists ==> r == Err::<StreamModel, AudioError>(
                    AudioError::BackendFailure { code: -730i32 },
                )
                &&& socket_exists && !library_available ==> r == Err::<StreamModel, AudioError>(
                    AudioError::BackendFailure { code: -731i32 },
                )
                &&& socket_exists && library_available ==> r == Ok::<StreamModel, AudioError>(
                    new_stream_model(config),
                )
            }
        }),
{
}

/// The automatic choice prefers PipeWire: with a usable PipeWire client it
/// gives PipeWire's stream; otherwise ALSA's stream on a Linux host, and
/// PipeWire's error elsewhere.
pub proof fn lemma_auto_prefers_pipewire(config: StreamConfig, host: LinuxHost)
    ensures
        ({
            let r = spec_linux_create_stream(LinuxBackendKind::Auto, config, host);
            let pw = spec_linux_create_stream(LinuxBackendKind::PipeWire, config, host);
            &&& pw is Ok ==> r == pw
            &&& pw is Err && host.on_linux ==> r == Ok::<StreamModel, AudioError>(new_stream_model(config))
            &&& pw is Err && !host.on_linux ==> r == pw
            &&& r is Ok ==> r == Ok::<StreamModel, AudioError>(new_stream_model(config))
        }),
{
}

} // verus!
