//! Windows backend modules.
use vstd::prelude::*;
use crate::audio_core::config::{Direction, StreamConfig};
use crate::audio_core::error::Result;
use crate::audio_core::stream::Stream;
use crate::backend::AudioBackend;

pub mod wasapi;

verus! {

/// Windows backend choice.
#[derive(Debug, Clone, Copy, PartialEq, Eq, Structural)]
pub enum WindowsBackendKind {
    /// WASAPI backend.
    Wasapi,
}

/// Simple Windows backend selector.
#[derive(Debug, Clone, Copy, PartialEq, Eq, Structural)]
pub struct WindowsBackend {
    kind: WindowsBackendKind,
}

impl WindowsBackend {
    /// The backend type this selector was made with.
    pub closed spec fn spec_kind(&self) -> WindowsBackendKind {
        self.kind
    }

    /// Create a backend with the chosen implementation.
    pub fn new(kind: WindowsBackendKind) -> (r: Self)
        ensures
            r.spec_kind() == kind,
    {
        Self { kind }
    }

    /// Get selected backend type.
    pub fn kind(&self) -> (r: WindowsBackendKind)
        ensures
            r == self.spec_kind(),
    {
        self.kind
    }
}

impl WindowsBackend {
    /// Create a stream for `config`; `probe_endpoint` probes the default
    /// endpoint of a direction (see `wasapi::create_stream`). The requirement
    /// on `probe_endpoint` is stated here so that any caller can meet it.
    pub fn create_stream_with<E>(&self, config: StreamConfig, probe_endpoint: E) -> (r: Result<Stream>)
        where
            E: FnOnce(Direction) -> Result<()>,
        requires
            wasapi::native_ready(config, probe_endpoint),
        ensures
            self.spec_kind() == WindowsBackendKind::Wasapi ==> wasapi::create_outcome(config, probe_endpoint, r),
    {
        match self.kind {
            WindowsBackendKind::Wasapi => wasapi::create_stream(config, probe_endpoint),
        }
    }
}

impl<E> AudioBackend<E> for WindowsBackend
    where
        E: FnOnce(Direction) -> Result<()>,
{
    open spec fn native_requires(&self, config: StreamConfig, native: E) -> bool {
        wasapi::native_ready(config, native)
    }

    /// The same as `create_stream_with`, for callers generic in the backend.
    fn create_stream(&self, config: StreamConfig, native: E) -> (r: Result<Stream>)
        ensures
            self.spec_kind() == WindowsBackendKind::Wasapi ==> wasapi::create_outcome(config, native, r),
    {
        self.create_stream_with(config, native)
    }
}

} // verus!
