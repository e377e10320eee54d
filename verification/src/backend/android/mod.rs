//! Android backend modules.
use vstd::prelude::*;
use crate::audio_core::config::{SampleFormat, StreamConfig};
use crate::audio_core::error::{AudioError, Result};
use crate::audio_core::stream::{outcome_is, Stream};
use crate::backend::{fallback, opened_model, AudioBackend};

pub mod aaudio;
pub mod opensl_es;

verus! {

/// Android backend choice.
///
/// AAudio is preferred, with OpenSL ES as fallback.
#[derive(Debug, Clone, Copy, PartialEq, Eq, Structural)]
pub enum AndroidBackendKind {
    /// Auto-select backend (AAudio first, then OpenSL ES).
    Auto,
    /// AAudio backend.
    AAudio,
    /// OpenSL ES backend.
    OpenSLES,
}

/// Simple Android backend selector.
#[derive(Debug, Clone, Copy, PartialEq, Eq, Structural)]
pub struct AndroidBackend {
    kind: AndroidBackendKind,
}

impl AndroidBackend {
    /// The backend type this selector was made with.
    pub closed spec fn spec_kind(&self) -> AndroidBackendKind {
        self.kind
    }

    /// Create a backend with the chosen implementation.
    pub fn new(kind: AndroidBackendKind) -> (r: Self)
        ensures
            r.spec_kind() == kind,
    {
        Self { kind }
    }

    /// Get selected backend type.
    pub fn kind(&self) -> (r: AndroidBackendKind)
        ensures
            r == self.spec_kind(),
    {
        self.kind
    }
}

/// The native work of the Android backends: `aaudio_open` opens an AAudio
/// stream for given settings and answers the settings it reports;
/// `opensl_open` creates an OpenSL ES player or recorder for given settings
/// and answers the settings it was created with. Where the libraries are
/// missing, both answer `NotImplemented`.
pub struct AndroidNative<A, O> {
    /// The native AAudio open.
    pub aaudio_open: A,
    /// The native OpenSL ES creation.
    pub opensl_open: O,
}

/// The calls into the native work that the automatic choice may make: those
/// of AAudio, and those of OpenSL ES only after AAudio failed.
pub open spec fn auto_ready<A, O>(config: StreamConfig, aaudio_open: A, opensl_open: O) -> bool
    where
        A: FnOnce(StreamConfig) -> Result<StreamConfig>,
        O: Fn(StreamConfig) -> Result<StreamConfig>,
{
    &&& aaudio::native_ready(config, aaudio_open)
    &&& forall|r1: Result<Stream>|
        #[trigger] aaudio::create_outcome(config, aaudio_open, r1) && r1 is Err
            ==> opensl_es::native_ready(config, opensl_open)
}

/// `r` is what the automatic choice answers: AAudio's stream when it has one;
/// otherwise OpenSL ES's stream, or AAudio's error when both fail.
pub open spec fn auto_outcome<A, O>(config: StreamConfig, aaudio_open: A, opensl_open: O, r: Result<Stream>) -> bool
    where
        A: FnOnce(StreamConfig) -> Result<StreamConfig>,
        O: Fn(StreamConfig) -> Result<StreamConfig>,
{
    exists|r1: Result<Stream>, r2: Result<Stream>|
        #![trigger aaudio::create_outcome(config, aaudio_open, r1), fallback(r1, r2)]
        {
            &&& aaudio::create_outcome(config, aaudio_open, r1)
            &&& (r1 is Err ==> opensl_es::create_outcome(config, opensl_open, r2))
            &&& r == fallback(r1, r2)
        }
}

/// The calls into the native work that a backend of kind `kind` may make.
pub open spec fn android_ready<A, O>(kind: AndroidBackendKind, config: StreamConfig, native: AndroidNative<A, O>) -> bool
    where
        A: FnOnce(StreamConfig) -> Result<StreamConfig>,
        O: Fn(StreamConfig) -> Result<StreamConfig>,
{
    match kind {
        AndroidBackendKind::Auto => auto_ready(config, native.aaudio_open, native.opensl_open),
        AndroidBackendKind::AAudio => aaudio::native_ready(config, native.aaudio_open),
        AndroidBackendKind::OpenSLES => opensl_es::native_ready(config, native.opensl_open),
    }
}

/// `r` is what an Android backend of kind `kind` answers to a request for
/// `config` with the native work `native`.
pub open spec fn android_outcome<A, O>(
    kind: AndroidBackendKind,
    config: StreamConfig,
    native: AndroidNative<A, O>,
    r: Result<Stream>,
) -> bool
    where
        A: FnOnce(StreamConfig) -> Result<StreamConfig>,
        O: Fn(StreamConfig) -> Result<StreamConfig>,
{
    match kind {
        AndroidBackendKind::Auto => auto_outcome(config, native.aaudio_open, native.opensl_open, r),
        AndroidBackendKind::AAudio => aaudio::create_outcome(config, native.aaudio_open, r),
        AndroidBackendKind::OpenSLES => opensl_es::create_outcome(config, native.opensl_open, r),
    }
}

impl AndroidBackend {
    /// Create a stream for `config` with the native work `native`; the
    /// requirement on `native` is stated here so that any caller can meet it.
    pub fn create_stream_with<A, O>(&self, config: StreamConfig, native: AndroidNative<A, O>) -> (r: Result<Stream>)
        where
            A: FnOnce(StreamConfig) -> Result<StreamConfig>,
            O: Fn(StreamConfig) -> Result<StreamConfig>,
        requires
            android_ready(self.spec_kind(), config, native),
        ensures
            android_outcome(self.spec_kind(), config, native, r),
    {
        let AndroidNative { aaudio_open, opensl_open } = native;
        match self.kind {
            AndroidBackendKind::Auto => create_stream_auto(config, aaudio_open, opensl_open),
            AndroidBackendKind::AAudio => aaudio::create_stream(config, aaudio_open),
            AndroidBackendKind::OpenSLES => opensl_es::create_stream(config, opensl_open),
        }
    }
}

impl<A, O> AudioBackend<AndroidNative<A, O>> for AndroidBackend
    where
        A: FnOnce(StreamConfig) -> Result<StreamConfig>,
        O: Fn(StreamConfig) -> Result<StreamConfig>,
{
    open spec fn native_requires(&self, config: StreamConfig, native: AndroidNative<A, O>) -> bool {
        android_ready(self.spec_kind(), config, native)
    }

    /// The same as `create_stream_with`, for callers generic in the backend.
    fn create_stream(&self, config: StreamConfig, native: AndroidNative<A, O>) -> (r: Result<Stream>)
        ensures
            android_outcome(self.spec_kind(), config, native, r),
    {
        self.create_stream_with(config, native)
    }
}

/// AAudio first; OpenSL ES only when AAudio fails; the AAudio error when both fail.
fn create_stream_auto<A, O>(config: StreamConfig, aaudio_open: A, opensl_open: O) -> (r: Result<Stream>)
    where
        A: FnOnce(StreamConfig) -> Result<StreamConfig>,
        O: Fn(StreamConfig) -> Result<StreamConfig>,
    requires
        auto_ready(config, aaudio_open, opensl_open),
    ensures
        auto_outcome(config, aaudio_open, opensl_open, r),
{
    let first = aaudio::create_stream(config, aaudio_open);
    let ghost r1 = first;
    match first {
        Ok(stream) => {
            let r = Ok(stream);
            assert(aaudio::create_outcome(config, aaudio_open, r1) && r == fallback(r1, r1));
            r
        },
        Err(first_error) => {
            let second = opensl_es::create_stream(config, opensl_open);
            let ghost r2 = second;
            match second {
                Ok(stream) => {
                    let r = Ok(stream);
                    assert(aaudio::create_outcome(config, aaudio_open, r1) && r == fallback(r1, r2));
                    r
                },
                Err(_) => {
                    let r = Err(first_error);
                    assert(aaudio::create_outcome(config, aaudio_open, r1) && r == fallback(r1, r2));
                    r
                },
            }
        },
    }
}

/// Which native work each kind uses. Every kind refuses an `i16` request
/// with `UnsupportedConfig`. For an `f32` request, `AAudio` gives the stream
/// (or error) of one AAudio open of the request; `OpenSLES` gives that of
/// the OpenSL ES creation walked through the fallback candidates; and `Auto`
/// opens AAudio on the request first and, when that open succeeds, gives its
/// stream.
pub proof fn lemma_android_kinds_use_their_backend<A, O>(
    config: StreamConfig,
    native: AndroidNative<A, O>,
    r: Result<Stream>,
)
    where
        A: FnOnce(StreamConfig) -> Result<StreamConfig>,
        O: Fn(StreamConfig) -> Result<StreamConfig>,
    ensures
        config.format == SampleFormat::I16 ==> (android_outcome(AndroidBackendKind::AAudio, config, native, r)
            || android_outcome(AndroidBackendKind::OpenSLES, config, native, r)
            || android_outcome(AndroidBackendKind::Auto, config, native, r)) ==> r == Err::<
            Stream,
            AudioError,
        >(AudioError::UnsupportedConfig),
        config.format == SampleFormat::F32 && android_outcome(AndroidBackendKind::AAudio, config, native, r)
            ==> exists|o: Result<StreamConfig>|
            native.aaudio_open.ensures((config,), o) && outcome_is(r, opened_model(o)),
        config.format == SampleFormat::F32 && android_outcome(AndroidBackendKind::OpenSLES, config, native, r)
            ==> exists|n: int, o: Result<StreamConfig>|
            opensl_es::tried_in_order(opensl_es::spec_fallback_candidates(config), native.opensl_open, n, o)
                && outcome_is(r, opened_model(o)),
        config.format == SampleFormat::F32 && android_outcome(AndroidBackendKind::Auto, config, native, r)
            ==> exists|o: Result<StreamConfig>|
            native.aaudio_open.ensures((config,), o) && (o is Ok ==> outcome_is(r, opened_model(o))),
{
    if config.format == SampleFormat::F32 && android_outcome(AndroidBackendKind::Auto, config, native, r) {
        let (r1, r2) = choose|r1: Result<Stream>, r2: Result<Stream>|
            {
                &&& aaudio::create_outcome(config, native.aaudio_open, r1)
                &&& (r1 is Err ==> opensl_es::create_outcome(config, native.opensl_open, r2))
                &&& r == fallback(r1, r2)
            };
        let o = choose|o: Result<StreamConfig>|
            #[trigger] native.aaudio_open.ensures((config,), o) && outcome_is(r1, opened_model(o));
        assert(native.aaudio_open.ensures((config,), o) && (o is Ok ==> outcome_is(r, opened_model(o))));
    }
    if config.format == SampleFormat::I16 && android_outcome(AndroidBackendKind::Auto, config, native, r) {
        let (r1, r2) = choose|r1: Result<Stream>, r2: Result<Stream>|
            {
                &&& aaudio::create_outcome(config, native.aaudio_open, r1)
                &&& (r1 is Err ==> opensl_es::create_outcome(config, native.opensl_open, r2))
                &&& r == fallback(r1, r2)
            };
        assert(r1 == Err::<Stream, AudioError>(AudioError::UnsupportedConfig));
    }
}

} // verus!
