//! Stream settings.
use vstd::prelude::*;

verus! {

/// A `u32` that is never zero, used for counts and rates that must be positive.
#[derive(Debug, Clone, Copy, PartialEq, Eq)]
pub struct NonZeroU32 {
    value: u32,
}

impl NonZeroU32 {
    #[verifier::type_invariant]
    spec fn inv(self) -> bool {
        self.value != 0
    }

    /// The number held.
    pub closed spec fn spec_get(self) -> u32 {
        self.value
    }

    /// The value holding `value`; a real one exists only for nonzero `value`.
    pub closed spec fn spec_new(value: u32) -> NonZeroU32 {
        NonZeroU32 { value }
    }

    /// `spec_new` holds the number it was given.
    pub proof fn lemma_spec_new_get(value: u32)
        ensures
            Self::spec_new(value).spec_get() == value,
    {
    }

    /// Make a value from `value`; `None` when `value` is zero.
    pub fn new(value: u32) -> (r: Option<NonZeroU32>)
        ensures
            r is Some <==> value != 0,
            r matches Some(n) ==> n.spec_get() == value && n == Self::spec_new(value),
    {
        if value == 0 {
            None
        } else {
            Some(NonZeroU32 { value })
        }
    }

    /// The number held; it is never zero.
    pub fn get(&self) -> (r: u32)
        ensures
            r == self.spec_get(),
            r != 0,
    {
        proof {
            use_type_invariant(self);
        }
        self.value
    }
}

/// Sample format.
#[derive(Debug, Clone, Copy, PartialEq, Eq, Structural)]
pub enum SampleFormat {
    /// 32-bit float samples in the `[-1.0, 1.0]` range.
    F32,
    /// Signed 16-bit integer PCM.
    I16,
}

/// Stream direction.
#[derive(Debug, Clone, Copy, PartialEq, Eq, Structural)]
pub enum Direction {
    /// Playback stream.
    Output,
    /// Recording stream.
    Input,
}

/// Performance hint for backend stream creation.
#[derive(Debug, Clone, Copy, PartialEq, Eq, Structural)]
pub enum PerformanceMode {
    /// No specific performance preference (named `None` in the C APIs).
    NoPreference,
    /// Prefer lower latency.
    LowLatency,
    /// Prefer lower power usage.
    PowerSaving,
}

/// Sharing mode for the audio device.
#[derive(Debug, Clone, Copy, PartialEq, Eq, Structural)]
pub enum SharingMode {
    /// Shared with other clients.
    Shared,
    /// Exclusive access when possible.
    Exclusive,
}

/// Usage category for policy routing.
#[derive(Debug, Clone, Copy, PartialEq, Eq, Structural)]
pub enum Usage {
    /// Unspecified usage.
    Unknown,
    /// Media playback/recording usage.
    Media,
    /// Voice communication usage.
    VoiceCommunication,
    /// Alarm usage.
    Alarm,
}

/// Content category hint.
#[derive(Debug, Clone, Copy, PartialEq, Eq, Structural)]
pub enum ContentType {
    /// Unspecified content type.
    Unknown,
    /// Speech-focused content.
    Speech,
    /// Music-focused content.
    Music,
}

/// Additional stream options commonly exposed by audio APIs.
#[derive(Debug, Clone, Copy, PartialEq, Eq, Structural)]
pub struct StreamOptions {
    /// Backend performance hint.
    pub performance_mode: PerformanceMode,
    /// Shared or exclusive stream request.
    pub sharing_mode: SharingMode,
    /// Usage hint for routing/policy.
    pub usage: Usage,
    /// Content type hint.
    pub content_type: ContentType,
}

/// The options a stream gets when none are given.
pub open spec fn default_options() -> StreamOptions {
    StreamOptions {
        performance_mode: PerformanceMode::LowLatency,
        sharing_mode: SharingMode::Shared,
        usage: Usage::Media,
        content_type: ContentType::Music,
    }
}

impl Default for StreamOptions {
    fn default() -> (r: Self)
        ensures
            r == default_options(),
    {
        Self {
            performance_mode: PerformanceMode::LowLatency,
            sharing_mode: SharingMode::Shared,
            usage: Usage::Media,
            content_type: ContentType::Music,
        }
    }
}

/// Requested stream settings.
#[derive(Debug, Clone, Copy, PartialEq, Eq)]
pub struct StreamConfig {
    /// Number of channels. Stereo is `2`.
    pub channels: NonZeroU32,
    /// Sample rate in Hz.
    pub sample_rate_hz: NonZeroU32,
    /// Frames per callback.
    pub frames_per_burst: NonZeroU32,
    /// Sample format.
    pub format: SampleFormat,
    /// Input or output stream.
    pub direction: Direction,
    /// Extra backend options.
    pub options: StreamOptions,
}

/// The settings of `StreamConfig::default()`: stereo, 48 kHz, 192 frames per
/// burst, `f32` output with the default options.
pub open spec fn is_default_config(c: StreamConfig) -> bool {
    &&& c.channels.spec_get() == 2
    &&& c.sample_rate_hz.spec_get() == 48_000
    &&& c.frames_per_burst.spec_get() == 192
    &&& c.format == SampleFormat::F32
    &&& c.direction == Direction::Output
    &&& c.options == default_options()
}

impl Default for StreamConfig {
    fn default() -> (r: Self)
        ensures
            is_default_config(r),
    {
        let channels = NonZeroU32::new(2).unwrap();
        let sample_rate_hz = NonZeroU32::new(48_000).unwrap();
        let frames_per_burst = NonZeroU32::new(192).unwrap();
        Self {
            channels,
            sample_rate_hz,
            frames_per_burst,
            format: SampleFormat::F32,
            direction: Direction::Output,
            options: StreamOptions::default(),
        }
    }
}

} // verus!
