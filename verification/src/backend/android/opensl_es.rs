//! OpenSL ES backend.
use vstd::prelude::*;
use crate::audio_core::config::{Direction, NonZeroU32, SampleFormat, StreamConfig};
use crate::audio_core::error::{AudioError, Result};
use crate::audio_core::metrics::{
    frames_to_ns, latency_consistent, lemma_frames_to_ns_latency, spec_frames_to_ns, StreamMetrics, StreamTiming,
};
use crate::audio_core::stream::{outcome_is, Stream};
use crate::backend::{opened_model, stream_from_native};

verus! {

/// The check every OpenSL ES request passes first: only `f32` samples are supported.
pub open spec fn spec_validate_requested_config(config: StreamConfig) -> Result<()> {
    match config.format {
        SampleFormat::F32 => Ok(()),
        SampleFormat::I16 => Err(AudioError::UnsupportedConfig),
    }
}

/// Check a request against what this backend supports.
pub fn validate_requested_config(config: StreamConfig) -> (r: Result<()>)
    ensures
        r == spec_validate_requested_config(config),
{
    match config.format {
        SampleFormat::F32 => Ok(()),
        SampleFormat::I16 => Err(AudioError::UnsupportedConfig),
    }
}

/// The calls `create_stream` makes into `open`: none when the request fails
/// validation, otherwise those of `create_with_fallback`.
pub open spec fn native_ready<F: Fn(StreamConfig) -> Result<StreamConfig>>(config: StreamConfig, open: F) -> bool {
    spec_validate_requested_config(config) is Ok ==> candidates_ready(spec_fallback_candidates(config), open)
}

/// `r` is what `create_stream` answers for `config` with the native create
/// `open`: the validation error; otherwise the answer of trying the fallback
/// candidates in order, as a new stopped stream with the settings that were
/// accepted, or the native error.
pub open spec fn create_outcome<F: Fn(StreamConfig) -> Result<StreamConfig>>(
    config: StreamConfig,
    open: F,
    r: Result<Stream>,
) -> bool {
    match spec_validate_requested_config(config) {
        Err(e) => r == Err::<Stream, AudioError>(e),
        Ok(()) => exists|n: int, opened: Result<StreamConfig>|
            #[trigger] tried_in_order(spec_fallback_candidates(config), open, n, opened)
                && outcome_is(r, opened_model(opened)),
    }
}

/// Create a stream backed by OpenSL ES.
///
/// A request that passes validation is handed to `open`, the native OpenSL ES
/// player (or recorder) creation, through `create_with_fallback`: `open`
/// answers the settings of the stream it created or its error; where there
/// is no OpenSL ES library, it answers `NotImplemented`. A request that fails
/// validation is refused and `open` is not run.
pub fn create_stream<F>(config: StreamConfig, open: F) -> (r: Result<Stream>)
    where
        F: Fn(StreamConfig) -> Result<StreamConfig>,
    requires
        native_ready(config, open),
    ensures
        create_outcome(config, open, r),
{
    match validate_requested_config(config) {
        Err(e) => Err(e),
        Ok(()) => {
            let opened = create_with_fallback(config, open);
            let r = stream_from_native(opened);
            assert(exists|n: int| tried_in_order(spec_fallback_candidates(config), open, n, opened));
            let ghost n = choose|n: int| tried_in_order(spec_fallback_candidates(config), open, n, opened);
            assert(tried_in_order(spec_fallback_candidates(config), open, n, opened) && outcome_is(r, opened_model(opened)));
            r
        },
    }
}

/// Result code of a successful OpenSL ES call.
pub const SL_RESULT_SUCCESS: i32 = 0;
/// Result code OpenSL ES gives for parameters it does not accept.
pub const SL_RESULT_PARAMETER_INVALID: i32 = 2;
/// OpenSL ES boolean false.
pub const SL_BOOLEAN_FALSE: u32 = 0;
/// OpenSL ES boolean true.
pub const SL_BOOLEAN_TRUE: u32 = 1;
/// Data locator type of an I/O device.
pub const SL_DATALOCATOR_IODEVICE: u32 = 0x00000003;
/// Data locator type of an output mix.
pub const SL_DATALOCATOR_OUTPUTMIX: u32 = 0x0004;
/// Data locator type of an Android simple buffer queue.
pub const SL_DATALOCATOR_ANDROIDSIMPLEBUFFERQUEUE: u32 = 0x800007;
/// Data format type of PCM.
pub const SL_DATAFORMAT_PCM: u32 = 0x00000001;
/// Little-endian byte order.
pub const SL_BYTEORDER_LITTLEENDIAN: u32 = 0x00000002;
/// Player state: stopped.
pub const SL_PLAYSTATE_STOPPED: u32 = 0x00000001;
/// Player state: playing.
pub const SL_PLAYSTATE_PLAYING: u32 = 0x00000003;
/// Recorder state: stopped.
pub const SL_RECORDSTATE_STOPPED: u32 = 0x00000001;
/// Recorder state: recording.
pub const SL_RECORDSTATE_RECORDING: u32 = 0x00000003;
/// I/O device type of an audio input.
pub const SL_IODEVICE_AUDIOINPUT: u32 = 0x00000001;
/// Device id of the default audio input.
pub const SL_DEFAULTDEVICEID_AUDIOINPUT: u32 = 0xFFFFFFFF;
/// Speaker position bit: front left.
pub const SL_SPEAKER_FRONT_LEFT: u32 = 0x00000001;
/// Speaker position bit: front right.
pub const SL_SPEAKER_FRONT_RIGHT: u32 = 0x00000002;
/// Speaker position bit: front center.
pub const SL_SPEAKER_FRONT_CENTER: u32 = 0x00000004;
/// Buffers in each simple buffer queue: one plays (or records) while the
/// other is filled.
pub const QUEUE_BUFFER_COUNT: u32 = 2;

/// Buffer queue locator of the C API.
#[allow(non_camel_case_types, non_snake_case)]
#[derive(Debug, Clone, Copy, PartialEq, Eq, Structural)]
pub struct SLDataLocator_AndroidSimpleBufferQueue {
    /// Always `SL_DATALOCATOR_ANDROIDSIMPLEBUFFERQUEUE`.
    pub locatorType: u32,
    /// Number of buffers in the queue.
    pub numBuffers: u32,
}

/// PCM data format of the C API.
#[allow(non_camel_case_types, non_snake_case)]
#[derive(Debug, Clone, Copy, PartialEq, Eq, Structural)]
pub struct SLDataFormat_PCM {
    /// Always `SL_DATAFORMAT_PCM`.
    pub formatType: u32,
    /// Channel count.
    pub numChannels: u32,
    /// Sample rate in milliHertz.
    pub samplesPerSec: u32,
    /// Bits in a sample.
    pub bitsPerSample: u32,
    /// Bits in a sample's container.
    pub containerSize: u32,
    /// Speaker positions of the channels.
    pub channelMask: u32,
    /// Byte order of samples.
    pub endianness: u32,
}

/// An OpenSL ES result code as a `Result`: success for `SL_RESULT_SUCCESS`,
/// otherwise a backend failure carrying the code.
pub fn check_result(code: i32) -> (r: Result<()>)
    ensures
        code == SL_RESULT_SUCCESS ==> r is Ok,
        code != SL_RESULT_SUCCESS ==> r == Err::<(), AudioError>(AudioError::BackendFailure { code }),
{
    if code == SL_RESULT_SUCCESS {
        Ok(())
    } else {
        Err(AudioError::BackendFailure { code })
    }
}

/// A missing handle as an error carrying `code`.
pub open spec fn spec_check_handle(is_null: bool, code: i32) -> Result<()> {
    if is_null {
        Err(AudioError::BackendFailure { code })
    } else {
        Ok(())
    }
}

/// An object handle must be present; a null one is failure `-21`.
pub fn check_object(is_null: bool) -> (r: Result<()>)
    ensures
        r == spec_check_handle(is_null, -21i32),
{
    if is_null {
        Err(AudioError::BackendFailure { code: -21 })
    } else {
        Ok(())
    }
}

/// An engine interface must be present; a null one is failure `-22`.
pub fn check_engine(is_null: bool) -> (r: Result<()>)
    ensures
        r == spec_check_handle(is_null, -22i32),
{
    if is_null {
        Err(AudioError::BackendFailure { code: -22 })
    } else {
        Ok(())
    }
}

/// A play interface must be present; a null one is failure `-23`.
pub fn check_play(is_null: bool) -> (r: Result<()>)
    ensures
        r == spec_check_handle(is_null, -23i32),
{
    if is_null {
        Err(AudioError::BackendFailure { code: -23 })
    } else {
        Ok(())
    }
}

/// A buffer queue interface must be present; a null one is failure `-24`.
pub fn check_queue(is_null: bool) -> (r: Result<()>)
    ensures
        r == spec_check_handle(is_null, -24i32),
{
    if is_null {
        Err(AudioError::BackendFailure { code: -24 })
    } else {
        Ok(())
    }
}

/// A record interface must be present; a null one is failure `-25`.
pub fn check_record(is_null: bool) -> (r: Result<()>)
    ensures
        r == spec_check_handle(is_null, -25i32),
{
    if is_null {
        Err(AudioError::BackendFailure { code: -25 })
    } else {
        Ok(())
    }
}

/// The speaker mask for a channel count: front left for mono (or less),
/// front left and right otherwise.
pub open spec fn spec_channel_mask(channels: u32) -> u32 {
    if channels <= 1 {
        SL_SPEAKER_FRONT_LEFT
    } else {
        SL_SPEAKER_FRONT_LEFT | SL_SPEAKER_FRONT_RIGHT
    }
}

/// Speaker mask for `channels` channels.
pub fn channel_mask(channels: u32) -> (r: u32)
    ensures
        r == spec_channel_mask(channels),
{
    if channels <= 1 {
        SL_SPEAKER_FRONT_LEFT
    } else {
        SL_SPEAKER_FRONT_LEFT | SL_SPEAKER_FRONT_RIGHT
    }
}

/// The buffer queue both the player and the recorder use: two buffers.
pub fn buffer_queue_locator() -> (r: SLDataLocator_AndroidSimpleBufferQueue)
    ensures
        r.locatorType == SL_DATALOCATOR_ANDROIDSIMPLEBUFFERQUEUE,
        r.numBuffers == QUEUE_BUFFER_COUNT,
{
    SLDataLocator_AndroidSimpleBufferQueue {
        locatorType: SL_DATALOCATOR_ANDROIDSIMPLEBUFFERQUEUE,
        numBuffers: QUEUE_BUFFER_COUNT,
    }
}

/// The PCM format a stream exchanges with OpenSL ES: 16-bit little-endian
/// samples in 16-bit containers, with the rate given in milliHertz.
pub fn pcm_format(channels: u32, sample_rate_hz: u32) -> (r: SLDataFormat_PCM)
    requires
        sample_rate_hz * 1000 <= u32::MAX,
    ensures
        r.formatType == SL_DATAFORMAT_PCM,
        r.numChannels == channels,
        r.samplesPerSec == sample_rate_hz * 1000,
        r.bitsPerSample == 16,
        r.containerSize == 16,
        r.channelMask == spec_channel_mask(channels),
        r.endianness == SL_BYTEORDER_LITTLEENDIAN,
{
    SLDataFormat_PCM {
        formatType: SL_DATAFORMAT_PCM,
        numChannels: channels,
        samplesPerSec: sample_rate_hz * 1000,
        bitsPerSample: 16,
        containerSize: 16,
        channelMask: channel_mask(channels),
        endianness: SL_BYTEORDER_LITTLEENDIAN,
    }
}

/// `c` is fallback candidate number `index` for the request `base`: candidates
/// 1 and 3 are mono, candidates 2 and 3 run at 44.1 kHz, and everything else
/// is as requested.
pub open spec fn is_fallback_candidate(c: StreamConfig, base: StreamConfig, index: int) -> bool {
    &&& c.channels.spec_get() == (if index == 1 || index == 3 {
        1
    } else {
        base.channels.spec_get()
    })
    &&& c.sample_rate_hz.spec_get() == (if index == 2 || index == 3 {
        44_100
    } else {
        base.sample_rate_hz.spec_get()
    })
    &&& c.frames_per_burst == base.frames_per_burst
    &&& c.format == base.format
    &&& c.direction == base.direction
    &&& c.options == base.options
}

/// The settings tried in turn when OpenSL ES rejects a request's parameters:
/// the request itself, then mono, then 44.1 kHz, then mono at 44.1 kHz.
pub open spec fn spec_fallback_candidates(config: StreamConfig) -> Seq<StreamConfig> {
    let mono = NonZeroU32::spec_new(1);
    let rate = NonZeroU32::spec_new(44_100);
    seq![
        config,
        StreamConfig { channels: mono, ..config },
        StreamConfig { sample_rate_hz: rate, ..config },
        StreamConfig { channels: mono, sample_rate_hz: rate, ..config },
    ]
}

/// The settings tried in turn when OpenSL ES rejects a request's parameters.
pub fn fallback_candidates(config: StreamConfig) -> (r: [StreamConfig; 4])
    ensures
        r@ == spec_fallback_candidates(config),
        r@[0] == config,
        forall|i: int| 0 <= i < 4 ==> is_fallback_candidate(#[trigger] r@[i], config, i),
{
    let mono_channels = NonZeroU32::new(1).unwrap();
    let sr_44k1 = NonZeroU32::new(44_100).unwrap();
    let r = [
        config,
        StreamConfig { channels: mono_channels, ..config },
        StreamConfig { sample_rate_hz: sr_44k1, ..config },
        StreamConfig { channels: mono_channels, sample_rate_hz: sr_44k1, ..config },
    ];
    assert(is_fallback_candidate(r@[0], config, 0));
    assert(is_fallback_candidate(r@[1], config, 1));
    assert(is_fallback_candidate(r@[2], config, 2));
    assert(is_fallback_candidate(r@[3], config, 3));
    assert(r@ =~= spec_fallback_candidates(config));
    r
}

/// The error OpenSL ES gives for parameters it does not accept.
pub open spec fn parameter_invalid() -> AudioError {
    AudioError::BackendFailure { code: SL_RESULT_PARAMETER_INVALID }
}

/// `r` is what trying `create` on `candidates` in turn gives when the first `n`
/// candidates were rejected for their parameters: the outcome of candidate `n`
/// (which is not such a rejection), or the parameter error when all of them
/// were rejected.
pub open spec fn tried_in_order<T, F: Fn(StreamConfig) -> Result<T>>(
    candidates: Seq<StreamConfig>,
    create: F,
    n: int,
    r: Result<T>,
) -> bool {
    &&& 0 <= n <= candidates.len()
    &&& forall|j: int|
        0 <= j < n ==> create.ensures(
            (#[trigger] candidates[j],),
            Err::<T, AudioError>(parameter_invalid()),
        )
    &&& n < candidates.len() ==> create.ensures((candidates[n],), r) && r != Err::<T, AudioError>(
        parameter_invalid(),
    )
    &&& n == candidates.len() ==> r == Err::<T, AudioError>(parameter_invalid())
}

/// The calls into `create` that trying `candidates` in turn may make: a
/// candidate is tried only once every candidate before it was rejected for
/// its parameters.
pub open spec fn candidates_ready<T, F: Fn(StreamConfig) -> Result<T>>(candidates: Seq<StreamConfig>, create: F) -> bool {
    forall|n: int|
        0 <= n < candidates.len() && (forall|j: int|
            0 <= j < n ==> create.ensures(
                (#[trigger] candidates[j],),
                Err::<T, AudioError>(parameter_invalid()),
            )) ==> #[trigger] create.requires((candidates[n],))
}

/// Try `create` on each candidate in turn. A candidate whose parameters are
/// rejected (`SL_RESULT_PARAMETER_INVALID`) moves on to the next one; any other
/// outcome, success or error, is returned at once. When every candidate is
/// rejected, the parameter error is returned. A candidate is tried only after
/// every candidate before it was rejected for its parameters.
pub fn create_with_candidates<T, F>(candidates: &[StreamConfig], create: F) -> (r: Result<T>)
    where
        F: Fn(StreamConfig) -> Result<T>,
    requires
        candidates_ready(candidates@, create),
    ensures
        exists|n: int| tried_in_order(candidates@, create, n, r),
{
    let mut i: usize = 0;
    while i < candidates.len()
        invariant
            0 <= i <= candidates@.len(),
            candidates_ready(candidates@, create),
            forall|j: int|
                0 <= j < i ==> create.ensures(
                    (#[trigger] candidates@[j],),
                    Err::<T, AudioError>(parameter_invalid()),
                ),
        decreases candidates@.len() - i,
    {
        let outcome = create(candidates[i]);
        match outcome {
            Err(AudioError::BackendFailure { code }) if code == SL_RESULT_PARAMETER_INVALID => {
                assert(outcome == Err::<T, AudioError>(parameter_invalid()));
            },
            _ => {
                assert(tried_in_order(candidates@, create, i as int, outcome));
                return outcome;
            },
        }
        i = i + 1;
    }
    let r = Err(AudioError::BackendFailure { code: SL_RESULT_PARAMETER_INVALID });
    assert(tried_in_order(candidates@, create, candidates@.len() as int, r));
    r
}

/// Create a stream with `create`, falling back through `fallback_candidates`
/// while OpenSL ES rejects the parameters.
pub fn create_with_fallback<T, F>(config: StreamConfig, create: F) -> (r: Result<T>)
    where
        F: Fn(StreamConfig) -> Result<T>,
    requires
        candidates_ready(spec_fallback_candidates(config), create),
    ensures
        exists|n: int| tried_in_order(spec_fallback_candidates(config), create, n, r),
{
    let candidates = fallback_candidates(config);
    create_with_candidates(&candidates, create)
}

/// Bookkeeping of a stream's two-buffer queue, shared by the player and the
/// recorder: which buffer is filled next, how many buffers the queue holds,
/// the frames moved so far, and the faults seen.
#[derive(Debug, Clone, Copy, PartialEq, Eq, Structural)]
pub struct QueueState {
    /// Frames in each buffer.
    pub frames_per_burst: usize,
    /// Sample rate of the stream in Hz.
    pub sample_rate_hz: u32,
    /// Counter whose parity picks the next buffer.
    pub next_buffer: usize,
    /// Buffers currently handed to the queue.
    pub queue_depth: usize,
    /// Frames written (playback) or read (recording) so far.
    pub frames_transferred: i64,
    /// Callbacks that failed and forced a queue recovery.
    pub xrun_count: u32,
    /// Recoveries that refilled the queue.
    pub recovery_count: u32,
    /// Time of the most recent callback; zero before the first one.
    pub last_callback_time_ns: u64,
}

impl QueueState {
    /// The state of a queue that has not run yet.
    pub fn new(frames_per_burst: usize, sample_rate_hz: u32) -> (r: Self)
        ensures
            r == (QueueState {
                frames_per_burst,
                sample_rate_hz,
                next_buffer: 0,
                queue_depth: 0,
                frames_transferred: 0,
                xrun_count: 0,
                recovery_count: 0,
                last_callback_time_ns: 0,
            }),
    {
        QueueState {
            frames_per_burst,
            sample_rate_hz,
            next_buffer: 0,
            queue_depth: 0,
            frames_transferred: 0,
            xrun_count: 0,
            recovery_count: 0,
            last_callback_time_ns: 0,
        }
    }

    /// The buffer to fill now (0 or 1, alternating); the counter moves on.
    pub fn take_buffer_index(&mut self) -> (r: usize)
        ensures
            r == old(self).next_buffer % 2,
            r < 2,
            *final(self) == (QueueState { next_buffer: old(self).next_buffer.wrapping_add(1), ..*old(self) }),
    {
        let idx = self.next_buffer % 2;
        self.next_buffer = self.next_buffer.wrapping_add(1);
        idx
    }

    /// A buffer was handed to the queue.
    pub fn buffer_enqueued(&mut self)
        ensures
            *final(self) == (QueueState { queue_depth: old(self).queue_depth.wrapping_add(1), ..*old(self) }),
    {
        self.queue_depth = self.queue_depth.wrapping_add(1);
    }

    /// The queue gave a buffer back (it was played or recorded); the depth
    /// never drops below zero.
    pub fn buffer_returned(&mut self)
        ensures
            *final(self) == (QueueState {
                queue_depth: if old(self).queue_depth == 0 { 0 } else { (old(self).queue_depth - 1) as usize },
                ..*old(self)
            }),
    {
        if self.queue_depth > 0 {
            self.queue_depth = self.queue_depth - 1;
        }
    }

    /// One buffer's frames were moved.
    pub fn burst_transferred(&mut self)
        ensures
            *final(self) == (QueueState {
                frames_transferred: old(self).frames_transferred.wrapping_add(
                    old(self).frames_per_burst as i64,
                ),
                ..*old(self)
            }),
    {
        self.frames_transferred = self.frames_transferred.wrapping_add(self.frames_per_burst as i64);
    }

    /// The queue was cleared, so it holds no buffers.
    pub fn queue_cleared(&mut self)
        ensures
            *final(self) == (QueueState { queue_depth: 0, ..*old(self) }),
    {
        self.queue_depth = 0;
    }

    /// The queue was cleared for a restart: empty, with buffer 0 filled next.
    pub fn queue_reset(&mut self)
        ensures
            *final(self) == (QueueState { queue_depth: 0, next_buffer: 0, ..*old(self) }),
    {
        self.queue_depth = 0;
        self.next_buffer = 0;
    }

    /// A callback failed.
    pub fn record_xrun(&mut self)
        ensures
            *final(self) == (QueueState { xrun_count: old(self).xrun_count.wrapping_add(1), ..*old(self) }),
    {
        self.xrun_count = self.xrun_count.wrapping_add(1);
    }

    /// A recovery refilled the queue.
    pub fn record_recovery(&mut self)
        ensures
            *final(self) == (QueueState {
                recovery_count: old(self).recovery_count.wrapping_add(1),
                ..*old(self)
            }),
    {
        self.recovery_count = self.recovery_count.wrapping_add(1);
    }

    /// A callback ran at `time_ns`.
    pub fn callback_at(&mut self, time_ns: u64)
        ensures
            *final(self) == (QueueState { last_callback_time_ns: time_ns, ..*old(self) }),
    {
        self.last_callback_time_ns = time_ns;
    }
}

/// The two buffers of a queue alternate: taking the buffer index twice in a
/// row gives buffer 0 once and buffer 1 once, even when the counter wraps.
pub proof fn lemma_buffers_alternate(next_buffer: usize)
    ensures
        (next_buffer % 2) != (next_buffer.wrapping_add(1) % 2),
{
    if next_buffer == usize::MAX {
        assert(usize::MAX % 2 == 1) by {
            assert(usize::MAX == 0xffff_ffff || usize::MAX == 0xffff_ffff_ffff_ffff);
        }
    }
}

/// The latency of a queue in frames: the buffers it holds times the frames in
/// each, saturated to `u32::MAX` (both factors are first truncated to `u32`).
pub open spec fn spec_queue_latency_frames(q: QueueState) -> u32 {
    let product = (q.queue_depth as u32) * (q.frames_per_burst as u32);
    if product > u32::MAX {
        u32::MAX
    } else {
        product as u32
    }
}

/// The metrics of an OpenSL ES stream in `direction` from its queue bookkeeping.
pub open spec fn spec_queue_metrics(q: QueueState, direction: Direction) -> StreamMetrics {
    let latency = spec_queue_latency_frames(q);
    StreamMetrics {
        xrun_count: q.xrun_count,
        frames_written: if direction == Direction::Output { Some(q.frames_transferred) } else { None },
        frames_read: if direction == Direction::Input { Some(q.frames_transferred) } else { None },
        timing: StreamTiming {
            callback_time_ns: if q.last_callback_time_ns > 0 { Some(q.last_callback_time_ns) } else { None },
            backend_time_ns: None,
            frame_position: None,
            estimated_latency_frames: Some(latency),
            estimated_latency_ns: Some(spec_frames_to_ns(latency, q.sample_rate_hz) as u64),
            negotiated_share_mode: None,
            negotiated_sample_format: None,
        },
    }
}

/// Metrics of an OpenSL ES stream: its fault count, the frames moved in its
/// direction, the last callback time, and the latency of the buffers queued.
pub fn queue_metrics(q: &QueueState, direction: Direction) -> (r: StreamMetrics)
    ensures
        r == spec_queue_metrics(*q, direction),
{
    let depth = q.queue_depth as u32;
    let burst = q.frames_per_burst as u32;
    let latency_frames: u32 = match depth.checked_mul(burst) {
        Some(v) => v,
        None => u32::MAX,
    };
    let transferred = q.frames_transferred;
    StreamMetrics {
        xrun_count: q.xrun_count,
        frames_written: match direction {
            Direction::Output => Some(transferred),
            Direction::Input => None,
        },
        frames_read: match direction {
            Direction::Output => None,
            Direction::Input => Some(transferred),
        },
        timing: StreamTiming {
            callback_time_ns: if q.last_callback_time_ns > 0 {
                Some(q.last_callback_time_ns)
            } else {
                None
            },
            backend_time_ns: None,
            frame_position: None,
            estimated_latency_frames: Some(latency_frames),
            estimated_latency_ns: Some(frames_to_ns(latency_frames, q.sample_rate_hz)),
            negotiated_share_mode: None,
            negotiated_sample_format: None,
        },
    }
}

/// The outcome of stopping a stream: the state change is tried first, the
/// queue is cleared even if that failed, and the first error is reported.
pub fn stop_outcome(set_state: Result<()>, clear_queue: Result<()>) -> (r: Result<()>)
    ensures
        set_state is Err ==> r == set_state,
        set_state is Ok ==> r == clear_queue,
{
    match set_state {
        Err(e) => Err(e),
        Ok(()) => clear_queue,
    }
}

/// The fallback candidates: the request, then mono, then 44.1 kHz, then mono
/// at 44.1 kHz, each keeping everything else of the request.
pub proof fn lemma_fallback_candidates_settings(config: StreamConfig)
    ensures
        ({
            let c = spec_fallback_candidates(config);
            &&& c.len() == 4
            &&& c[0] == config
            &&& c[1].channels.spec_get() == 1 && c[1].sample_rate_hz == config.sample_rate_hz
            &&& c[2].channels == config.channels && c[2].sample_rate_hz.spec_get() == 44_100
            &&& c[3].channels.spec_get() == 1 && c[3].sample_rate_hz.spec_get() == 44_100
            &&& forall|i: int|
                0 <= i < 4 ==> (#[trigger] c[i]).frames_per_burst == config.frames_per_burst && c[i].format
                    == config.format && c[i].direction == config.direction && c[i].options == config.options
        }),
{
    NonZeroU32::lemma_spec_new_get(1);
    NonZeroU32::lemma_spec_new_get(44_100);
}

/// An OpenSL ES stream reports its moved frames on the side of its
/// direction, its fault count, and as latency the buffers it holds times the
/// frames in each, with their duration at the stream's rate.
pub proof fn lemma_queue_metrics_by_direction(q: QueueState, direction: Direction)
    ensures
        ({
            let m = spec_queue_metrics(q, direction);
            &&& direction == Direction::Output ==> m.frames_written == Some(q.frames_transferred) && m.frames_read is None
            &&& direction == Direction::Input ==> m.frames_read == Some(q.frames_transferred) && m.frames_written is None
            &&& m.xrun_count == q.xrun_count
            &&& (q.queue_depth <= u32::MAX && q.frames_per_burst <= u32::MAX
                && q.queue_depth * q.frames_per_burst <= u32::MAX) ==> m.timing.estimated_latency_frames == Some(
                (q.queue_depth * q.frames_per_burst) as u32,
            )
            &&& latency_consistent(m.timing, q.sample_rate_hz)
            &&& (q.last_callback_time_ns == 0 <==> m.timing.callback_time_ns is None)
        }),
{
    let m = spec_queue_metrics(q, direction);
    if let Some(f) = m.timing.estimated_latency_frames {
        lemma_frames_to_ns_latency(f, q.sample_rate_hz);
    }
    if q.queue_depth <= u32::MAX && q.frames_per_burst <= u32::MAX {
        assert((q.queue_depth as u32) as int == q.queue_depth);
        assert((q.frames_per_burst as u32) as int == q.frames_per_burst);
    }
}

/// OpenSL ES takes `f32` requests only: the check passes exactly for them
/// and refuses `i16` with `UnsupportedConfig`.
pub proof fn lemma_validation_takes_f32_only(config: StreamConfig)
    ensures
        spec_validate_requested_config(config) is Ok <==> config.format == SampleFormat::F32,
        config.format == SampleFormat::I16 ==> spec_validate_requested_config(config) == Err::<(), AudioError>(
            AudioError::UnsupportedConfig,
        ),
{
}

/// A missing handle is the failure with its code, and a present one passes.
pub proof fn lemma_handle_checks(code: i32)
    ensures
        spec_check_handle(true, code) == Err::<(), AudioError>(AudioError::BackendFailure { code }),
        spec_check_handle(false, code) is Ok,
{
}

/// Mono (or no channel) plays on the front left speaker alone; two or more
/// channels on front left and front right.
pub proof fn lemma_channel_mask_speakers(channels: u32)
    ensures
        channels <= 1 ==> spec_channel_mask(channels) == SL_SPEAKER_FRONT_LEFT,
        channels >= 2 ==> spec_channel_mask(channels) == 3,
{
    assert(SL_SPEAKER_FRONT_LEFT | SL_SPEAKER_FRONT_RIGHT == 3u32) by (bit_vector);
}

} // verus!
