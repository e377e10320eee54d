//! AAudio backend.
use vstd::prelude::*;
use crate::audio_core::config::{
    Direction, NonZeroU32, PerformanceMode, SampleFormat, SharingMode, StreamConfig,
};
use crate::audio_core::error::{AudioError, Result};
use crate::audio_core::metrics::{
    frames_to_ns, latency_consistent, lemma_frames_to_ns_latency, spec_frames_to_ns, StreamMetrics, StreamTiming,
};
use crate::audio_core::stream::{outcome_is, Stream};
use crate::backend::{opened_model, stream_from_native};

verus! {

/// The check every AAudio request passes first: only `f32` samples are supported.
pub open spec fn spec_validate_requested_config(config: StreamConfig) -> Result<()> {
    match config.format {
        SampleFormat::F32 => Ok(()),
        SampleFormat::I16 => Err(AudioError::UnsupportedConfig),
    }
}

/// Check a request against what this backend supports.
pub fn validate_requested_config(config: StreamConfig) -> (r: Result<()>)
    ensures
        r == spec_validate_requested_config(config),
{
    match config.format {
        SampleFormat::F32 => Ok(()),
        SampleFormat::I16 => Err(AudioError::UnsupportedConfig),
    }
}

/// The calls `create_stream` makes into `open`: none when the request fails
/// validation, otherwise one, on the request.
pub open spec fn native_ready<F: FnOnce(StreamConfig) -> Result<StreamConfig>>(config: StreamConfig, open: F) -> bool {
    spec_validate_requested_config(config) is Ok ==> open.requires((config,))
}

/// `r` is what `create_stream` answers for `config` with the native open
/// `open`: the validation error; otherwise, for some answer `opened` of
/// `open` on the request, a new stopped stream with the settings the device
/// agreed to, or the native error.
pub open spec fn create_outcome<F: FnOnce(StreamConfig) -> Result<StreamConfig>>(
    config: StreamConfig,
    open: F,
    r: Result<Stream>,
) -> bool {
    match spec_validate_requested_config(config) {
        Err(e) => r == Err::<Stream, AudioError>(e),
        Ok(()) => exists|opened: Result<StreamConfig>|
            #[trigger] open.ensures((config,), opened) && outcome_is(r, opened_model(opened)),
    }
}

/// Create a stream backed by AAudio.
///
/// A request that passes validation is handed to `open`, the native AAudio
/// open, which answers the settings the opened stream reports (see
/// `negotiated_config_from_stream`) or its error; where there is no AAudio
/// library, it answers `NotImplemented`. A request that fails validation is
/// refused and `open` is not run.
pub fn create_stream<F>(config: StreamConfig, open: F) -> (r: Result<Stream>)
    where
        F: FnOnce(StreamConfig) -> Result<StreamConfig>,
    requires
        native_ready(config, open),
    ensures
        create_outcome(config, open, r),
{
    match validate_requested_config(config) {
        Err(e) => Err(e),
        Ok(()) => {
            let opened = open(config);
            let r = stream_from_native(opened);
            assert(open.ensures((config,), opened) && outcome_is(r, opened_model(opened)));
            r
        },
    }
}

/// Opaque AAudio stream builder handle of the C API.
pub struct AAudioStreamBuilder {
    _private: [u8; 0],
}

/// Opaque AAudio stream handle of the C API.
pub struct AAudioStream {
    _private: [u8; 0],
}

/// Result code of a successful AAudio call.
pub const AAUDIO_OK: i32 = 0;
/// AAudio direction code for playback.
pub const AAUDIO_DIRECTION_OUTPUT: i32 = 0;
/// AAudio direction code for recording.
pub const AAUDIO_DIRECTION_INPUT: i32 = 1;
/// AAudio format code for signed 16-bit PCM.
pub const AAUDIO_FORMAT_PCM_I16: i32 = 1;
/// AAudio format code for 32-bit float PCM.
pub const AAUDIO_FORMAT_PCM_FLOAT: i32 = 2;
/// AAudio data callback answer that keeps the stream running.
pub const AAUDIO_CALLBACK_RESULT_CONTINUE: i32 = 0;
/// AAudio sharing mode code for exclusive access.
pub const AAUDIO_SHARING_MODE_EXCLUSIVE: i32 = 0;
/// AAudio sharing mode code for shared access.
pub const AAUDIO_SHARING_MODE_SHARED: i32 = 1;
/// AAudio performance mode code for no preference.
pub const AAUDIO_PERFORMANCE_MODE_NONE: i32 = 10;
/// AAudio performance mode code for power saving.
pub const AAUDIO_PERFORMANCE_MODE_POWER_SAVING: i32 = 11;
/// AAudio performance mode code for low latency.
pub const AAUDIO_PERFORMANCE_MODE_LOW_LATENCY: i32 = 12;
/// Clock id of the monotonic clock, for timestamps.
pub const CLOCK_MONOTONIC: i32 = 1;

/// An AAudio result code as a `Result`: success for `AAUDIO_OK`, otherwise a
/// backend failure carrying the code.
pub fn check_result(code: i32) -> (r: Result<()>)
    ensures
        code == AAUDIO_OK ==> r is Ok,
        code != AAUDIO_OK ==> r == Err::<(), AudioError>(AudioError::BackendFailure { code }),
{
    if code == AAUDIO_OK {
        Ok(())
    } else {
        Err(AudioError::BackendFailure { code })
    }
}

/// The AAudio code of a sample format.
pub open spec fn spec_sample_format_to_aaudio(format: SampleFormat) -> i32 {
    match format {
        SampleFormat::F32 => AAUDIO_FORMAT_PCM_FLOAT,
        SampleFormat::I16 => AAUDIO_FORMAT_PCM_I16,
    }
}

/// The sample format of an AAudio format code, if it is one this library knows.
pub open spec fn spec_sample_format_from_aaudio(value: i32) -> Option<SampleFormat> {
    if value == AAUDIO_FORMAT_PCM_FLOAT {
        Some(SampleFormat::F32)
    } else if value == AAUDIO_FORMAT_PCM_I16 {
        Some(SampleFormat::I16)
    } else {
        None
    }
}

/// Map a sample format to its AAudio code.
pub fn sample_format_to_aaudio(format: SampleFormat) -> (r: i32)
    ensures
        r == spec_sample_format_to_aaudio(format),
{
    match format {
        SampleFormat::F32 => AAUDIO_FORMAT_PCM_FLOAT,
        SampleFormat::I16 => AAUDIO_FORMAT_PCM_I16,
    }
}

/// Map a direction to its AAudio code.
pub fn direction_to_aaudio(direction: Direction) -> (r: i32)
    ensures
        direction == Direction::Output ==> r == AAUDIO_DIRECTION_OUTPUT,
        direction == Direction::Input ==> r == AAUDIO_DIRECTION_INPUT,
{
    match direction {
        Direction::Output => AAUDIO_DIRECTION_OUTPUT,
        Direction::Input => AAUDIO_DIRECTION_INPUT,
    }
}

/// Map an AAudio format code back to a sample format; `None` for codes this
/// library does not handle.
pub fn sample_format_from_aaudio(value: i32) -> (r: Option<SampleFormat>)
    ensures
        r == spec_sample_format_from_aaudio(value),
{
    if value == AAUDIO_FORMAT_PCM_FLOAT {
        Some(SampleFormat::F32)
    } else if value == AAUDIO_FORMAT_PCM_I16 {
        Some(SampleFormat::I16)
    } else {
        None
    }
}

/// Map a performance hint to its AAudio code.
pub fn performance_mode_to_aaudio(mode: PerformanceMode) -> (r: i32)
    ensures
        mode == PerformanceMode::NoPreference ==> r == AAUDIO_PERFORMANCE_MODE_NONE,
        mode == PerformanceMode::PowerSaving ==> r == AAUDIO_PERFORMANCE_MODE_POWER_SAVING,
        mode == PerformanceMode::LowLatency ==> r == AAUDIO_PERFORMANCE_MODE_LOW_LATENCY,
{
    match mode {
        PerformanceMode::NoPreference => AAUDIO_PERFORMANCE_MODE_NONE,
        PerformanceMode::PowerSaving => AAUDIO_PERFORMANCE_MODE_POWER_SAVING,
        PerformanceMode::LowLatency => AAUDIO_PERFORMANCE_MODE_LOW_LATENCY,
    }
}

/// Map a sharing mode to its AAudio code.
pub fn sharing_mode_to_aaudio(mode: SharingMode) -> (r: i32)
    ensures
        mode == SharingMode::Exclusive ==> r == AAUDIO_SHARING_MODE_EXCLUSIVE,
        mode == SharingMode::Shared ==> r == AAUDIO_SHARING_MODE_SHARED,
{
    match mode {
        SharingMode::Exclusive => AAUDIO_SHARING_MODE_EXCLUSIVE,
        SharingMode::Shared => AAUDIO_SHARING_MODE_SHARED,
    }
}

/// Every sample format survives the trip to its AAudio code and back.
pub proof fn lemma_sample_format_code_roundtrip(format: SampleFormat)
    ensures
        spec_sample_format_from_aaudio(spec_sample_format_to_aaudio(format)) == Some(format),
{
}

/// The settings of an opened AAudio stream, from the values the stream reports
/// (`sample_rate`, `channels`, `frames_per_burst`, `format`) and the request:
/// a nonpositive count is a backend failure with code `-1`, an unknown format
/// is `UnsupportedConfig`, and otherwise the reported values replace the
/// requested ones while direction and options stay as requested.
pub fn negotiated_config_from_stream(
    sample_rate: i32,
    channels: i32,
    frames_per_burst: i32,
    format: i32,
    requested: StreamConfig,
) -> (r: Result<StreamConfig>)
    ensures
        (sample_rate <= 0 || channels <= 0 || frames_per_burst <= 0) ==> r == Err::<
            StreamConfig,
            AudioError,
        >(AudioError::BackendFailure { code: -1i32 }),
        (sample_rate > 0 && channels > 0 && frames_per_burst > 0
            && spec_sample_format_from_aaudio(format) is None) ==> r == Err::<
            StreamConfig,
            AudioError,
        >(AudioError::UnsupportedConfig),
        (sample_rate > 0 && channels > 0 && frames_per_burst > 0
            && spec_sample_format_from_aaudio(format) is Some) ==> (r matches Ok(c) && {
            &&& c.channels.spec_get() == channels
            &&& c.sample_rate_hz.spec_get() == sample_rate
            &&& c.frames_per_burst.spec_get() == frames_per_burst
            &&& Some(c.format) == spec_sample_format_from_aaudio(format)
            &&& c.direction == requested.direction
            &&& c.options == requested.options
        }),
{
    if sample_rate <= 0 || channels <= 0 || frames_per_burst <= 0 {
        return Err(AudioError::BackendFailure { code: -1 });
    }
    let negotiated_format = match sample_format_from_aaudio(format) {
        Some(f) => f,
        None => return Err(AudioError::UnsupportedConfig),
    };
    let channels = match NonZeroU32::new(channels as u32) {
        Some(n) => n,
        None => return Err(AudioError::BackendFailure { code: -1 }),
    };
    let sample_rate_hz = match NonZeroU32::new(sample_rate as u32) {
        Some(n) => n,
        None => return Err(AudioError::BackendFailure { code: -1 }),
    };
    let frames_per_burst = match NonZeroU32::new(frames_per_burst as u32) {
        Some(n) => n,
        None => return Err(AudioError::BackendFailure { code: -1 }),
    };
    Ok(StreamConfig {
        channels,
        sample_rate_hz,
        frames_per_burst,
        format: negotiated_format,
        direction: requested.direction,
        options: requested.options,
    })
}

/// `a - b` clamped to the `i64` range.
pub open spec fn spec_saturating_sub_i64(a: i64, b: i64) -> i64 {
    if a - b > i64::MAX {
        i64::MAX
    } else if a - b < i64::MIN {
        i64::MIN
    } else {
        (a - b) as i64
    }
}

fn saturating_sub_i64(a: i64, b: i64) -> (r: i64)
    ensures
        r == spec_saturating_sub_i64(a, b),
{
    match a.checked_sub(b) {
        Some(v) => v,
        None => if b < 0 {
            i64::MAX
        } else {
            i64::MIN
        },
    }
}

/// The frames queued between the application and the device: written minus
/// read for playback, read minus written for recording (saturating).
pub open spec fn spec_queued_frames(direction: Direction, frames_written: i64, frames_read: i64) -> i64 {
    match direction {
        Direction::Output => spec_saturating_sub_i64(frames_written, frames_read),
        Direction::Input => spec_saturating_sub_i64(frames_read, frames_written),
    }
}

/// The metrics of an AAudio stream, from the counters it reports.
pub open spec fn spec_stream_metrics(
    xrun_count: i32,
    frames_written: i64,
    frames_read: i64,
    last_callback_time_ns: u64,
    timestamp_result: i32,
    frame_position: i64,
    backend_time_ns: i64,
    direction: Direction,
    sample_rate_hz: u32,
) -> StreamMetrics {
    let queued = spec_queued_frames(direction, frames_written, frames_read);
    let latency_frames: Option<u32> = if 0 <= queued <= u32::MAX {
        Some(queued as u32)
    } else {
        None
    };
    let timestamp_ok = timestamp_result == AAUDIO_OK;
    StreamMetrics {
        xrun_count: if xrun_count < 0 { 0 } else { xrun_count as u32 },
        frames_written: Some(frames_written),
        frames_read: Some(frames_read),
        timing: StreamTiming {
            callback_time_ns: if last_callback_time_ns > 0 { Some(last_callback_time_ns) } else { None },
            backend_time_ns: if timestamp_ok { Some(backend_time_ns) } else { None },
            frame_position: if timestamp_ok { Some(frame_position) } else { None },
            estimated_latency_frames: latency_frames,
            estimated_latency_ns: match latency_frames {
                Some(f) => Some(spec_frames_to_ns(f, sample_rate_hz) as u64),
                None => None,
            },
            negotiated_share_mode: None,
            negotiated_sample_format: None,
        },
    }
}

/// Metrics of an AAudio stream from what it reports: the xrun count (negative
/// counts read as zero), the frame counters, the last callback time (zero
/// meaning none yet), the result and values of the timestamp query, and the
/// latency estimated from the frames queued in the stream's direction.
pub fn stream_metrics(
    xrun_count: i32,
    frames_written: i64,
    frames_read: i64,
    last_callback_time_ns: u64,
    timestamp_result: i32,
    frame_position: i64,
    backend_time_ns: i64,
    direction: Direction,
    sample_rate_hz: u32,
) -> (r: StreamMetrics)
    ensures
        r == spec_stream_metrics(
            xrun_count,
            frames_written,
            frames_read,
            last_callback_time_ns,
            timestamp_result,
            frame_position,
            backend_time_ns,
            direction,
            sample_rate_hz,
        ),
{
    let queued_frames = match direction {
        Direction::Output => saturating_sub_i64(frames_written, frames_read),
        Direction::Input => saturating_sub_i64(frames_read, frames_written),
    };
    let latency_frames: Option<u32> = if 0 <= queued_frames && queued_frames <= u32::MAX as i64 {
        Some(queued_frames as u32)
    } else {
        None
    };
    let latency_ns: Option<u64> = match latency_frames {
        Some(f) => Some(frames_to_ns(f, sample_rate_hz)),
        None => None,
    };
    let timestamp_ok = timestamp_result == AAUDIO_OK;
    StreamMetrics {
        xrun_count: if xrun_count < 0 { 0 } else { xrun_count as u32 },
        frames_written: Some(frames_written),
        frames_read: Some(frames_read),
        timing: StreamTiming {
            callback_time_ns: if last_callback_time_ns > 0 { Some(last_callback_time_ns) } else { None },
            backend_time_ns: if timestamp_ok { Some(backend_time_ns) } else { None },
            frame_position: if timestamp_ok { Some(frame_position) } else { None },
            estimated_latency_frames: latency_frames,
            estimated_latency_ns: latency_ns,
            negotiated_share_mode: None,
            negotiated_sample_format: None,
        },
    }
}

/// The number of samples a data callback handles, or `None` when the callback
/// has nothing to do (a missing buffer or a nonpositive frame count): frames
/// times channels, saturated to `usize::MAX`.
pub fn callback_sample_count(buffers_present: bool, num_frames: i32, channels: u32) -> (r: Option<usize>)
    ensures
        (!buffers_present || num_frames <= 0) ==> r is None,
        (buffers_present && num_frames > 0) ==> r == Some(
            if num_frames * channels > usize::MAX { usize::MAX } else { (num_frames * channels) as usize },
        ),
{
    if !buffers_present || num_frames <= 0 {
        return None;
    }
    let frame_count = num_frames as usize;
    let channel_count = channels as usize;
    match frame_count.checked_mul(channel_count) {
        Some(samples) => Some(samples),
        None => Some(usize::MAX),
    }
}

/// An AAudio stream reports both frame counters as they are, a negative xrun
/// count as zero, the timestamp only when its query succeeded, and as latency
/// the frames queued in its direction (written minus read for playback, read
/// minus written for recording) with their duration at the rate.
pub proof fn lemma_metrics_from_counters(
    xrun_count: i32,
    frames_written: i64,
    frames_read: i64,
    last_callback_time_ns: u64,
    timestamp_result: i32,
    frame_position: i64,
    backend_time_ns: i64,
    direction: Direction,
    sample_rate_hz: u32,
)
    ensures
        ({
            let m = spec_stream_metrics(
                xrun_count,
                frames_written,
                frames_read,
                last_callback_time_ns,
                timestamp_result,
                frame_position,
                backend_time_ns,
                direction,
                sample_rate_hz,
            );
            &&& m.frames_written == Some(frames_written)
            &&& m.frames_read == Some(frames_read)
            &&& xrun_count >= 0 ==> m.xrun_count == xrun_count
            &&& xrun_count < 0 ==> m.xrun_count == 0
            &&& timestamp_result == AAUDIO_OK ==> m.timing.backend_time_ns == Some(backend_time_ns)
                && m.timing.frame_position == Some(frame_position)
            &&& timestamp_result != AAUDIO_OK ==> m.timing.backend_time_ns is None && m.timing.frame_position is None
            &&& (direction == Direction::Output && 0 <= frames_written - frames_read <= u32::MAX)
                ==> m.timing.estimated_latency_frames == Some((frames_written - frames_read) as u32)
            &&& (direction == Direction::Input && 0 <= frames_read - frames_written <= u32::MAX)
                ==> m.timing.estimated_latency_frames == Some((frames_read - frames_written) as u32)
            &&& (direction == Direction::Output && frames_written < frames_read)
                ==> m.timing.estimated_latency_frames is None
            &&& (direction == Direction::Input && frames_read < frames_written)
                ==> m.timing.estimated_latency_frames is None
            &&& latency_consistent(m.timing, sample_rate_hz)
            &&& (last_callback_time_ns == 0 <==> m.timing.callback_time_ns is None)
        }),
{
    let m = spec_stream_metrics(
        xrun_count,
        frames_written,
        frames_read,
        last_callback_time_ns,
        timestamp_result,
        frame_position,
        backend_time_ns,
        direction,
        sample_rate_hz,
    );
    if let Some(f) = m.timing.estimated_latency_frames {
        lemma_frames_to_ns_latency(f, sample_rate_hz);
    }
}

/// AAudio takes `f32` requests only: the check passes exactly for them and
/// refuses `i16` with `UnsupportedConfig`.
pub proof fn lemma_validation_takes_f32_only(config: StreamConfig)
    ensures
        spec_validate_requested_config(config) is Ok <==> config.format == SampleFormat::F32,
        config.format == SampleFormat::I16 ==> spec_validate_requested_config(config) == Err::<(), AudioError>(
            AudioError::UnsupportedConfig,
        ),
{
}

/// The AAudio format codes: `f32` is `AAUDIO_FORMAT_PCM_FLOAT` and `i16` is
/// `AAUDIO_FORMAT_PCM_I16`; exactly those two codes read back, each as the
/// format it came from.
pub proof fn lemma_format_codes(format: SampleFormat, code: i32)
    ensures
        format == SampleFormat::F32 ==> spec_sample_format_to_aaudio(format) == AAUDIO_FORMAT_PCM_FLOAT,
        format == SampleFormat::I16 ==> spec_sample_format_to_aaudio(format) == AAUDIO_FORMAT_PCM_I16,
        spec_sample_format_from_aaudio(code) is Some <==> (code == AAUDIO_FORMAT_PCM_FLOAT
            || code == AAUDIO_FORMAT_PCM_I16),
        spec_sample_format_from_aaudio(code) matches Some(f) ==> spec_sample_format_to_aaudio(f) == code,
{
}

/// The frames queued never exceed what a saturating difference allows: the
/// difference itself when it fits an `i64`, and the nearest bound otherwise.
pub proof fn lemma_saturating_sub_clamps(a: i64, b: i64)
    ensures
        i64::MIN <= a - b <= i64::MAX ==> spec_saturating_sub_i64(a, b) == a - b,
        a - b > i64::MAX ==> spec_saturating_sub_i64(a, b) == i64::MAX,
        a - b < i64::MIN ==> spec_saturating_sub_i64(a, b) == i64::MIN,
{
}

} // verus!
