//! Native PipeWire backend (Linux).
use vstd::prelude::*;
use crate::audio_core::config::{Direction, SampleFormat, StreamConfig};
use crate::audio_core::error::{AudioError, Result};
use crate::audio_core::metrics::{empty_timing, StreamMetrics, StreamTiming};
use crate::audio_core::stream::{new_stream_model, outcome_is, Stream, StreamModel};

verus! {

/// PipeWire takes both `f32` and `i16` requests.
pub fn validate_requested_config(config: StreamConfig) -> (r: Result<()>)
    ensures
        r is Ok,
{
    match config.format {
        SampleFormat::F32 | SampleFormat::I16 => Ok(()),
    }
}

/// What the host offers of native PipeWire.
#[derive(Debug, Clone, Copy, PartialEq, Eq, Structural)]
pub enum PipeWireClient {
    /// No native PipeWire client: the host is not Linux, or the build does
    /// not carry the client.
    Unavailable,
    /// The native client is built in; what the runtime probe found.
    Available {
        /// Whether the PipeWire server socket exists.
        socket_exists: bool,
        /// Whether the PipeWire client library loads.
        library_available: bool,
    },
}

/// Whether a PipeWire session can be used: failure `-730` without the server
/// socket, `-731` without the client library.
pub open spec fn spec_probe_runtime_support(socket_exists: bool, library_available: bool) -> Result<()> {
    if !socket_exists {
        Err(AudioError::BackendFailure { code: -730i32 })
    } else if !library_available {
        Err(AudioError::BackendFailure { code: -731i32 })
    } else {
        Ok(())
    }
}

/// What `create_stream` answers: `NotImplemented` without a native client;
/// with one, the probe's failure, else a new stopped stream for the request
/// (the PipeWire connection is made when the stream starts).
pub open spec fn spec_create_stream(config: StreamConfig, client: PipeWireClient) -> Result<StreamModel> {
    match client {
        PipeWireClient::Unavailable => Err(AudioError::NotImplemented),
        PipeWireClient::Available { socket_exists, library_available } => match spec_probe_runtime_support(
            socket_exists,
            library_available,
        ) {
            Err(e) => Err(e),
            Ok(()) => Ok(new_stream_model(config)),
        },
    }
}

/// Create a stream backed by native PipeWire, given what the host offers.
pub fn create_stream(config: StreamConfig, client: PipeWireClient) -> (r: Result<Stream>)
    ensures
        outcome_is(r, spec_create_stream(config, client)),
{
    validate_requested_config(config)?;
    match client {
        PipeWireClient::Unavailable => Err(AudioError::NotImplemented),
        PipeWireClient::Available { socket_exists, library_available } => {
            probe_runtime_support(socket_exists, library_available)?;
            Ok(Stream::new(config))
        },
    }
}

/// Whether a PipeWire session can be used: the server socket must exist
/// (else failure `-730`) and the client library must load (else `-731`).
pub fn probe_runtime_support(socket_exists: bool, library_available: bool) -> (r: Result<()>)
    ensures
        r == spec_probe_runtime_support(socket_exists, library_available),
{
    if !socket_exists {
        return Err(AudioError::BackendFailure { code: -730 });
    }
    if !library_available {
        return Err(AudioError::BackendFailure { code: -731 });
    }
    Ok(())
}

/// Bytes in one sample of a format.
pub open spec fn spec_sample_bytes(format: SampleFormat) -> usize {
    match format {
        SampleFormat::F32 => 4,
        SampleFormat::I16 => 2,
    }
}

/// Bytes in one sample of a format.
pub fn sample_bytes(format: SampleFormat) -> (r: usize)
    ensures
        r == spec_sample_bytes(format),
{
    match format {
        SampleFormat::F32 => 4,
        SampleFormat::I16 => 2,
    }
}

/// Bytes in one frame: channels times sample bytes, saturated to `usize::MAX`.
pub fn frame_stride(channels: usize, format: SampleFormat) -> (r: usize)
    ensures
        r == (if channels * spec_sample_bytes(format) > usize::MAX {
            usize::MAX
        } else {
            (channels * spec_sample_bytes(format)) as usize
        }),
{
    match channels.checked_mul(sample_bytes(format)) {
        Some(stride) => stride,
        None => usize::MAX,
    }
}

/// The frames a process pass handles in a buffer of `available_bytes` bytes,
/// and the samples they hold; `None` when the stride is zero or no whole
/// frame fits (the pass then does nothing).
pub fn frames_in_buffer(available_bytes: usize, stride: usize, channels: usize) -> (r: Option<(usize, usize)>)
    ensures
        (stride == 0 || available_bytes / stride == 0 || channels == 0) ==> r is None,
        (stride > 0 && available_bytes / stride > 0 && channels > 0) ==> r == Some(
            (
                available_bytes / stride,
                (if (available_bytes / stride) * channels > usize::MAX {
                    usize::MAX
                } else {
                    ((available_bytes / stride) * channels) as usize
                }),
            ),
        ),
{
    if stride == 0 {
        return None;
    }
    let n_frames = available_bytes / stride;
    if n_frames == 0 || channels == 0 {
        return None;
    }
    let samples = match n_frames.checked_mul(channels) {
        Some(s) => s,
        None => usize::MAX,
    };
    Some((n_frames, samples))
}

/// The kinds of failure the PipeWire client library reports.
#[derive(Debug, Clone, Copy, PartialEq, Eq, Structural)]
pub enum PipeWireError {
    /// An object could not be created.
    CreationFailed,
    /// The library ran out of memory.
    NoMemory,
    /// A proxy was of another type than asked for.
    WrongProxyType,
    /// The underlying SPA layer returned an error.
    SpaError,
}

/// The backend failure code of a PipeWire client error.
pub open spec fn spec_map_pw_error(error: PipeWireError) -> i32 {
    match error {
        PipeWireError::CreationFailed => -740i32,
        PipeWireError::NoMemory => -741i32,
        PipeWireError::WrongProxyType => -742i32,
        PipeWireError::SpaError => -743i32,
    }
}

/// Map a PipeWire client error to the code carried by `BackendFailure`.
pub fn map_pw_error(error: PipeWireError) -> (r: i32)
    ensures
        r == spec_map_pw_error(error),
{
    match error {
        PipeWireError::CreationFailed => -740,
        PipeWireError::NoMemory => -741,
        PipeWireError::WrongProxyType => -742,
        PipeWireError::SpaError => -743,
    }
}

/// The metrics of a PipeWire stream in `direction`: the frame counter of its
/// direction, the last callback time (zero meaning none yet), and nothing else.
pub open spec fn spec_stream_metrics(
    direction: Direction,
    frames_written: i64,
    frames_read: i64,
    callback_time_ns: u64,
) -> StreamMetrics {
    StreamMetrics {
        xrun_count: 0,
        frames_written: if direction == Direction::Output { Some(frames_written) } else { None },
        frames_read: if direction == Direction::Input { Some(frames_read) } else { None },
        timing: StreamTiming {
            callback_time_ns: if callback_time_ns == 0 { None } else { Some(callback_time_ns) },
            ..empty_timing()
        },
    }
}

/// Metrics of a PipeWire stream from its counters.
pub fn stream_metrics(
    direction: Direction,
    frames_written: i64,
    frames_read: i64,
    callback_time_ns: u64,
) -> (r: StreamMetrics)
    ensures
        r == spec_stream_metrics(direction, frames_written, frames_read, callback_time_ns),
{
    let timing = StreamTiming::default();
    StreamMetrics {
        xrun_count: 0,
        frames_written: match direction {
            Direction::Output => Some(frames_written),
            Direction::Input => None,
        },
        frames_read: match direction {
            Direction::Output => None,
            Direction::Input => Some(frames_read),
        },
        timing: StreamTiming {
            callback_time_ns: if callback_time_ns == 0 { None } else { Some(callback_time_ns) },
            ..timing
        },
    }
}

/// A PipeWire stream reports the frame counter of its own direction only:
/// frames written for playback, frames read for recording; it counts no
/// xruns and estimates no latency.
pub proof fn lemma_metrics_report_frames_by_direction(
    direction: Direction,
    frames_written: i64,
    frames_read: i64,
    callback_time_ns: u64,
)
    ensures
        ({
            let m = spec_stream_metrics(direction, frames_written, frames_read, callback_time_ns);
            &&& direction == Direction::Output ==> m.frames_written == Some(frames_written) && m.frames_read is None
            &&& direction == Direction::Input ==> m.frames_read == Some(frames_read) && m.frames_written is None
            &&& m.xrun_count == 0
            &&& m.timing.estimated_latency_frames is None
            &&& m.timing.estimated_latency_ns is None
            &&& (callback_time_ns == 0 <==> m.timing.callback_time_ns is None)
            &&& callback_time_ns != 0 ==> m.timing.callback_time_ns == Some(callback_time_ns)
        }),
{
}

/// Each PipeWire client error has its own failure code, in the `-740` range.
pub proof fn lemma_pw_error_codes_distinct(a: PipeWireError, b: PipeWireError)
    ensures
        -743 <= spec_map_pw_error(a) <= -740,
        spec_map_pw_error(a) == spec_map_pw_error(b) ==> a == b,
        a == PipeWireError::CreationFailed ==> spec_map_pw_error(a) == -740,
{
}

/// A sample takes four bytes as `f32` and two as `i16`.
pub proof fn lemma_sample_sizes(format: SampleFormat)
    ensures
        format == SampleFormat::F32 ==> spec_sample_bytes(format) == 4,
        format == SampleFormat::I16 ==> spec_sample_bytes(format) == 2,
{
}

} // verus!
