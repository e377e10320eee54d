//! ALSA backend (Linux).
use vstd::prelude::*;
use crate::audio_core::config::{Direction, SampleFormat, StreamConfig};
use crate::audio_core::error::{AudioError, Result};
use crate::audio_core::metrics::{
    frames_to_ns, latency_consistent, lemma_frames_to_ns_latency, spec_frames_to_ns, StreamMetrics,
    StreamTiming,
};
use crate::audio_core::stream::{new_stream_model, outcome_is, Stream, StreamModel};
use crate::backend::{trim, trimmed};

verus! {

/// ALSA takes both `f32` and `i16` requests.
pub fn validate_requested_config(config: StreamConfig) -> (r: Result<()>)
    ensures
        r is Ok,
{
    match config.format {
        SampleFormat::F32 | SampleFormat::I16 => Ok(()),
    }
}

/// What `create_stream` answers: on a Linux host, a new stopped stream for the
/// request (the device is opened when the stream starts); elsewhere
/// `NotImplemented`.
pub open spec fn spec_create_stream(config: StreamConfig, on_linux: bool) -> Result<StreamModel> {
    if on_linux {
        Ok(new_stream_model(config))
    } else {
        Err(AudioError::NotImplemented)
    }
}

/// Create a stream backed by ALSA; `on_linux` tells whether the host is Linux.
pub fn create_stream(config: StreamConfig, on_linux: bool) -> (r: Result<Stream>)
    ensures
        outcome_is(r, spec_create_stream(config, on_linux)),
{
    validate_requested_config(config)?;
    if on_linux {
        Ok(Stream::new(config))
    } else {
        Err(AudioError::NotImplemented)
    }
}

/// The device names tried in order when opening a PCM: a non-blank device
/// setting (trimmed) alone; otherwise the preferred device, if any, then
/// `default`, `pipewire` and `pulse`.
pub open spec fn spec_device_candidates(setting: Option<Seq<char>>, preferred: Option<Seq<char>>) -> Seq<Seq<char>> {
    let fallbacks = seq!["default"@, "pipewire"@, "pulse"@];
    match setting {
        Some(text) if trimmed(text).len() > 0 => seq![trimmed(text)],
        _ => match preferred {
            Some(p) => seq![p] + fallbacks,
            None => fallbacks,
        },
    }
}

/// The device names to try when opening a PCM, from the device setting (if
/// set) and the preferred device (if any).
pub fn device_candidates<'a>(setting: Option<&'a str>, preferred: Option<&'a str>) -> (r: Vec<&'a str>)
    ensures
        r@.map_values(|d: &str| d@) == spec_device_candidates(
            match setting {
                Some(t) => Some(t@),
                None => None,
            },
            match preferred {
                Some(p) => Some(p@),
                None => None,
            },
        ),
{
    let ghost setting_view = match setting {
        Some(t) => Some(t@),
        None => None::<Seq<char>>,
    };
    let ghost preferred_view = match preferred {
        Some(p) => Some(p@),
        None => None::<Seq<char>>,
    };
    if let Some(device) = setting {
        let trimmed_device = trim(device);
        if !trimmed_device.is_empty() {
            let mut only: Vec<&'a str> = Vec::new();
            only.push(trimmed_device);
            assert(only@.map_values(|d: &str| d@) =~= spec_device_candidates(setting_view, preferred_view));
            return only;
        }
    }
    let mut candidates: Vec<&'a str> = Vec::new();
    if let Some(device) = preferred {
        candidates.push(device);
    }
    candidates.push("default");
    candidates.push("pipewire");
    candidates.push("pulse");
    assert(candidates@.map_values(|d: &str| d@) =~= spec_device_candidates(setting_view, preferred_view));
    candidates
}

/// The period and buffer sizes asked of the device, in frames: one burst per
/// period and four periods of buffer.
pub fn hw_buffer_request(config: StreamConfig) -> (r: (i64, i64))
    ensures
        r.0 == config.frames_per_burst.spec_get(),
        r.1 == 4 * config.frames_per_burst.spec_get(),
{
    let period_frames = config.frames_per_burst.get() as i64;
    (period_frames, period_frames * 4)
}

/// The metrics of an ALSA stream in `direction` from its counters: frames
/// moved, the device delay (as latency, negatives read as zero) and the last
/// callback time (zero meaning none yet).
pub open spec fn spec_stream_metrics(
    frames_processed: i64,
    delay_frames: i64,
    callback_time_ns: u64,
    direction: Direction,
    sample_rate_hz: u32,
) -> StreamMetrics {
    let delay = if delay_frames < 0 { 0 } else { delay_frames };
    let latency_frames: Option<u32> = if delay <= u32::MAX { Some(delay as u32) } else { None };
    StreamMetrics {
        xrun_count: 0,
        frames_written: if direction == Direction::Output { Some(frames_processed) } else { None },
        frames_read: if direction == Direction::Input { Some(frames_processed) } else { None },
        timing: StreamTiming {
            callback_time_ns: if callback_time_ns == 0 { None } else { Some(callback_time_ns) },
            backend_time_ns: None,
            frame_position: None,
            estimated_latency_frames: latency_frames,
            estimated_latency_ns: match latency_frames {
                Some(f) => Some(spec_frames_to_ns(f, sample_rate_hz) as u64),
                None => None,
            },
            negotiated_share_mode: None,
            negotiated_sample_format: None,
        },
    }
}

/// Metrics of an ALSA stream from its counters.
pub fn stream_metrics(
    frames_processed: i64,
    delay_frames: i64,
    callback_time_ns: u64,
    direction: Direction,
    sample_rate_hz: u32,
) -> (r: StreamMetrics)
    ensures
        r == spec_stream_metrics(frames_processed, delay_frames, callback_time_ns, direction, sample_rate_hz),
{
    let delay = if delay_frames < 0 { 0 } else { delay_frames };
    let latency_frames: Option<u32> = if delay <= u32::MAX as i64 {
        Some(delay as u32)
    } else {
        None
    };
    let latency_ns: Option<u64> = match latency_frames {
        Some(f) => Some(frames_to_ns(f, sample_rate_hz)),
        None => None,
    };
    StreamMetrics {
        xrun_count: 0,
        frames_written: match direction {
            Direction::Output => Some(frames_processed),
            Direction::Input => None,
        },
        frames_read: match direction {
            Direction::Output => None,
            Direction::Input => Some(frames_processed),
        },
        timing: StreamTiming {
            callback_time_ns: if callback_time_ns == 0 { None } else { Some(callback_time_ns) },
            backend_time_ns: None,
            frame_position: None,
            estimated_latency_frames: latency_frames,
            estimated_latency_ns: latency_ns,
            negotiated_share_mode: None,
            negotiated_sample_format: None,
        },
    }
}

/// What one PCM transfer (a write, a read, or a query of the frames
/// available) came back with.
#[derive(Debug, Clone, Copy, PartialEq, Eq, Structural)]
pub enum TransferOutcome {
    /// The call moved (or reported) this many frames.
    Frames(usize),
    /// The device under- or overran (or was suspended) and must be prepared again.
    XRun,
    /// The call failed with this error number.
    Failed(i32),
}

/// What the write loop of a playback burst does next.
#[derive(Debug, Clone, Copy, PartialEq, Eq, Structural)]
pub enum WriteStep {
    /// Keep writing; this many frames of the burst are written.
    Continue(usize),
    /// Stop writing this burst; this many frames were written.
    Finished(usize),
    /// Prepare the device again, then keep writing from the same place.
    Recover,
    /// Give up the stream with this error.
    Fail(AudioError),
}

/// `a + b`, saturated to `usize::MAX`.
pub open spec fn spec_saturating_add(a: usize, b: usize) -> usize {
    if a + b > usize::MAX {
        usize::MAX
    } else {
        (a + b) as usize
    }
}

/// The next step of writing a burst, after `written` frames and a write that
/// came back with `outcome`: a write of zero frames ends the burst, other
/// writes add their frames (saturating), an xrun asks for recovery, and any
/// other failure ends the stream with its error number.
pub fn write_step(written: usize, outcome: TransferOutcome) -> (r: WriteStep)
    ensures
        outcome == TransferOutcome::Frames(0) ==> r == WriteStep::Finished(written),
        outcome matches TransferOutcome::Frames(n) ==> (n > 0 ==> r == WriteStep::Continue(
            spec_saturating_add(written, n),
        )),
        outcome == TransferOutcome::XRun ==> r == WriteStep::Recover,
        outcome matches TransferOutcome::Failed(code) ==> r == WriteStep::Fail(
            AudioError::BackendFailure { code },
        ),
{
    match outcome {
        TransferOutcome::Frames(n) => {
            if n == 0 {
                WriteStep::Finished(written)
            } else {
                match written.checked_add(n) {
                    Some(total) => WriteStep::Continue(total),
                    None => WriteStep::Continue(usize::MAX),
                }
            }
        },
        TransferOutcome::XRun => WriteStep::Recover,
        TransferOutcome::Failed(code) => WriteStep::Fail(AudioError::BackendFailure { code }),
    }
}

/// What the capture loop does after a query of the frames available.
#[derive(Debug, Clone, Copy, PartialEq, Eq, Structural)]
pub enum WaitStep {
    /// A whole burst is available: read it.
    Ready,
    /// Not enough yet: wait for the device.
    Wait,
    /// Prepare the device again, then query again.
    Recover,
    /// Give up the stream with this error.
    Fail(AudioError),
}

/// The next step of waiting for a burst of `min_frames` frames, after a query
/// that came back with `outcome`.
pub fn wait_step(min_frames: usize, outcome: TransferOutcome) -> (r: WaitStep)
    ensures
        outcome matches TransferOutcome::Frames(n) && n >= min_frames ==> r == WaitStep::Ready,
        outcome matches TransferOutcome::Frames(n) && n < min_frames ==> r == WaitStep::Wait,
        outcome == TransferOutcome::XRun ==> r == WaitStep::Recover,
        outcome matches TransferOutcome::Failed(code) ==> r == WaitStep::Fail(
            AudioError::BackendFailure { code },
        ),
{
    match outcome {
        TransferOutcome::Frames(n) => if n >= min_frames {
            WaitStep::Ready
        } else {
            WaitStep::Wait
        },
        TransferOutcome::XRun => WaitStep::Recover,
        TransferOutcome::Failed(code) => WaitStep::Fail(AudioError::BackendFailure { code }),
    }
}

/// What the capture loop does after a read.
#[derive(Debug, Clone, Copy, PartialEq, Eq, Structural)]
pub enum ReadStep {
    /// Hand this many frames to the callback.
    Deliver(usize),
    /// Prepare the device again and go round the loop.
    Recover,
    /// Give up the stream with this error.
    Fail(AudioError),
}

/// The next step of the capture loop after a read that came back with `outcome`.
pub fn read_step(outcome: TransferOutcome) -> (r: ReadStep)
    ensures
        outcome matches TransferOutcome::Frames(n) ==> r == ReadStep::Deliver(n),
        outcome == TransferOutcome::XRun ==> r == ReadStep::Recover,
        outcome matches TransferOutcome::Failed(code) ==> r == ReadStep::Fail(
            AudioError::BackendFailure { code },
        ),
{
    match outcome {
        TransferOutcome::Frames(n) => ReadStep::Deliver(n),
        TransferOutcome::XRun => ReadStep::Recover,
        TransferOutcome::Failed(code) => ReadStep::Fail(AudioError::BackendFailure { code }),
    }
}

/// With no device setting, or a blank one, the preferred device (if any) is
/// tried first, then `default`, `pipewire` and `pulse`; a non-blank setting
/// is the only device tried, trimmed.
pub proof fn lemma_device_candidates_order(setting: Seq<char>, preferred: Option<Seq<char>>)
    ensures
        preferred matches Some(p) ==> spec_device_candidates(None, preferred) == seq![
            p,
            "default"@,
            "pipewire"@,
            "pulse"@,
        ],
        preferred is None ==> spec_device_candidates(None, preferred) == seq![
            "default"@,
            "pipewire"@,
            "pulse"@,
        ],
        trimmed(setting).len() == 0 ==> spec_device_candidates(Some(setting), preferred)
            == spec_device_candidates(None, preferred),
        trimmed(setting).len() > 0 ==> spec_device_candidates(Some(setting), preferred) == seq![
            trimmed(setting),
        ],
{
}

/// The frames an ALSA stream moved are reported on the side of its
/// direction: as frames written for playback, as frames read for recording.
pub proof fn lemma_metrics_report_frames_by_direction(
    frames_processed: i64,
    delay_frames: i64,
    callback_time_ns: u64,
    direction: Direction,
    sample_rate_hz: u32,
)
    ensures
        ({
            let m = spec_stream_metrics(frames_processed, delay_frames, callback_time_ns, direction, sample_rate_hz);
            &&& direction == Direction::Output ==> m.frames_written == Some(frames_processed) && m.frames_read is None
            &&& direction == Direction::Input ==> m.frames_read == Some(frames_processed) && m.frames_written is None
            &&& m.xrun_count == 0
            &&& (callback_time_ns == 0 <==> m.timing.callback_time_ns is None)
            &&& callback_time_ns != 0 ==> m.timing.callback_time_ns == Some(callback_time_ns)
        }),
{
}

/// The latency of an ALSA stream is the device delay (a negative delay reads
/// as none), in frames and as their duration at the sample rate.
pub proof fn lemma_metrics_latency_is_the_delay(
    frames_processed: i64,
    delay_frames: i64,
    callback_time_ns: u64,
    direction: Direction,
    sample_rate_hz: u32,
)
    ensures
        ({
            let m = spec_stream_metrics(frames_processed, delay_frames, callback_time_ns, direction, sample_rate_hz);
            &&& 0 <= delay_frames <= u32::MAX ==> m.timing.estimated_latency_frames == Some(delay_frames as u32)
            &&& delay_frames < 0 ==> m.timing.estimated_latency_frames == Some(0u32)
            &&& delay_frames > u32::MAX ==> m.timing.estimated_latency_frames is None
            &&& latency_consistent(m.timing, sample_rate_hz)
        }),
{
    let m = spec_stream_metrics(frames_processed, delay_frames, callback_time_ns, direction, sample_rate_hz);
    if let Some(f) = m.timing.estimated_latency_frames {
        lemma_frames_to_ns_latency(f, sample_rate_hz);
    }
}

} // verus!
