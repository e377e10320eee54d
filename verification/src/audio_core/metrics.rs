//! Stream runtime metrics and the time conversions they use.
use vstd::prelude::*;

verus! {

/// Negotiated stream sharing mode, when backend exposes it.
#[derive(Debug, Clone, Copy, PartialEq, Eq, Structural)]
pub enum NegotiatedShareMode {
    /// Shared with system mixer or other clients.
    Shared,
    /// Exclusive device access.
    Exclusive,
}

/// Negotiated sample format, when backend exposes it.
#[derive(Debug, Clone, Copy, PartialEq, Eq, Structural)]
pub enum NegotiatedSampleFormat {
    /// 32-bit float PCM.
    F32,
    /// Signed 16-bit PCM.
    I16,
}

/// Stream timing and latency snapshot.
#[derive(Debug, Clone, Copy, PartialEq, Eq)]
pub struct StreamTiming {
    /// Most recent callback timestamp in nanoseconds, if available.
    pub callback_time_ns: Option<u64>,
    /// Backend frame position timestamp in nanoseconds, if available.
    pub backend_time_ns: Option<i64>,
    /// Frame position paired with `backend_time_ns`, if available.
    pub frame_position: Option<i64>,
    /// Estimated end-to-end stream latency in frames, if available.
    pub estimated_latency_frames: Option<u32>,
    /// Estimated end-to-end stream latency in nanoseconds, if available.
    pub estimated_latency_ns: Option<u64>,
    /// Backend-negotiated sharing mode, if available.
    pub negotiated_share_mode: Option<NegotiatedShareMode>,
    /// Backend-negotiated sample format, if available.
    pub negotiated_sample_format: Option<NegotiatedSampleFormat>,
}

/// A timing snapshot in which nothing is known.
pub open spec fn empty_timing() -> StreamTiming {
    StreamTiming {
        callback_time_ns: None,
        backend_time_ns: None,
        frame_position: None,
        estimated_latency_frames: None,
        estimated_latency_ns: None,
        negotiated_share_mode: None,
        negotiated_sample_format: None,
    }
}

impl Default for StreamTiming {
    fn default() -> (r: Self)
        ensures
            r == empty_timing(),
    {
        StreamTiming {
            callback_time_ns: None,
            backend_time_ns: None,
            frame_position: None,
            estimated_latency_frames: None,
            estimated_latency_ns: None,
            negotiated_share_mode: None,
            negotiated_sample_format: None,
        }
    }
}

/// Runtime counters reported by a stream backend.
#[derive(Debug, Clone, Copy, PartialEq, Eq)]
pub struct StreamMetrics {
    /// Number of xruns reported by backend.
    pub xrun_count: u32,
    /// Frames written by backend, if available.
    pub frames_written: Option<i64>,
    /// Frames read by backend, if available.
    pub frames_read: Option<i64>,
    /// Timing and latency values.
    pub timing: StreamTiming,
}

/// Metrics in which no counter has moved and nothing is known.
pub open spec fn empty_metrics() -> StreamMetrics {
    StreamMetrics { xrun_count: 0, frames_written: None, frames_read: None, timing: empty_timing() }
}

impl Default for StreamMetrics {
    fn default() -> (r: Self)
        ensures
            r == empty_metrics(),
    {
        StreamMetrics {
            xrun_count: 0,
            frames_written: None,
            frames_read: None,
            timing: StreamTiming::default(),
        }
    }
}

/// The duration of `frames` frames at `sample_rate_hz`, in whole nanoseconds
/// (rounded down); zero when the rate is zero.
pub open spec fn spec_frames_to_ns(frames: u32, sample_rate_hz: u32) -> int {
    if sample_rate_hz == 0 {
        0
    } else {
        (frames * 1_000_000_000) / (sample_rate_hz as int)
    }
}

/// Convert a frame count at a sample rate to nanoseconds.
pub fn frames_to_ns(frames: u32, sample_rate_hz: u32) -> (r: u64)
    ensures
        r == spec_frames_to_ns(frames, sample_rate_hz),
{
    if sample_rate_hz == 0 {
        return 0;
    }
    let product: u128 = (frames as u128) * 1_000_000_000u128;
    let quotient: u128 = product / (sample_rate_hz as u128);
    assert(quotient <= product) by (nonlinear_arith)
        requires
            quotient == product / (sample_rate_hz as u128),
            sample_rate_hz >= 1,
    ;
    assert(product <= 0xffff_ffff * 1_000_000_000u128);
    quotient as u64
}

/// The wall-clock reading handed to callbacks: the nanoseconds since the Unix
/// epoch, saturated to `u64::MAX`, or zero when the clock is before the epoch.
pub open spec fn spec_unix_time_ns(elapsed_nanos: Option<u128>) -> u64 {
    match elapsed_nanos {
        Some(n) => if n > u64::MAX { u64::MAX } else { n as u64 },
        None => 0,
    }
}

/// Turn the time elapsed since the Unix epoch (`None` when the clock reads
/// earlier than the epoch) into the `u64` nanosecond stamp of `CallbackInfo`.
pub fn unix_time_ns(elapsed_nanos: Option<u128>) -> (r: u64)
    ensures
        r == spec_unix_time_ns(elapsed_nanos),
{
    match elapsed_nanos {
        Some(n) => if n > u64::MAX as u128 { u64::MAX } else { n as u64 },
        None => 0,
    }
}

/// A nanosecond reading as a `u64` stamp, saturated to `u64::MAX`.
pub open spec fn spec_monotonic_time_ns(elapsed_nanos: u128) -> u64 {
    if elapsed_nanos > u64::MAX { u64::MAX } else { elapsed_nanos as u64 }
}

/// Turn the time elapsed on a monotonic clock since a fixed origin into the
/// `u64` nanosecond stamp of `CallbackInfo`, saturated to `u64::MAX`.
pub fn monotonic_time_ns(elapsed_nanos: u128) -> (r: u64)
    ensures
        r == spec_monotonic_time_ns(elapsed_nanos),
{
    if elapsed_nanos > u64::MAX as u128 { u64::MAX } else { elapsed_nanos as u64 }
}

/// Callback stamps never run backwards: a later (or equal) reading of the
/// monotonic clock gives a stamp no smaller than an earlier one.
pub proof fn lemma_monotonic_time_ns_monotone(earlier: u128, later: u128)
    requires
        earlier <= later,
    ensures
        spec_monotonic_time_ns(earlier) <= spec_monotonic_time_ns(later),
{
}

/// Wall-clock stamps keep the order of the readings they come from: a
/// reading before the epoch gives the smallest stamp, and of two readings
/// after it the later gives a stamp no smaller than the earlier.
pub proof fn lemma_unix_time_ns_monotone(earlier: Option<u128>, later: Option<u128>)
    requires
        later is None ==> earlier is None,
        earlier is Some && later is Some ==> earlier->0 <= later->0,
    ensures
        spec_unix_time_ns(earlier) <= spec_unix_time_ns(later),
{
}

/// `frames_to_ns` is whole nanoseconds rounded down: at a nonzero rate the
/// answer `ns` is the one with `ns * rate <= frames * 10^9 < (ns + 1) * rate`,
/// and it fits a `u64`.
pub proof fn lemma_frames_to_ns_rounds_down(frames: u32, sample_rate_hz: u32)
    requires
        sample_rate_hz > 0,
    ensures
        0 <= spec_frames_to_ns(frames, sample_rate_hz) <= u64::MAX,
        spec_frames_to_ns(frames, sample_rate_hz) * sample_rate_hz <= frames * 1_000_000_000,
        frames * 1_000_000_000 < (spec_frames_to_ns(frames, sample_rate_hz) + 1) * sample_rate_hz,
{
    let x: int = frames * 1_000_000_000;
    let q: int = x / (sample_rate_hz as int);
    assert(q * sample_rate_hz <= x < (q + 1) * sample_rate_hz && 0 <= q <= x) by (nonlinear_arith)
        requires
            q == x / (sample_rate_hz as int),
            sample_rate_hz > 0,
            x >= 0,
    ;
    assert(x <= 0xffff_ffff * 1_000_000_000) by (nonlinear_arith)
        requires
            x == frames * 1_000_000_000,
            frames <= 0xffff_ffff,
    ;
}

/// A latency estimate in nanoseconds is the duration of the latency frames at
/// the sample rate, rounded down (zero at a zero rate).
pub open spec fn latency_ns_matches(frames: u32, ns: u64, sample_rate_hz: u32) -> bool {
    if sample_rate_hz == 0 {
        ns == 0
    } else {
        ns * sample_rate_hz <= frames * 1_000_000_000 < (ns + 1) * sample_rate_hz
    }
}

/// The latency frames and nanoseconds of a timing snapshot agree: both are
/// absent, or the nanoseconds are the frames' duration at the rate.
pub open spec fn latency_consistent(timing: StreamTiming, sample_rate_hz: u32) -> bool {
    match timing.estimated_latency_frames {
        None => timing.estimated_latency_ns is None,
        Some(f) => timing.estimated_latency_ns matches Some(ns) && latency_ns_matches(f, ns, sample_rate_hz),
    }
}

/// The nanosecond latency computed from a frame latency agrees with it.
pub proof fn lemma_frames_to_ns_latency(frames: u32, sample_rate_hz: u32)
    ensures
        latency_ns_matches(frames, spec_frames_to_ns(frames, sample_rate_hz) as u64, sample_rate_hz),
{
    if sample_rate_hz > 0 {
        lemma_frames_to_ns_rounds_down(frames, sample_rate_hz);
    }
}

/// A callback stamp is the clock reading itself while it fits a `u64`, and
/// `u64::MAX` beyond; a wall-clock reading before the epoch gives zero.
pub proof fn lemma_time_stamps_keep_the_reading(elapsed_nanos: u128)
    ensures
        elapsed_nanos <= u64::MAX ==> spec_monotonic_time_ns(elapsed_nanos) == elapsed_nanos,
        elapsed_nanos > u64::MAX ==> spec_monotonic_time_ns(elapsed_nanos) == u64::MAX,
        elapsed_nanos <= u64::MAX ==> spec_unix_time_ns(Some(elapsed_nanos)) == elapsed_nanos,
        elapsed_nanos > u64::MAX ==> spec_unix_time_ns(Some(elapsed_nanos)) == u64::MAX,
        spec_unix_time_ns(None) == 0,
{
}

} // verus!
