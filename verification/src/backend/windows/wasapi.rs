//! WASAPI backend.
use vstd::prelude::*;
use crate::audio_core::config::{Direction, SampleFormat, StreamConfig};
use crate::audio_core::error::{AudioError, Result};
use crate::audio_core::metrics::{
    frames_to_ns, latency_consistent, lemma_frames_to_ns_latency, spec_frames_to_ns, NegotiatedSampleFormat, NegotiatedShareMode, StreamMetrics,
    StreamTiming,
};
use crate::audio_core::stream::{new_stream_model, outcome_is, Stream, StreamModel, StreamState};
use crate::backend::{ascii_lowercase, lowercase_equals, trim, trimmed};

verus! {

/// WASAPI takes both `f32` and `i16` requests.
pub fn validate_requested_config(config: StreamConfig) -> (r: Result<()>)
    ensures
        r is Ok,
{
    match config.format {
        SampleFormat::F32 | SampleFormat::I16 => Ok(()),
    }
}

/// The stream a probe of the default endpoint leads to: a new stopped stream
/// for the request when an endpoint answered, else the probe's error.
pub open spec fn probed_model(config: StreamConfig, probed: Result<()>) -> Result<StreamModel> {
    match probed {
        Ok(()) => Ok(new_stream_model(config)),
        Err(e) => Err(e),
    }
}

/// The call `create_stream` makes into `probe_endpoint`: one, for the
/// request's direction.
pub open spec fn native_ready<E: FnOnce(Direction) -> Result<()>>(config: StreamConfig, probe_endpoint: E) -> bool {
    probe_endpoint.requires((config.direction,))
}

/// `r` is what `create_stream` answers for `config`: for some answer `probed`
/// of the endpoint probe, a new stopped stream for the request, or the
/// probe's error.
pub open spec fn create_outcome<E: FnOnce(Direction) -> Result<()>>(
    config: StreamConfig,
    probe_endpoint: E,
    r: Result<Stream>,
) -> bool {
    exists|probed: Result<()>|
        #[trigger] probe_endpoint.ensures((config.direction,), probed) && outcome_is(r, probed_model(config, probed))
}

/// Create a stream backed by WASAPI.
///
/// `probe_endpoint` looks for the default audio endpoint of a direction
/// (where there is no Windows audio system, it answers `NotImplemented`);
/// the audio client itself is set up when the stream starts.
pub fn create_stream<E>(config: StreamConfig, probe_endpoint: E) -> (r: Result<Stream>)
    where
        E: FnOnce(Direction) -> Result<()>,
    requires
        native_ready(config, probe_endpoint),
    ensures
        create_outcome(config, probe_endpoint, r),
{
    let checked = validate_requested_config(config);
    assert(checked is Ok);
    let probed = probe_endpoint(config.direction);
    let r = match probed {
        Ok(()) => Ok(Stream::new(config)),
        Err(e) => Err(e),
    };
    assert(probe_endpoint.ensures((config.direction,), probed) && outcome_is(r, probed_model(config, probed)));
    r
}

/// Wave format tag of integer PCM.
pub const WAVE_FORMAT_PCM: u16 = 1;
/// Wave format tag of IEEE float PCM.
pub const WAVE_FORMAT_IEEE_FLOAT: u16 = 3;
/// Negotiated value not known yet.
pub const NEGOTIATED_UNKNOWN: u8 = 0;
/// Negotiated sharing mode: shared.
pub const NEGOTIATED_SHARED: u8 = 1;
/// Negotiated sharing mode: exclusive.
pub const NEGOTIATED_EXCLUSIVE: u8 = 2;
/// Negotiated sample format: `f32`.
pub const NEGOTIATED_F32: u8 = 1;
/// Negotiated sample format: `i16`.
pub const NEGOTIATED_I16: u8 = 2;

/// Which sharing modes a stream may be opened in.
#[derive(Clone, Copy, Debug, PartialEq, Eq, Structural)]
pub enum WasapiMode {
    /// Exclusive first, shared as fallback.
    Auto,
    /// Shared only.
    Shared,
    /// Exclusive first, shared as fallback.
    Exclusive,
}

/// The mode a setting text selects once trimmed: `shared` or `exclusive` in
/// any ASCII case, and `Auto` for anything else.
pub open spec fn spec_wasapi_mode_from_text(text: Seq<char>) -> WasapiMode {
    if ascii_lowercase(text) == "shared"@ {
        WasapiMode::Shared
    } else if ascii_lowercase(text) == "exclusive"@ {
        WasapiMode::Exclusive
    } else {
        WasapiMode::Auto
    }
}

/// The mode selected by an already trimmed setting text.
pub fn wasapi_mode_from_text(text: &str) -> (r: WasapiMode)
    ensures
        r == spec_wasapi_mode_from_text(text@),
{
    if lowercase_equals(text, "shared") {
        WasapiMode::Shared
    } else if lowercase_equals(text, "exclusive") {
        WasapiMode::Exclusive
    } else {
        WasapiMode::Auto
    }
}

/// The mode selected by the mode setting, if one is set: the setting is
/// trimmed of white space and read by `wasapi_mode_from_text`; no setting
/// means `Auto`.
pub fn parse_wasapi_mode(raw: Option<&str>) -> (r: WasapiMode)
    ensures
        raw is None ==> r == WasapiMode::Auto,
        raw matches Some(text) ==> r == spec_wasapi_mode_from_text(trimmed(text@)),
{
    match raw {
        Some(text) => wasapi_mode_from_text(trim(text)),
        None => WasapiMode::Auto,
    }
}

/// A sharing mode to try when opening the device.
#[derive(Clone, Copy, Debug, PartialEq, Eq, Structural)]
pub enum ShareModeChoice {
    /// Shared with the system mixer.
    Shared,
    /// Exclusive device access.
    Exclusive,
}

impl ShareModeChoice {
    /// Name of the mode, for diagnostics.
    pub fn label(self) -> (r: &'static str)
        ensures
            self == ShareModeChoice::Shared ==> r@ == "shared"@,
            self == ShareModeChoice::Exclusive ==> r@ == "exclusive"@,
    {
        match self {
            ShareModeChoice::Shared => "shared",
            ShareModeChoice::Exclusive => "exclusive",
        }
    }

    /// The mode as reported in metrics.
    pub fn as_metrics(self) -> (r: NegotiatedShareMode)
        ensures
            self == ShareModeChoice::Shared ==> r == NegotiatedShareMode::Shared,
            self == ShareModeChoice::Exclusive ==> r == NegotiatedShareMode::Exclusive,
    {
        match self {
            ShareModeChoice::Shared => NegotiatedShareMode::Shared,
            ShareModeChoice::Exclusive => NegotiatedShareMode::Exclusive,
        }
    }
}

/// A sample format the device may be opened with.
#[derive(Clone, Copy, Debug, PartialEq, Eq, Structural)]
pub enum WasapiSampleFormat {
    /// 32-bit float PCM.
    F32,
    /// Signed 16-bit PCM.
    I16,
}

/// The other of the two formats.
pub open spec fn spec_alternate(format: WasapiSampleFormat) -> WasapiSampleFormat {
    match format {
        WasapiSampleFormat::F32 => WasapiSampleFormat::I16,
        WasapiSampleFormat::I16 => WasapiSampleFormat::F32,
    }
}

/// The device format that matches a requested sample format.
pub open spec fn spec_from_requested(format: SampleFormat) -> WasapiSampleFormat {
    match format {
        SampleFormat::F32 => WasapiSampleFormat::F32,
        SampleFormat::I16 => WasapiSampleFormat::I16,
    }
}

/// Bytes in one sample of a format.
pub open spec fn spec_bytes_per_sample(format: WasapiSampleFormat) -> u32 {
    match format {
        WasapiSampleFormat::F32 => 4,
        WasapiSampleFormat::I16 => 2,
    }
}

impl WasapiSampleFormat {
    /// The device format that matches a requested sample format.
    pub fn from_requested(format: SampleFormat) -> (r: Self)
        ensures
            r == spec_from_requested(format),
    {
        match format {
            SampleFormat::F32 => WasapiSampleFormat::F32,
            SampleFormat::I16 => WasapiSampleFormat::I16,
        }
    }

    /// The other format, tried when the requested one is refused.
    pub fn alternate(self) -> (r: Self)
        ensures
            r == spec_alternate(self),
    {
        match self {
            WasapiSampleFormat::F32 => WasapiSampleFormat::I16,
            WasapiSampleFormat::I16 => WasapiSampleFormat::F32,
        }
    }

    /// Bytes in one sample.
    pub fn bytes_per_sample(self) -> (r: usize)
        ensures
            r == spec_bytes_per_sample(self),
    {
        match self {
            WasapiSampleFormat::F32 => 4,
            WasapiSampleFormat::I16 => 2,
        }
    }

    /// Bits in one sample.
    pub fn bits_per_sample(self) -> (r: u16)
        ensures
            r == 8 * spec_bytes_per_sample(self),
    {
        (self.bytes_per_sample() * 8) as u16
    }

    /// The wave format tag of the format.
    pub fn wave_format_tag(self) -> (r: u16)
        ensures
            self == WasapiSampleFormat::F32 ==> r == WAVE_FORMAT_IEEE_FLOAT,
            self == WasapiSampleFormat::I16 ==> r == WAVE_FORMAT_PCM,
    {
        match self {
            WasapiSampleFormat::F32 => WAVE_FORMAT_IEEE_FLOAT,
            WasapiSampleFormat::I16 => WAVE_FORMAT_PCM,
        }
    }

    /// Name of the format, for diagnostics.
    pub fn label(self) -> (r: &'static str)
        ensures
            self == WasapiSampleFormat::F32 ==> r@ == "f32"@,
            self == WasapiSampleFormat::I16 ==> r@ == "i16"@,
    {
        match self {
            WasapiSampleFormat::F32 => "f32",
            WasapiSampleFormat::I16 => "i16",
        }
    }

    /// The format as reported in metrics.
    pub fn as_metrics(self) -> (r: NegotiatedSampleFormat)
        ensures
            self == WasapiSampleFormat::F32 ==> r == NegotiatedSampleFormat::F32,
            self == WasapiSampleFormat::I16 ==> r == NegotiatedSampleFormat::I16,
    {
        match self {
            WasapiSampleFormat::F32 => NegotiatedSampleFormat::F32,
            WasapiSampleFormat::I16 => NegotiatedSampleFormat::I16,
        }
    }
}

/// Taking the alternate format twice gives back the format.
pub proof fn lemma_alternate_is_involution(format: WasapiSampleFormat)
    ensures
        spec_alternate(spec_alternate(format)) == format,
        spec_alternate(format) != format,
{
}

/// The sharing modes tried, in order, for a mode setting.
pub open spec fn spec_share_mode_attempts(mode: WasapiMode) -> Seq<ShareModeChoice> {
    match mode {
        WasapiMode::Shared => seq![ShareModeChoice::Shared],
        WasapiMode::Exclusive | WasapiMode::Auto => seq![ShareModeChoice::Exclusive, ShareModeChoice::Shared],
    }
}

/// Every (sharing mode, format) pair tried when opening the device, in order:
/// each sharing mode of the setting, first with the requested format and then
/// with the other one.
pub open spec fn spec_init_attempts(mode: WasapiMode, requested: SampleFormat) -> Seq<(ShareModeChoice, WasapiSampleFormat)> {
    let modes = spec_share_mode_attempts(mode);
    let first = spec_from_requested(requested);
    Seq::new(2 * modes.len(), |i: int| (modes[i / 2], if i % 2 == 0 { first } else { spec_alternate(first) }))
}

/// The (sharing mode, format) pairs to try for a mode setting and request.
pub fn init_attempts(mode: WasapiMode, requested: SampleFormat) -> (r: Vec<(ShareModeChoice, WasapiSampleFormat)>)
    ensures
        r@ == spec_init_attempts(mode, requested),
{
    let first = WasapiSampleFormat::from_requested(requested);
    let second = first.alternate();
    let mut r: Vec<(ShareModeChoice, WasapiSampleFormat)> = Vec::new();
    match mode {
        WasapiMode::Shared => {
            r.push((ShareModeChoice::Shared, first));
            r.push((ShareModeChoice::Shared, second));
        },
        WasapiMode::Exclusive | WasapiMode::Auto => {
            r.push((ShareModeChoice::Exclusive, first));
            r.push((ShareModeChoice::Exclusive, second));
            r.push((ShareModeChoice::Shared, first));
            r.push((ShareModeChoice::Shared, second));
        },
    }
    assert(r@ =~= spec_init_attempts(mode, requested));
    r
}

/// How an audio client was set up.
#[derive(Clone, Copy, Debug, PartialEq, Eq, Structural)]
pub struct ClientInitResult {
    /// Frames in the device buffer.
    pub buffer_frames: u32,
    /// Sharing mode that was accepted.
    pub share_mode: ShareModeChoice,
    /// Sample format that was accepted.
    pub sample_format: WasapiSampleFormat,
}

/// `r` is what trying `init` on `attempts` in turn gives when the first `n`
/// attempts failed: the setup of attempt `n`, or, when all failed, the error
/// of the last one.
pub open spec fn initialized_in_order<F: Fn(ShareModeChoice, WasapiSampleFormat) -> Result<u32>>(
    attempts: Seq<(ShareModeChoice, WasapiSampleFormat)>,
    init: F,
    n: int,
    r: Result<ClientInitResult>,
) -> bool {
    &&& 0 <= n <= attempts.len()
    &&& forall|j: int|
        #![trigger attempts[j]]
        0 <= j < n ==> exists|e: AudioError|
            init.ensures((attempts[j].0, attempts[j].1), Err::<u32, AudioError>(e))
    &&& n < attempts.len() ==> (r matches Ok(c) && c.share_mode == attempts[n].0
        && c.sample_format == attempts[n].1 && init.ensures(
        (attempts[n].0, attempts[n].1),
        Ok::<u32, AudioError>(c.buffer_frames),
    ))
    &&& n == attempts.len() && n > 0 ==> (r matches Err(e) && init.ensures(
        (attempts[n - 1].0, attempts[n - 1].1),
        Err::<u32, AudioError>(e),
    ))
}

/// The calls into `init` that trying `attempts` in turn may make: a pair is
/// tried only once every pair before it was refused.
pub open spec fn attempts_ready<F: Fn(ShareModeChoice, WasapiSampleFormat) -> Result<u32>>(
    attempts: Seq<(ShareModeChoice, WasapiSampleFormat)>,
    init: F,
) -> bool {
    forall|n: int|
        0 <= n < attempts.len() && (forall|j: int|
            #![trigger attempts[j]]
            0 <= j < n ==> exists|e: AudioError|
                init.ensures((attempts[j].0, attempts[j].1), Err::<u32, AudioError>(e)))
            ==> #[trigger] init.requires((attempts[n].0, attempts[n].1))
}

/// Open the device with the first (sharing mode, format) pair that `init`
/// accepts, trying the pairs of `init_attempts` in order. When every pair is
/// refused, the error of the last try is returned. A pair is tried only
/// after every pair before it was refused, so nothing is tried after the
/// first success.
pub fn initialize_audio_client<F>(mode: WasapiMode, requested: SampleFormat, init: F) -> (r: Result<ClientInitResult>)
    where
        F: Fn(ShareModeChoice, WasapiSampleFormat) -> Result<u32>,
    requires
        attempts_ready(spec_init_attempts(mode, requested), init),
    ensures
        exists|n: int| initialized_in_order(spec_init_attempts(mode, requested), init, n, r),
{
    let attempts = init_attempts(mode, requested);
    let mut last_error = AudioError::BackendFailure { code: -1 };
    let mut i: usize = 0;
    while i < attempts.len()
        invariant
            attempts@ == spec_init_attempts(mode, requested),
            attempts@.len() >= 2,
            0 <= i <= attempts@.len(),
            attempts_ready(spec_init_attempts(mode, requested), init),
            forall|j: int|
                #![trigger attempts@[j]]
                0 <= j < i ==> exists|e: AudioError|
                    init.ensures((attempts@[j].0, attempts@[j].1), Err::<u32, AudioError>(e)),
            i > 0 ==> init.ensures(
                (attempts@[i - 1].0, attempts@[i - 1].1),
                Err::<u32, AudioError>(last_error),
            ),
        decreases attempts@.len() - i,
    {
        let (share_mode, sample_format) = attempts[i];
        match init(share_mode, sample_format) {
            Ok(buffer_frames) => {
                let r = Ok(ClientInitResult { buffer_frames, share_mode, sample_format });
                assert(initialized_in_order(attempts@, init, i as int, r));
                return r;
            },
            Err(err) => {
                last_error = err;
            },
        }
        i = i + 1;
    }
    let r = Err(last_error);
    assert(initialized_in_order(attempts@, init, attempts@.len() as int, r));
    r
}

/// A duration of `frames` frames at `sample_rate_hz` in 100-nanosecond units,
/// at least one unit; zero when the rate is zero.
pub open spec fn spec_frames_to_hns(frames: u32, sample_rate_hz: u32) -> i64 {
    if sample_rate_hz == 0 {
        0
    } else if (frames * 10_000_000) / (sample_rate_hz as int) < 1 {
        1
    } else {
        ((frames * 10_000_000) / (sample_rate_hz as int)) as i64
    }
}

/// Convert frames at a sample rate to 100-nanosecond units.
pub fn frames_to_hns(frames: u32, sample_rate_hz: u32) -> (r: i64)
    ensures
        r == spec_frames_to_hns(frames, sample_rate_hz),
{
    if sample_rate_hz == 0 {
        return 0;
    }
    let product: i64 = (frames as i64) * 10_000_000;
    let quotient: i64 = product / (sample_rate_hz as i64);
    assert(0 <= quotient <= product) by (nonlinear_arith)
        requires
            quotient == product / (sample_rate_hz as i64),
            sample_rate_hz >= 1,
            product >= 0,
    ;
    if quotient < 1 {
        1
    } else {
        quotient
    }
}

/// The buffer duration and period (in 100-nanosecond units) asked for in a
/// sharing mode, from the callback period `period_hns`: shared mode asks for
/// four periods (at least 2 ms) and lets the engine pick the period; exclusive
/// mode asks for one period of each.
pub open spec fn spec_client_durations(mode: ShareModeChoice, period_hns: i64) -> (i64, i64) {
    match mode {
        ShareModeChoice::Shared => (if period_hns * 4 < 20_000 { 20_000 } else { (period_hns * 4) as i64 }, 0),
        ShareModeChoice::Exclusive => (period_hns, period_hns),
    }
}

/// The callback period of a request in 100-nanosecond units: one burst, and at
/// least 1 ms.
pub open spec fn spec_period_hns(config: StreamConfig) -> i64 {
    let p = spec_frames_to_hns(config.frames_per_burst.spec_get(), config.sample_rate_hz.spec_get());
    if p < 10_000 { 10_000 } else { p }
}

/// Buffer duration and periodicity to initialize the client with.
pub fn client_durations(config: StreamConfig, mode: ShareModeChoice) -> (r: (i64, i64))
    ensures
        r == spec_client_durations(mode, spec_period_hns(config)),
{
    let sample_rate = config.sample_rate_hz.get();
    let hns = frames_to_hns(config.frames_per_burst.get(), sample_rate);
    let period_hns = if hns < 10_000 { 10_000 } else { hns };
    assert(period_hns <= 0xffff_ffff * 10_000_000i64);
    match mode {
        ShareModeChoice::Shared => {
            let buffer = period_hns * 4;
            (if buffer < 20_000 { 20_000 } else { buffer }, 0)
        },
        ShareModeChoice::Exclusive => (period_hns, period_hns),
    }
}

/// A PCM wave format description.
#[allow(non_snake_case)]
#[derive(Clone, Copy, Debug, PartialEq, Eq, Structural)]
pub struct WaveFormat {
    /// Format tag: integer or float PCM.
    pub wFormatTag: u16,
    /// Channel count.
    pub nChannels: u16,
    /// Frames per second.
    pub nSamplesPerSec: u32,
    /// Bytes per second.
    pub nAvgBytesPerSec: u32,
    /// Bytes per frame.
    pub nBlockAlign: u16,
    /// Bits per sample.
    pub wBitsPerSample: u16,
    /// Size of extra format data; always zero here.
    pub cbSize: u16,
}

/// The wave format of `channels` interleaved channels of `format` at
/// `sample_rate` frames per second. Counts that do not fit a 16-bit field
/// keep their low 16 bits.
pub fn build_wave_format(format: WasapiSampleFormat, channels: u32, sample_rate: u32) -> (r: WaveFormat)
    requires
        sample_rate * channels * spec_bytes_per_sample(format) <= u32::MAX,
        channels * spec_bytes_per_sample(format) <= u32::MAX,
    ensures
        r.wFormatTag == (if format == WasapiSampleFormat::F32 { WAVE_FORMAT_IEEE_FLOAT } else { WAVE_FORMAT_PCM }),
        r.nChannels == channels as u16,
        r.nSamplesPerSec == sample_rate,
        r.nAvgBytesPerSec == sample_rate * channels * spec_bytes_per_sample(format),
        r.nBlockAlign == (channels * spec_bytes_per_sample(format)) as u16,
        r.wBitsPerSample == 8 * spec_bytes_per_sample(format),
        r.cbSize == 0,
{
    let bytes_per_sample = format.bytes_per_sample() as u32;
    let frame_bytes = channels * bytes_per_sample;
    assert(sample_rate * frame_bytes == sample_rate * channels * bytes_per_sample) by (nonlinear_arith)
        requires frame_bytes == channels * bytes_per_sample;
    let block_align = frame_bytes as u16;
    let avg_bytes_per_sec = sample_rate * frame_bytes;
    WaveFormat {
        wFormatTag: format.wave_format_tag(),
        nChannels: channels as u16,
        nSamplesPerSec: sample_rate,
        nAvgBytesPerSec: avg_bytes_per_sec,
        nBlockAlign: block_align,
        wBitsPerSample: format.bits_per_sample(),
        cbSize: 0,
    }
}

/// The code under which a sharing mode is kept for metrics.
pub open spec fn spec_share_mode_code(mode: NegotiatedShareMode) -> u8 {
    match mode {
        NegotiatedShareMode::Shared => NEGOTIATED_SHARED,
        NegotiatedShareMode::Exclusive => NEGOTIATED_EXCLUSIVE,
    }
}

/// The code under which a sample format is kept for metrics.
pub open spec fn spec_sample_format_code(format: NegotiatedSampleFormat) -> u8 {
    match format {
        NegotiatedSampleFormat::F32 => NEGOTIATED_F32,
        NegotiatedSampleFormat::I16 => NEGOTIATED_I16,
    }
}

/// The sharing mode a stored code stands for, if any.
pub open spec fn spec_decode_share_mode(code: u8) -> Option<NegotiatedShareMode> {
    if code == NEGOTIATED_SHARED {
        Some(NegotiatedShareMode::Shared)
    } else if code == NEGOTIATED_EXCLUSIVE {
        Some(NegotiatedShareMode::Exclusive)
    } else {
        None
    }
}

/// The sample format a stored code stands for, if any.
pub open spec fn spec_decode_sample_format(code: u8) -> Option<NegotiatedSampleFormat> {
    if code == NEGOTIATED_F32 {
        Some(NegotiatedSampleFormat::F32)
    } else if code == NEGOTIATED_I16 {
        Some(NegotiatedSampleFormat::I16)
    } else {
        None
    }
}

/// Store a negotiated sharing mode as a code.
pub fn share_mode_code(mode: NegotiatedShareMode) -> (r: u8)
    ensures
        r == spec_share_mode_code(mode),
{
    match mode {
        NegotiatedShareMode::Shared => NEGOTIATED_SHARED,
        NegotiatedShareMode::Exclusive => NEGOTIATED_EXCLUSIVE,
    }
}

/// Store a negotiated sample format as a code.
pub fn sample_format_code(format: NegotiatedSampleFormat) -> (r: u8)
    ensures
        r == spec_sample_format_code(format),
{
    match format {
        NegotiatedSampleFormat::F32 => NEGOTIATED_F32,
        NegotiatedSampleFormat::I16 => NEGOTIATED_I16,
    }
}

/// Read a stored sharing mode code.
pub fn decode_share_mode(code: u8) -> (r: Option<NegotiatedShareMode>)
    ensures
        r == spec_decode_share_mode(code),
{
    if code == NEGOTIATED_SHARED {
        Some(NegotiatedShareMode::Shared)
    } else if code == NEGOTIATED_EXCLUSIVE {
        Some(NegotiatedShareMode::Exclusive)
    } else {
        None
    }
}

/// Read a stored sample format code.
pub fn decode_sample_format(code: u8) -> (r: Option<NegotiatedSampleFormat>)
    ensures
        r == spec_decode_sample_format(code),
{
    if code == NEGOTIATED_F32 {
        Some(NegotiatedSampleFormat::F32)
    } else if code == NEGOTIATED_I16 {
        Some(NegotiatedSampleFormat::I16)
    } else {
        None
    }
}

/// A stored negotiated value reads back as what was stored, and the code of
/// "not known yet" reads back as nothing.
pub proof fn lemma_negotiated_codes_roundtrip(mode: NegotiatedShareMode, format: NegotiatedSampleFormat)
    ensures
        spec_decode_share_mode(spec_share_mode_code(mode)) == Some(mode),
        spec_decode_sample_format(spec_sample_format_code(format)) == Some(format),
        spec_decode_share_mode(NEGOTIATED_UNKNOWN) is None,
        spec_decode_sample_format(NEGOTIATED_UNKNOWN) is None,
{
}

/// The metrics of a WASAPI stream in `direction` from its counters: the frames
/// moved, the last padding (as latency, negatives read as zero), the last
/// callback time (zero meaning none yet) and the stored negotiated codes.
pub open spec fn spec_stream_metrics(
    frames_processed: i64,
    last_padding_frames: i64,
    callback_time_ns: u64,
    share_mode_code: u8,
    sample_format_code: u8,
    direction: Direction,
    sample_rate_hz: u32,
) -> StreamMetrics {
    let padding = if last_padding_frames < 0 { 0 } else { last_padding_frames };
    let latency_frames: Option<u32> = if padding <= u32::MAX { Some(padding as u32) } else { None };
    StreamMetrics {
        xrun_count: 0,
        frames_written: if direction == Direction::Output { Some(frames_processed) } else { None },
        frames_read: if direction == Direction::Input { Some(frames_processed) } else { None },
        timing: StreamTiming {
            callback_time_ns: if callback_time_ns == 0 { None } else { Some(callback_time_ns) },
            backend_time_ns: None,
            frame_position: None,
            estimated_latency_frames: latency_frames,
            estimated_latency_ns: match latency_frames {
                Some(f) => Some(spec_frames_to_ns(f, sample_rate_hz) as u64),
                None => None,
            },
            negotiated_share_mode: spec_decode_share_mode(share_mode_code),
            negotiated_sample_format: spec_decode_sample_format(sample_format_code),
        },
    }
}

/// Metrics of a WASAPI stream from its counters.
pub fn stream_metrics(
    frames_processed: i64,
    last_padding_frames: i64,
    callback_time_ns: u64,
    share_mode_code: u8,
    sample_format_code: u8,
    direction: Direction,
    sample_rate_hz: u32,
) -> (r: StreamMetrics)
    ensures
        r == spec_stream_metrics(
            frames_processed,
            last_padding_frames,
            callback_time_ns,
            share_mode_code,
            sample_format_code,
            direction,
            sample_rate_hz,
        ),
{
    let padding = if last_padding_frames < 0 { 0 } else { last_padding_frames };
    let latency_frames: Option<u32> = if padding <= u32::MAX as i64 {
        Some(padding as u32)
    } else {
        None
    };
    let latency_ns: Option<u64> = match latency_frames {
        Some(f) => Some(frames_to_ns(f, sample_rate_hz)),
        None => None,
    };
    StreamMetrics {
        xrun_count: 0,
        frames_written: match direction {
            Direction::Output => Some(frames_processed),
            Direction::Input => None,
        },
        frames_read: match direction {
            Direction::Output => None,
            Direction::Input => Some(frames_processed),
        },
        timing: StreamTiming {
            callback_time_ns: if callback_time_ns == 0 { None } else { Some(callback_time_ns) },
            backend_time_ns: None,
            frame_position: None,
            estimated_latency_frames: latency_frames,
            estimated_latency_ns: latency_ns,
            negotiated_share_mode: decode_share_mode(share_mode_code),
            negotiated_sample_format: decode_sample_format(sample_format_code),
        },
    }
}

/// The frames a render pass may write and the padding to report: in exclusive
/// mode the whole buffer with no padding; in shared mode the part of the
/// buffer the engine has not queued yet, with the engine's queued frames
/// (`current_padding`, only read in shared mode) as padding.
pub fn render_frames_available(share_mode: ShareModeChoice, buffer_frames: u32, current_padding: u32) -> (r: (u32, i64))
    ensures
        share_mode == ShareModeChoice::Exclusive ==> r == (buffer_frames, 0i64),
        share_mode == ShareModeChoice::Shared ==> r == ((if current_padding > buffer_frames { 0 } else { (buffer_frames - current_padding) as u32 }), current_padding as i64),
{
    match share_mode {
        ShareModeChoice::Exclusive => (buffer_frames, 0),
        ShareModeChoice::Shared => (buffer_frames.saturating_sub(current_padding), current_padding as i64),
    }
}

/// Where the samples handed to a capture callback come from.
#[derive(Clone, Copy, Debug, PartialEq, Eq, Structural)]
pub enum CaptureSource {
    /// The packet is flagged silent: its data is not read, and the callback
    /// gets the program's scratch buffer at the packet's length.
    Silence,
    /// The packet has no data: an empty buffer.
    Empty,
    /// The packet's `f32` samples as they are.
    Direct,
    /// The packet's `i16` samples converted to `f32`.
    Converted,
}

/// How a captured packet is handed to the callback: silence wins over a
/// missing buffer, which wins over the data in its format.
pub fn capture_source(silent: bool, data_present: bool, format: WasapiSampleFormat) -> (r: CaptureSource)
    ensures
        silent ==> r == CaptureSource::Silence,
        !silent && !data_present ==> r == CaptureSource::Empty,
        !silent && data_present && format == WasapiSampleFormat::F32 ==> r == CaptureSource::Direct,
        !silent && data_present && format == WasapiSampleFormat::I16 ==> r == CaptureSource::Converted,
{
    if silent {
        CaptureSource::Silence
    } else if !data_present {
        CaptureSource::Empty
    } else {
        match format {
            WasapiSampleFormat::F32 => CaptureSource::Direct,
            WasapiSampleFormat::I16 => CaptureSource::Converted,
        }
    }
}

/// The pairs tried when opening the device: for the `Exclusive` and `Auto`
/// settings, exclusive mode with the requested format, then with the other
/// format, then shared mode with the requested and with the other format;
/// for `Shared`, shared mode with the requested and then the other format.
pub proof fn lemma_init_attempts_order(mode: WasapiMode, requested: SampleFormat)
    ensures
        ({
            let a = spec_init_attempts(mode, requested);
            let first = match requested {
                SampleFormat::F32 => WasapiSampleFormat::F32,
                SampleFormat::I16 => WasapiSampleFormat::I16,
            };
            let other = match requested {
                SampleFormat::F32 => WasapiSampleFormat::I16,
                SampleFormat::I16 => WasapiSampleFormat::F32,
            };
            &&& mode != WasapiMode::Shared ==> a =~= seq![
                (ShareModeChoice::Exclusive, first),
                (ShareModeChoice::Exclusive, other),
                (ShareModeChoice::Shared, first),
                (ShareModeChoice::Shared, other),
            ]
            &&& mode == WasapiMode::Shared ==> a =~= seq![
                (ShareModeChoice::Shared, first),
                (ShareModeChoice::Shared, other),
            ]
        }),
{
    let a = spec_init_attempts(mode, requested);
    if mode == WasapiMode::Shared {
        assert(a.len() == 2);
    } else {
        assert(a.len() == 4);
    }
}

/// The `Exclusive` setting tries exactly what `Auto` tries, exclusive mode
/// first.
pub proof fn lemma_exclusive_tries_as_auto(requested: SampleFormat)
    ensures
        spec_init_attempts(WasapiMode::Exclusive, requested) == spec_init_attempts(WasapiMode::Auto, requested),
        spec_init_attempts(WasapiMode::Exclusive, requested)[0].0 == ShareModeChoice::Exclusive,
{
    lemma_init_attempts_order(WasapiMode::Exclusive, requested);
    lemma_init_attempts_order(WasapiMode::Auto, requested);
}

/// A WASAPI stream reports its processed frames on the side of its
/// direction, counts no xruns, takes the last padding as its latency (a
/// negative padding reads as none), with the duration agreeing at the rate.
pub proof fn lemma_metrics_by_direction_and_padding(
    frames_processed: i64,
    last_padding_frames: i64,
    callback_time_ns: u64,
    share_mode_code: u8,
    sample_format_code: u8,
    direction: Direction,
    sample_rate_hz: u32,
)
    ensures
        ({
            let m = spec_stream_metrics(
                frames_processed,
                last_padding_frames,
                callback_time_ns,
                share_mode_code,
                sample_format_code,
                direction,
                sample_rate_hz,
            );
            &&& direction == Direction::Output ==> m.frames_written == Some(frames_processed) && m.frames_read is None
            &&& direction == Direction::Input ==> m.frames_read == Some(frames_processed) && m.frames_written is None
            &&& m.xrun_count == 0
            &&& 0 <= last_padding_frames <= u32::MAX ==> m.timing.estimated_latency_frames == Some(
                last_padding_frames as u32,
            )
            &&& last_padding_frames < 0 ==> m.timing.estimated_latency_frames == Some(0u32)
            &&& latency_consistent(m.timing, sample_rate_hz)
            &&& (callback_time_ns == 0 <==> m.timing.callback_time_ns is None)
            &&& share_mode_code == NEGOTIATED_SHARED ==> m.timing.negotiated_share_mode == Some(
                NegotiatedShareMode::Shared,
            )
            &&& share_mode_code == NEGOTIATED_EXCLUSIVE ==> m.timing.negotiated_share_mode == Some(
                NegotiatedShareMode::Exclusive,
            )
            &&& share_mode_code == NEGOTIATED_UNKNOWN ==> m.timing.negotiated_share_mode is None
            &&& sample_format_code == NEGOTIATED_F32 ==> m.timing.negotiated_sample_format == Some(
                NegotiatedSampleFormat::F32,
            )
            &&& sample_format_code == NEGOTIATED_I16 ==> m.timing.negotiated_sample_format == Some(
                NegotiatedSampleFormat::I16,
            )
            &&& sample_format_code == NEGOTIATED_UNKNOWN ==> m.timing.negotiated_sample_format is None
        }),
{
    let m = spec_stream_metrics(
        frames_processed,
        last_padding_frames,
        callback_time_ns,
        share_mode_code,
        sample_format_code,
        direction,
        sample_rate_hz,
    );
    if let Some(f) = m.timing.estimated_latency_frames {
        lemma_frames_to_ns_latency(f, sample_rate_hz);
    }
}

/// The device format follows the request, its alternate is the other format,
/// and a sample is four bytes as `f32` and two as `i16`.
pub proof fn lemma_formats_follow_the_request(requested: SampleFormat)
    ensures
        requested == SampleFormat::F32 ==> spec_from_requested(requested) == WasapiSampleFormat::F32,
        requested == SampleFormat::I16 ==> spec_from_requested(requested) == WasapiSampleFormat::I16,
        spec_alternate(WasapiSampleFormat::F32) == WasapiSampleFormat::I16,
        spec_alternate(WasapiSampleFormat::I16) == WasapiSampleFormat::F32,
        spec_bytes_per_sample(WasapiSampleFormat::F32) == 4,
        spec_bytes_per_sample(WasapiSampleFormat::I16) == 2,
{
}

/// A duration in 100-nanosecond units is rounded down and at least one unit:
/// at a nonzero rate the answer `h` is `1` when `frames * 10^7 < rate`, and
/// otherwise the one with `h * rate <= frames * 10^7 < (h + 1) * rate`.
pub proof fn lemma_frames_to_hns_rounds_down(frames: u32, sample_rate_hz: u32)
    ensures
        sample_rate_hz == 0 ==> spec_frames_to_hns(frames, sample_rate_hz) == 0,
        sample_rate_hz > 0 ==> spec_frames_to_hns(frames, sample_rate_hz) >= 1,
        sample_rate_hz > 0 && frames * 10_000_000 < sample_rate_hz ==> spec_frames_to_hns(frames, sample_rate_hz) == 1,
        sample_rate_hz > 0 && frames * 10_000_000 >= sample_rate_hz ==> ({
            let h = spec_frames_to_hns(frames, sample_rate_hz);
            h * sample_rate_hz <= frames * 10_000_000 < (h + 1) * sample_rate_hz
        }),
{
    if sample_rate_hz > 0 {
        let x: int = frames * 10_000_000;
        let q: int = x / (sample_rate_hz as int);
        assert(q * sample_rate_hz <= x < (q + 1) * sample_rate_hz && 0 <= q <= x) by (nonlinear_arith)
            requires
                q == x / (sample_rate_hz as int),
                sample_rate_hz > 0,
                x >= 0,
        ;
        assert(x <= 0xffff_ffff * 10_000_000) by (nonlinear_arith)
            requires
                x == frames * 10_000_000,
                frames <= 0xffff_ffff,
        ;
        if x < sample_rate_hz {
            assert(q == 0) by (nonlinear_arith)
                requires
                    q == x / (sample_rate_hz as int),
                    sample_rate_hz > 0,
                    0 <= x < sample_rate_hz,
            ;
        } else {
            assert(q >= 1) by (nonlinear_arith)
                requires
                    q == x / (sample_rate_hz as int),
                    sample_rate_hz > 0,
                    x >= sample_rate_hz,
            ;
        }
    }
}

/// The callback period is one burst and at least 1 ms; shared mode asks for a
/// buffer of four periods (at least 2 ms) and leaves the period to the
/// engine, exclusive mode asks for one period of each.
pub proof fn lemma_client_durations(config: StreamConfig, period_hns: i64)
    ensures
        spec_period_hns(config) >= 10_000,
        spec_period_hns(config) >= spec_frames_to_hns(config.frames_per_burst.spec_get(), config.sample_rate_hz.spec_get()),
        0 <= period_hns <= i64::MAX / 4 ==> spec_client_durations(ShareModeChoice::Shared, period_hns).0 == (if 4
            * period_hns < 20_000 {
            20_000
        } else {
            4 * period_hns
        }),
        spec_client_durations(ShareModeChoice::Shared, period_hns).1 == 0,
        spec_client_durations(ShareModeChoice::Exclusive, period_hns) == (period_hns, period_hns),
{
}

/// The negotiated codes: shared and exclusive, `f32` and `i16` each have
/// their own nonzero code, and the unknown code reads as nothing.
pub proof fn lemma_negotiated_codes_distinct(mode: NegotiatedShareMode, format: NegotiatedSampleFormat)
    ensures
        spec_share_mode_code(mode) != NEGOTIATED_UNKNOWN,
        spec_sample_format_code(format) != NEGOTIATED_UNKNOWN,
        spec_share_mode_code(NegotiatedShareMode::Shared) != spec_share_mode_code(NegotiatedShareMode::Exclusive),
        spec_sample_format_code(NegotiatedSampleFormat::F32) != spec_sample_format_code(NegotiatedSampleFormat::I16),
        spec_decode_share_mode(NEGOTIATED_UNKNOWN) is None,
        spec_decode_sample_format(NEGOTIATED_UNKNOWN) is None,
{
}

/// The mode setting is read without regard to ASCII case: a text selects the
/// same mode as its lowercase, and only `shared` and `exclusive` (in any
/// case) select something other than `Auto`.
pub proof fn lemma_mode_setting_is_case_blind(text: Seq<char>)
    ensures
        spec_wasapi_mode_from_text(text) == spec_wasapi_mode_from_text(ascii_lowercase(text)),
        spec_wasapi_mode_from_text(text) == WasapiMode::Shared <==> ascii_lowercase(text) == "shared"@,
        (spec_wasapi_mode_from_text(text) == WasapiMode::Exclusive) ==> ascii_lowercase(text) == "exclusive"@,
{
    crate::backend::lemma_ascii_lowercase_idempotent(text);
}

/// A WASAPI stream is created after probing the default endpoint of the
/// request's own direction: a failed probe gives its error, a successful one
/// a new stopped stream with the request's settings.
pub proof fn lemma_stream_follows_endpoint_probe<E: FnOnce(Direction) -> Result<()>>(
    config: StreamConfig,
    probe_endpoint: E,
    r: Result<Stream>,
)
    ensures
        create_outcome(config, probe_endpoint, r) ==> exists|probed: Result<()>|
            {
                &&& probe_endpoint.ensures((config.direction,), probed)
                &&& probed matches Err(e) ==> r == Err::<Stream, AudioError>(e)
                &&& probed is Ok ==> (r matches Ok(s) && s@.config == config && s@.state == StreamState::Stopped
                    && !s@.render_callback_set && !s@.capture_callback_set)
            },
{
    if create_outcome(config, probe_endpoint, r) {
        let probed = choose|probed: Result<()>|
            #[trigger] probe_endpoint.ensures((config.direction,), probed) && outcome_is(r, probed_model(config, probed));
        assert(probe_endpoint.ensures((config.direction,), probed));
    }
}

} // verus!
