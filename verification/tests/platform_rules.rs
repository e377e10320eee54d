use std::cell::RefCell;
use trombone::audio_core::config::{
    Direction, NonZeroU32, PerformanceMode, SampleFormat, SharingMode, StreamConfig,
};
use trombone::audio_core::error::AudioError;
use trombone::audio_core::metrics::{
    frames_to_ns, monotonic_time_ns, unix_time_ns, NegotiatedSampleFormat, NegotiatedShareMode, StreamMetrics,
};
use trombone::backend::android::{aaudio, opensl_es};
use trombone::backend::linux::{alsa, pipewire, worker_start_outcome, WorkerReady};
use trombone::backend::linux::pipewire::PipeWireError as E;
use trombone::backend::windows::wasapi;
use trombone::backend::windows::wasapi::{ShareModeChoice as M, WasapiSampleFormat as F};
use trombone::backend::linux::alsa::{ReadStep, TransferOutcome as T, WaitStep, WriteStep};

#[test]
fn frames_to_ns_exact_values() {
    assert_eq!(frames_to_ns(192, 48_000), 4_000_000);
    assert_eq!(frames_to_ns(1, 3), 333_333_333);
    assert_eq!(frames_to_ns(u32::MAX, 1), 4_294_967_295_000_000_000);
    assert_eq!(frames_to_ns(64, 0), 0);
}

#[test]
fn unix_time_ns_saturates_and_defaults() {
    assert_eq!(unix_time_ns(None), 0);
    assert_eq!(unix_time_ns(Some(12)), 12);
    assert_eq!(unix_time_ns(Some(u128::from(u64::MAX) + 5)), u64::MAX);
}

#[test]
fn nonzero_rejects_zero() {
    assert!(NonZeroU32::new(0).is_none());
    assert_eq!(NonZeroU32::new(7).map(|n| n.get()), Some(7));
}

#[test]
fn default_metrics_are_empty() {
    let m = StreamMetrics::default();
    assert_eq!(m.xrun_count, 0);
    assert_eq!(m.frames_written, None);
    assert_eq!(m.timing.estimated_latency_ns, None);
}

#[test]
fn aaudio_codes_and_results() {
    assert_eq!(aaudio::check_result(0), Ok(()));
    assert_eq!(aaudio::check_result(-889), Err(AudioError::BackendFailure { code: -889 }));
    for f in [SampleFormat::F32, SampleFormat::I16] {
        assert_eq!(aaudio::sample_format_from_aaudio(aaudio::sample_format_to_aaudio(f)), Some(f));
    }
    assert_eq!(aaudio::sample_format_from_aaudio(7), None);
    assert_eq!(aaudio::direction_to_aaudio(Direction::Input), 1);
    assert_eq!(aaudio::performance_mode_to_aaudio(PerformanceMode::LowLatency), 12);
    assert_eq!(aaudio::performance_mode_to_aaudio(PerformanceMode::NoPreference), 10);
    assert_eq!(aaudio::sharing_mode_to_aaudio(SharingMode::Exclusive), 0);
}

#[test]
fn aaudio_negotiated_config() {
    let requested = StreamConfig::default();
    let c = aaudio::negotiated_config_from_stream(44_100, 1, 96, 1, requested).unwrap();
    assert_eq!(c.sample_rate_hz.get(), 44_100);
    assert_eq!(c.channels.get(), 1);
    assert_eq!(c.frames_per_burst.get(), 96);
    assert_eq!(c.format, SampleFormat::I16);
    assert_eq!(c.direction, requested.direction);
    assert_eq!(
        aaudio::negotiated_config_from_stream(0, 1, 96, 2, requested),
        Err(AudioError::BackendFailure { code: -1 })
    );
    assert_eq!(
        aaudio::negotiated_config_from_stream(48_000, 2, 96, 5, requested),
        Err(AudioError::UnsupportedConfig)
    );
}

#[test]
fn aaudio_metrics_from_counters() {
    let m = aaudio::stream_metrics(-3, 1_000, 904, 0, 0, 654, 321, Direction::Output, 48_000);
    assert_eq!(m.xrun_count, 0);
    assert_eq!(m.frames_written, Some(1_000));
    assert_eq!(m.frames_read, Some(904));
    assert_eq!(m.timing.callback_time_ns, None);
    assert_eq!(m.timing.backend_time_ns, Some(321));
    assert_eq!(m.timing.frame_position, Some(654));
    assert_eq!(m.timing.estimated_latency_frames, Some(96));
    assert_eq!(m.timing.estimated_latency_ns, Some(2_000_000));
    let input = aaudio::stream_metrics(7, 1_000, 904, 999, -1, 654, 321, Direction::Input, 48_000);
    assert_eq!(input.xrun_count, 7);
    assert_eq!(input.timing.callback_time_ns, Some(999));
    assert_eq!(input.timing.backend_time_ns, None);
    assert_eq!(input.timing.estimated_latency_frames, None);
    let saturated = aaudio::stream_metrics(0, i64::MAX, -10, 1, 0, 0, 0, Direction::Output, 48_000);
    assert_eq!(saturated.timing.estimated_latency_frames, None);
}

#[test]
fn aaudio_callback_sample_count() {
    assert_eq!(aaudio::callback_sample_count(true, 4, 2), Some(8));
    assert_eq!(aaudio::callback_sample_count(true, 0, 2), None);
    assert_eq!(aaudio::callback_sample_count(false, 4, 2), None);
}

#[test]
fn opensl_checks_and_formats() {
    assert_eq!(opensl_es::check_result(0), Ok(()));
    assert_eq!(opensl_es::check_result(2), Err(AudioError::BackendFailure { code: 2 }));
    assert_eq!(opensl_es::check_object(true), Err(AudioError::BackendFailure { code: -21 }));
    assert_eq!(opensl_es::check_engine(true), Err(AudioError::BackendFailure { code: -22 }));
    assert_eq!(opensl_es::check_play(true), Err(AudioError::BackendFailure { code: -23 }));
    assert_eq!(opensl_es::check_queue(true), Err(AudioError::BackendFailure { code: -24 }));
    assert_eq!(opensl_es::check_record(true), Err(AudioError::BackendFailure { code: -25 }));
    assert_eq!(opensl_es::check_record(false), Ok(()));
    assert_eq!(opensl_es::channel_mask(1), 1);
    assert_eq!(opensl_es::channel_mask(2), 3);
    let pcm = opensl_es::pcm_format(2, 48_000);
    assert_eq!(pcm.samplesPerSec, 48_000_000);
    assert_eq!(pcm.channelMask, 3);
    assert_eq!(pcm.bitsPerSample, 16);
    assert_eq!(opensl_es::buffer_queue_locator().numBuffers, 2);
}

#[test]
fn opensl_fallback_candidates_order() {
    let config = StreamConfig::default();
    let c = opensl_es::fallback_candidates(config);
    assert_eq!(c[0], config);
    assert_eq!((c[1].channels.get(), c[1].sample_rate_hz.get()), (1, 48_000));
    assert_eq!((c[2].channels.get(), c[2].sample_rate_hz.get()), (2, 44_100));
    assert_eq!((c[3].channels.get(), c[3].sample_rate_hz.get()), (1, 44_100));
}

#[test]
fn opensl_fallback_moves_on_only_for_parameter_errors() {
    let tried = RefCell::new(Vec::new());
    let r = opensl_es::create_with_fallback(StreamConfig::default(), |c: StreamConfig| {
        tried.borrow_mut().push((c.channels.get(), c.sample_rate_hz.get()));
        if c.sample_rate_hz.get() == 44_100 {
            Ok(c.channels.get())
        } else {
            Err(AudioError::BackendFailure { code: 2 })
        }
    });
    assert_eq!(r, Ok(2));
    assert_eq!(*tried.borrow(), vec![(2, 48_000), (1, 48_000), (2, 44_100)]);

    let tried = RefCell::new(0);
    let r: Result<u32, AudioError> = opensl_es::create_with_fallback(StreamConfig::default(), |_c| {
        *tried.borrow_mut() += 1;
        Err(AudioError::BackendFailure { code: -9 })
    });
    assert_eq!(r, Err(AudioError::BackendFailure { code: -9 }));
    assert_eq!(*tried.borrow(), 1);

    let r: Result<u32, AudioError> = opensl_es::create_with_fallback(StreamConfig::default(), |_c| {
        Err(AudioError::BackendFailure { code: 2 })
    });
    assert_eq!(r, Err(AudioError::BackendFailure { code: 2 }));
}

#[test]
fn opensl_queue_bookkeeping() {
    let mut q = opensl_es::QueueState::new(192, 48_000);
    assert_eq!(q.take_buffer_index(), 0);
    q.buffer_enqueued();
    q.burst_transferred();
    assert_eq!(q.take_buffer_index(), 1);
    q.buffer_enqueued();
    q.burst_transferred();
    assert_eq!(q.take_buffer_index(), 0);
    q.buffer_returned();
    q.callback_at(55);
    let m = opensl_es::queue_metrics(&q, Direction::Output);
    assert_eq!(m.frames_written, Some(384));
    assert_eq!(m.frames_read, None);
    assert_eq!(m.timing.estimated_latency_frames, Some(192));
    assert_eq!(m.timing.estimated_latency_ns, Some(4_000_000));
    assert_eq!(m.timing.callback_time_ns, Some(55));
    q.buffer_returned();
    q.buffer_returned();
    assert_eq!(q.queue_depth, 0);
    q.record_xrun();
    q.record_recovery();
    q.queue_reset();
    assert_eq!((q.xrun_count, q.recovery_count, q.next_buffer), (1, 1, 0));
    let mut wrap = opensl_es::QueueState::new(1, 1);
    wrap.next_buffer = usize::MAX;
    assert_eq!(wrap.take_buffer_index(), 1);
    assert_eq!(wrap.take_buffer_index(), 0);
}

#[test]
fn opensl_stop_reports_first_error() {
    let a = Err(AudioError::BackendFailure { code: 1 });
    let b = Err(AudioError::BackendFailure { code: 2 });
    assert_eq!(opensl_es::stop_outcome(a, b), a);
    assert_eq!(opensl_es::stop_outcome(Ok(()), b), b);
    assert_eq!(opensl_es::stop_outcome(Ok(()), Ok(())), Ok(()));
}

#[test]
fn wasapi_mode_setting_is_trimmed_and_case_blind() {
    assert_eq!(wasapi::parse_wasapi_mode(None), wasapi::WasapiMode::Auto);
    assert_eq!(wasapi::parse_wasapi_mode(Some("  Shared\n")), wasapi::WasapiMode::Shared);
    assert_eq!(wasapi::parse_wasapi_mode(Some("EXCLUSIVE")), wasapi::WasapiMode::Exclusive);
    assert_eq!(wasapi::parse_wasapi_mode(Some("share")), wasapi::WasapiMode::Auto);
    assert_eq!(wasapi::wasapi_mode_from_text(" shared"), wasapi::WasapiMode::Auto);
}

#[test]
fn wasapi_attempt_order() {
    assert_eq!(
        wasapi::init_attempts(wasapi::WasapiMode::Auto, SampleFormat::I16),
        vec![(M::Exclusive, F::I16), (M::Exclusive, F::F32), (M::Shared, F::I16), (M::Shared, F::F32)]
    );
    assert_eq!(
        wasapi::init_attempts(wasapi::WasapiMode::Shared, SampleFormat::F32),
        vec![(M::Shared, F::F32), (M::Shared, F::I16)]
    );
}

#[test]
fn wasapi_initialize_takes_first_accepted_pair() {
    let r = wasapi::initialize_audio_client(wasapi::WasapiMode::Exclusive, SampleFormat::F32, |m, f| {
        if m == M::Shared && f == F::I16 {
            Ok(480)
        } else {
            Err(AudioError::BackendFailure { code: -10 })
        }
    });
    assert_eq!(
        r,
        Ok(wasapi::ClientInitResult { buffer_frames: 480, share_mode: M::Shared, sample_format: F::I16 })
    );
    let count = RefCell::new(0);
    let r = wasapi::initialize_audio_client(wasapi::WasapiMode::Shared, SampleFormat::F32, |_m, _f| {
        *count.borrow_mut() += 1;
        Err(AudioError::BackendFailure { code: -(*count.borrow()) })
    });
    assert_eq!(r, Err(AudioError::BackendFailure { code: -2 }));
}

#[test]
fn wasapi_durations_and_wave_format() {
    assert_eq!(wasapi::frames_to_hns(192, 48_000), 40_000);
    assert_eq!(wasapi::frames_to_hns(1, 48_000_000), 1);
    assert_eq!(wasapi::frames_to_hns(5, 0), 0);
    let config = StreamConfig::default();
    assert_eq!(wasapi::client_durations(config, wasapi::ShareModeChoice::Shared), (160_000, 0));
    assert_eq!(wasapi::client_durations(config, wasapi::ShareModeChoice::Exclusive), (40_000, 40_000));
    let w = wasapi::build_wave_format(wasapi::WasapiSampleFormat::I16, 2, 48_000);
    assert_eq!(w.wFormatTag, 1);
    assert_eq!(w.nBlockAlign, 4);
    assert_eq!(w.nAvgBytesPerSec, 192_000);
    assert_eq!(w.wBitsPerSample, 16);
    let f = wasapi::build_wave_format(wasapi::WasapiSampleFormat::F32, 1, 44_100);
    assert_eq!((f.wFormatTag, f.nBlockAlign, f.wBitsPerSample), (3, 4, 32));
}

#[test]
fn wasapi_formats_codes_and_metrics() {
    let f = wasapi::WasapiSampleFormat::F32;
    assert_eq!(f.alternate().alternate(), f);
    assert_eq!(f.bytes_per_sample(), 4);
    assert_eq!(f.label(), "f32");
    assert_eq!(wasapi::ShareModeChoice::Exclusive.label(), "exclusive");
    for mode in [NegotiatedShareMode::Shared, NegotiatedShareMode::Exclusive] {
        assert_eq!(wasapi::decode_share_mode(wasapi::share_mode_code(mode)), Some(mode));
    }
    for format in [NegotiatedSampleFormat::F32, NegotiatedSampleFormat::I16] {
        assert_eq!(wasapi::decode_sample_format(wasapi::sample_format_code(format)), Some(format));
    }
    assert_eq!(wasapi::decode_share_mode(0), None);
    let m = wasapi::stream_metrics(480, 96, 0, 2, 1, Direction::Input, 48_000);
    assert_eq!(m.frames_read, Some(480));
    assert_eq!(m.frames_written, None);
    assert_eq!(m.timing.estimated_latency_ns, Some(2_000_000));
    assert_eq!(m.timing.negotiated_share_mode, Some(NegotiatedShareMode::Exclusive));
    assert_eq!(m.timing.negotiated_sample_format, Some(NegotiatedSampleFormat::F32));
    assert_eq!(m.timing.callback_time_ns, None);
    assert_eq!(
        wasapi::render_frames_available(wasapi::ShareModeChoice::Shared, 480, 500),
        (0, 500)
    );
    assert_eq!(
        wasapi::render_frames_available(wasapi::ShareModeChoice::Exclusive, 480, 500),
        (480, 0)
    );
    assert_eq!(
        wasapi::capture_source(false, true, wasapi::WasapiSampleFormat::I16),
        wasapi::CaptureSource::Converted
    );
    assert_eq!(
        wasapi::capture_source(true, false, wasapi::WasapiSampleFormat::I16),
        wasapi::CaptureSource::Silence
    );
}

#[test]
fn alsa_device_names_in_order() {
    assert_eq!(alsa::device_candidates(Some("  hw:1,0 \t"), Some("mine")), vec!["hw:1,0"]);
    assert_eq!(
        alsa::device_candidates(Some("   "), Some("mine")),
        vec!["mine", "default", "pipewire", "pulse"]
    );
    assert_eq!(alsa::device_candidates(None, None), vec!["default", "pipewire", "pulse"]);
}

#[test]
fn alsa_loop_steps() {
    assert_eq!(alsa::write_step(10, T::Frames(0)), WriteStep::Finished(10));
    assert_eq!(alsa::write_step(10, T::Frames(6)), WriteStep::Continue(16));
    assert_eq!(alsa::write_step(usize::MAX, T::Frames(6)), WriteStep::Continue(usize::MAX));
    assert_eq!(alsa::write_step(10, T::XRun), WriteStep::Recover);
    assert_eq!(
        alsa::write_step(10, T::Failed(-5)),
        WriteStep::Fail(AudioError::BackendFailure { code: -5 })
    );
    assert_eq!(alsa::wait_step(192, T::Frames(200)), WaitStep::Ready);
    assert_eq!(alsa::wait_step(192, T::Frames(100)), WaitStep::Wait);
    assert_eq!(alsa::read_step(T::Frames(192)), ReadStep::Deliver(192));
    assert_eq!(alsa::read_step(T::XRun), ReadStep::Recover);
}

#[test]
fn alsa_requests_and_metrics() {
    assert_eq!(alsa::hw_buffer_request(StreamConfig::default()), (192, 768));
    let m = alsa::stream_metrics(1_000, -4, 77, Direction::Output, 48_000);
    assert_eq!(m.frames_written, Some(1_000));
    assert_eq!(m.frames_read, None);
    assert_eq!(m.timing.estimated_latency_frames, Some(0));
    assert_eq!(m.timing.callback_time_ns, Some(77));
    let big = alsa::stream_metrics(5, i64::from(u32::MAX) + 1, 0, Direction::Input, 48_000);
    assert_eq!(big.timing.estimated_latency_frames, None);
    assert_eq!(big.frames_read, Some(5));
}

#[test]
fn worker_start_outcomes() {
    assert_eq!(worker_start_outcome(WorkerReady::Reported(Ok(()))), Ok(()));
    assert_eq!(
        worker_start_outcome(WorkerReady::Reported(Err(AudioError::BackendFailure { code: -2 }))),
        Err(AudioError::BackendFailure { code: -2 })
    );
    assert_eq!(
        worker_start_outcome(WorkerReady::TimedOut),
        Err(AudioError::BackendFailure { code: -5 })
    );
    assert_eq!(
        worker_start_outcome(WorkerReady::Disconnected),
        Err(AudioError::BackendFailure { code: -6 })
    );
}

#[test]
fn pipewire_probe_and_buffers() {
    assert_eq!(
        pipewire::probe_runtime_support(false, true),
        Err(AudioError::BackendFailure { code: -730 })
    );
    assert_eq!(
        pipewire::probe_runtime_support(true, false),
        Err(AudioError::BackendFailure { code: -731 })
    );
    assert_eq!(pipewire::probe_runtime_support(true, true), Ok(()));
    assert_eq!(pipewire::sample_bytes(SampleFormat::I16), 2);
    assert_eq!(pipewire::frame_stride(2, SampleFormat::F32), 8);
    assert_eq!(pipewire::frames_in_buffer(1_540, 8, 2), Some((192, 384)));
    assert_eq!(pipewire::frames_in_buffer(7, 8, 2), None);
    assert_eq!(pipewire::frames_in_buffer(7, 0, 2), None);
}

#[test]
fn pipewire_errors_and_metrics() {
    assert_eq!(pipewire::map_pw_error(E::CreationFailed), -740);
    assert_eq!(pipewire::map_pw_error(E::NoMemory), -741);
    assert_eq!(pipewire::map_pw_error(E::WrongProxyType), -742);
    assert_eq!(pipewire::map_pw_error(E::SpaError), -743);

    let out = pipewire::stream_metrics(Direction::Output, 480, 9, 0);
    assert_eq!(out.xrun_count, 0);
    assert_eq!(out.frames_written, Some(480));
    assert_eq!(out.frames_read, None);
    assert_eq!(out.timing.callback_time_ns, None);
    assert_eq!(out.timing.estimated_latency_frames, None);

    let input = pipewire::stream_metrics(Direction::Input, 480, 9, 55);
    assert_eq!(input.frames_written, None);
    assert_eq!(input.frames_read, Some(9));
    assert_eq!(input.timing.callback_time_ns, Some(55));
}

#[test]
fn monotonic_stamps_saturate_and_keep_order() {
    assert_eq!(monotonic_time_ns(0), 0);
    assert_eq!(monotonic_time_ns(4_000_000), 4_000_000);
    assert_eq!(monotonic_time_ns(u128::from(u64::MAX) + 1), u64::MAX);
    assert!(monotonic_time_ns(10) <= monotonic_time_ns(11));
}
