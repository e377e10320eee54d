use trombone::audio_core::config::{Direction, SampleFormat, StreamConfig};
use trombone::audio_core::error::AudioError;
use trombone::audio_core::stream::{Stream, StreamState};
use std::cell::Cell;
use trombone::audio_core::config::NonZeroU32;
use trombone::backend::android::{aaudio, opensl_es, AndroidBackend, AndroidBackendKind, AndroidNative};
use trombone::backend::create_stream_auto_with;
use trombone::backend::linux::pipewire::PipeWireClient;
use trombone::backend::linux::{alsa, pipewire, LinuxBackend, LinuxBackendKind, LinuxHost};
use trombone::backend::windows::{wasapi, WindowsBackend, WindowsBackendKind};
use trombone::backend::AudioBackend;

#[test]
fn mod_backend_kind_roundtrips() {
    let auto = LinuxBackend::new(LinuxBackendKind::Auto);
    assert_eq!(auto.kind(), LinuxBackendKind::Auto);

    let alsa = LinuxBackend::new(LinuxBackendKind::Alsa);
    assert_eq!(alsa.kind(), LinuxBackendKind::Alsa);

    let pipewire = LinuxBackend::new(LinuxBackendKind::PipeWire);
    assert_eq!(pipewire.kind(), LinuxBackendKind::PipeWire);
}

#[test]
fn backend_kind_roundtrips() {
    let backend = WindowsBackend::new(WindowsBackendKind::Wasapi);
    assert_eq!(backend.kind(), WindowsBackendKind::Wasapi);
}

#[test]
fn android_backend_kind_roundtrips() {
    for kind in [AndroidBackendKind::Auto, AndroidBackendKind::AAudio, AndroidBackendKind::OpenSLES] {
        assert_eq!(AndroidBackend::new(kind).kind(), kind);
    }
}

#[test]
fn auto_returns_aaudio_when_available() {
    let config = StreamConfig::default();
    let result = create_stream_auto_with(
        config,
        |c| Ok(Stream::new(c)),
        |_c| Err(AudioError::NotImplemented),
    );
    assert!(result.is_ok());
}

#[test]
fn auto_falls_back_to_opensl_when_aaudio_fails() {
    let config = StreamConfig::default();
    let result = create_stream_auto_with(
        config,
        |_c| Err(AudioError::BackendFailure { code: -7 }),
        |c| Ok(Stream::new(c)),
    );
    assert!(result.is_ok());
}

#[test]
fn auto_returns_aaudio_error_when_both_fail() {
    let config = StreamConfig::default();
    let result: Result<Stream, AudioError> = create_stream_auto_with(
        config,
        |_c| Err(AudioError::BackendFailure { code: -11 }),
        |_c| Err(AudioError::NotImplemented),
    );
    match result {
        Ok(_) => panic!("expected error when both backends fail"),
        Err(error) => assert_eq!(error, AudioError::BackendFailure { code: -11 }),
    }
}

#[test]
fn auto_returns_pipewire_when_available() {
    let config = StreamConfig::default();
    let result = create_stream_auto_with(
        config,
        |c| Ok(Stream::new(c)),
        |_c| Err(AudioError::NotImplemented),
    );
    assert!(result.is_ok());
}

#[test]
fn auto_falls_back_to_alsa_when_pipewire_fails() {
    let config = StreamConfig::default();
    let result = create_stream_auto_with(
        config,
        |_c| Err(AudioError::BackendFailure { code: -77 }),
        |c| Ok(Stream::new(c)),
    );
    assert!(result.is_ok());
}

#[test]
fn auto_returns_pipewire_error_when_both_fail() {
    let config = StreamConfig::default();
    let result: Result<Stream, AudioError> = create_stream_auto_with(
        config,
        |_c| Err(AudioError::BackendFailure { code: -88 }),
        |_c| Err(AudioError::NotImplemented),
    );
    match result {
        Ok(_) => panic!("expected error when both linux backends fail"),
        Err(err) => assert_eq!(err, AudioError::BackendFailure { code: -88 }),
    }
}

#[test]
fn auto_does_not_try_second_when_first_succeeds() {
    let mut second_ran = false;
    let result = create_stream_auto_with(
        StreamConfig::default(),
        |c| Ok(Stream::new(c)),
        |c| {
            second_ran = true;
            Ok(Stream::new(c))
        },
    );
    assert!(result.is_ok());
    assert!(!second_ran);
}

fn absent(_c: StreamConfig) -> Result<StreamConfig, AudioError> {
    Err(AudioError::NotImplemented)
}

fn no_endpoint(_d: Direction) -> Result<(), AudioError> {
    Err(AudioError::NotImplemented)
}

fn linux_host() -> LinuxHost {
    LinuxHost { on_linux: true, pipewire: PipeWireClient::Unavailable }
}

fn other_host() -> LinuxHost {
    LinuxHost { on_linux: false, pipewire: PipeWireClient::Unavailable }
}

#[test]
fn backend_auto_can_create_output_stream_on_linux() {
    let backend = LinuxBackend::new(LinuxBackendKind::Auto);
    let result = backend.create_stream(StreamConfig::default(), linux_host());
    assert!(result.is_ok());
}

#[test]
fn backend_returns_not_implemented_on_non_linux() {
    let backend = LinuxBackend::new(LinuxBackendKind::Auto);
    let result = backend.create_stream(StreamConfig::default(), other_host());
    match result {
        Ok(_) => panic!("expected not implemented on non-linux platforms"),
        Err(err) => assert_eq!(err, AudioError::NotImplemented),
    }
}

#[test]
fn linux_auto_stream_is_new_and_stopped() {
    let backend = LinuxBackend::new(LinuxBackendKind::Auto);
    let stream = backend.create_stream(StreamConfig::default(), linux_host()).unwrap();
    assert_eq!(stream.state(), StreamState::Stopped);
    assert_eq!(stream.config(), StreamConfig::default());
    assert!(!stream.has_render_callback());
}

#[test]
fn linux_pipewire_kind_answers_for_its_client() {
    let backend = LinuxBackend::new(LinuxBackendKind::PipeWire);
    assert!(matches!(
        backend.create_stream(StreamConfig::default(), linux_host()),
        Err(AudioError::NotImplemented)
    ));
    let no_socket = LinuxHost {
        on_linux: true,
        pipewire: PipeWireClient::Available { socket_exists: false, library_available: true },
    };
    assert!(matches!(
        backend.create_stream(StreamConfig::default(), no_socket),
        Err(AudioError::BackendFailure { code: -730 })
    ));
    let no_library = LinuxHost {
        on_linux: true,
        pipewire: PipeWireClient::Available { socket_exists: true, library_available: false },
    };
    assert!(matches!(
        backend.create_stream(StreamConfig::default(), no_library),
        Err(AudioError::BackendFailure { code: -731 })
    ));
    let ready = LinuxHost {
        on_linux: true,
        pipewire: PipeWireClient::Available { socket_exists: true, library_available: true },
    };
    let stream = backend.create_stream(StreamConfig::default(), ready).unwrap();
    assert_eq!(stream.state(), StreamState::Stopped);
    assert_eq!(stream.config(), StreamConfig::default());
}

#[test]
fn linux_auto_keeps_pipewire_error_when_both_fail() {
    let backend = LinuxBackend::new(LinuxBackendKind::Auto);
    let host = LinuxHost {
        on_linux: false,
        pipewire: PipeWireClient::Available { socket_exists: false, library_available: true },
    };
    assert!(matches!(
        backend.create_stream(StreamConfig::default(), host),
        Err(AudioError::BackendFailure { code: -730 })
    ));
}

#[test]
fn input_config_is_accepted_on_linux() {
    let config = StreamConfig {
        direction: Direction::Input,
        ..StreamConfig::default()
    };
    assert!(alsa::create_stream(config, true).is_ok());
}

#[test]
fn non_linux_returns_not_implemented() {
    let result = alsa::create_stream(StreamConfig::default(), false);
    match result {
        Ok(_) => panic!("expected not implemented on non-linux"),
        Err(err) => assert_eq!(err, AudioError::NotImplemented),
    }
}

#[test]
fn f32_and_i16_configs_are_accepted_for_output() {
    for format in [SampleFormat::F32, SampleFormat::I16] {
        let config = StreamConfig {
            format,
            ..StreamConfig::default()
        };
        assert!(alsa::create_stream(config, true).is_ok());
        assert_eq!(
            alsa::create_stream(config, false).map(|s| s.config()),
            Err(AudioError::NotImplemented)
        );
    }
}

#[test]
fn validate_accepts_supported_formats() {
    for format in [SampleFormat::F32, SampleFormat::I16] {
        let config = StreamConfig {
            format,
            ..StreamConfig::default()
        };
        assert!(pipewire::validate_requested_config(config).is_ok());
    }
}

#[test]
fn aaudio_rejects_i16_format_for_now() {
    let config = StreamConfig {
        format: SampleFormat::I16,
        ..StreamConfig::default()
    };
    assert!(aaudio::create_stream(config, |c: StreamConfig| Ok(c)).is_err());
}

#[test]
fn aaudio_stream_takes_the_negotiated_settings() {
    let negotiated = StreamConfig {
        sample_rate_hz: NonZeroU32::new(44_100).unwrap(),
        ..StreamConfig::default()
    };
    let opened = Cell::new(0);
    let stream = aaudio::create_stream(StreamConfig::default(), |_c: StreamConfig| {
        opened.set(opened.get() + 1);
        Ok(negotiated)
    })
    .unwrap();
    assert_eq!(stream.config(), negotiated);
    assert_eq!(stream.state(), StreamState::Stopped);
    assert_eq!(opened.get(), 1);

    let refused = StreamConfig {
        format: SampleFormat::I16,
        ..StreamConfig::default()
    };
    let result = aaudio::create_stream(refused, |c: StreamConfig| {
        opened.set(opened.get() + 1);
        Ok(c)
    });
    assert!(matches!(result, Err(AudioError::UnsupportedConfig)));
    assert_eq!(opened.get(), 1);
}

#[test]
fn opensl_es_rejects_i16_format_for_now() {
    let config = StreamConfig {
        format: SampleFormat::I16,
        ..StreamConfig::default()
    };
    assert!(opensl_es::create_stream(config, |c: StreamConfig| Ok(c)).is_err());
}

#[test]
fn accepts_input_config_shape() {
    let config = StreamConfig {
        direction: Direction::Input,
        ..StreamConfig::default()
    };
    let _ = opensl_es::create_stream(config, absent);
}

#[test]
fn opensl_stream_takes_the_first_accepted_candidate() {
    let tried = Cell::new(0);
    let stream = opensl_es::create_stream(StreamConfig::default(), |c: StreamConfig| {
        tried.set(tried.get() + 1);
        if c.channels.get() == 1 {
            Ok(c)
        } else {
            Err(AudioError::BackendFailure { code: 2 })
        }
    })
    .unwrap();
    assert_eq!(stream.config().channels.get(), 1);
    assert_eq!(stream.config().sample_rate_hz.get(), 48_000);
    assert_eq!(tried.get(), 2);
}

#[test]
fn android_backends_off_device_answer_precisely() {
    let i16_config = StreamConfig {
        format: SampleFormat::I16,
        ..StreamConfig::default()
    };
    assert!(matches!(aaudio::create_stream(i16_config, absent), Err(AudioError::UnsupportedConfig)));
    assert!(matches!(
        aaudio::create_stream(StreamConfig::default(), absent),
        Err(AudioError::NotImplemented)
    ));
    let auto = AndroidBackend::new(AndroidBackendKind::Auto);
    let native = AndroidNative { aaudio_open: absent, opensl_open: absent };
    assert!(matches!(auto.create_stream(i16_config, native), Err(AudioError::UnsupportedConfig)));
    let native = AndroidNative { aaudio_open: absent, opensl_open: absent };
    assert!(matches!(
        auto.create_stream(StreamConfig::default(), native),
        Err(AudioError::NotImplemented)
    ));
}

#[test]
fn android_auto_leaves_opensl_untried_after_aaudio_opens() {
    let opensl_tries = Cell::new(0);
    let auto = AndroidBackend::new(AndroidBackendKind::Auto);
    let native = AndroidNative {
        aaudio_open: |c: StreamConfig| Ok(c),
        opensl_open: |c: StreamConfig| {
            opensl_tries.set(opensl_tries.get() + 1);
            Ok(c)
        },
    };
    assert!(auto.create_stream(StreamConfig::default(), native).is_ok());
    assert_eq!(opensl_tries.get(), 0);

    let native = AndroidNative {
        aaudio_open: |_c: StreamConfig| Err(AudioError::BackendFailure { code: -7 }),
        opensl_open: |c: StreamConfig| {
            opensl_tries.set(opensl_tries.get() + 1);
            Ok(c)
        },
    };
    assert!(auto.create_stream(StreamConfig::default(), native).is_ok());
    assert_eq!(opensl_tries.get(), 1);

    let native = AndroidNative {
        aaudio_open: |_c: StreamConfig| Err(AudioError::BackendFailure { code: -11 }),
        opensl_open: absent,
    };
    assert!(matches!(
        auto.create_stream(StreamConfig::default(), native),
        Err(AudioError::BackendFailure { code: -11 })
    ));
}

#[test]
fn backend_returns_not_implemented_on_non_windows() {
    let backend = WindowsBackend::new(WindowsBackendKind::Wasapi);
    let result = backend.create_stream(StreamConfig::default(), no_endpoint);
    match result {
        Ok(_) => panic!("expected not implemented on non-windows"),
        Err(err) => assert_eq!(err, AudioError::NotImplemented),
    }
}

#[test]
fn wasapi_stream_follows_the_endpoint_probe() {
    let backend = WindowsBackend::new(WindowsBackendKind::Wasapi);
    let stream = backend.create_stream(StreamConfig::default(), |_d: Direction| Ok(())).unwrap();
    assert_eq!(stream.config(), StreamConfig::default());
    let result = wasapi::create_stream(StreamConfig::default(), |_d: Direction| {
        Err(AudioError::BackendFailure { code: -2_147_023_728 })
    });
    assert!(matches!(result, Err(AudioError::BackendFailure { code: -2_147_023_728 })));
}

#[test]
fn i16_config_is_accepted_on_non_windows_stub() {
    let config = StreamConfig {
        format: SampleFormat::I16,
        ..StreamConfig::default()
    };
    let result = wasapi::create_stream(config, no_endpoint);
    match result {
        Ok(_) => panic!("expected not implemented on non-windows"),
        Err(err) => assert_eq!(err, AudioError::NotImplemented),
    }
}

#[test]
fn input_direction_is_not_implemented_on_non_windows() {
    let config = StreamConfig {
        direction: Direction::Input,
        ..StreamConfig::default()
    };
    let result = wasapi::create_stream(config, no_endpoint);
    match result {
        Ok(_) => panic!("expected input path to be unimplemented on non-windows"),
        Err(err) => assert_eq!(err, AudioError::NotImplemented),
    }
}

#[test]
fn non_windows_returns_not_implemented() {
    let result = wasapi::create_stream(StreamConfig::default(), no_endpoint);
    match result {
        Ok(_) => panic!("expected not implemented on non-windows"),
        Err(err) => assert_eq!(err, AudioError::NotImplemented),
    }
}
