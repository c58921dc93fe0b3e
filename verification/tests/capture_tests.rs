use narrator::capture::{
    record_audio, sample_format, wav_spec_from_config, write_input_data, CaptureAction,
    CaptureError, CaptureEvent, CapturePhase, CaptureSession, InputConfig, SampleFormat,
    WavSampleFormat, WavSpec, WriterAccess, POLL_INTERVAL_MS,
};
use narrator::paths::AudioDir;

fn config(sample_format: SampleFormat) -> InputConfig {
    InputConfig { channels: 2, sample_rate: 44100, sample_format }
}

fn recording_session(format: SampleFormat) -> CaptureSession {
    let mut session = CaptureSession::new("/tmp/rec.wav".to_string());
    session.step(CaptureEvent::Start);
    session.step(CaptureEvent::DeviceReady(config(format)));
    session.step(CaptureEvent::WriterCreated);
    session.step(CaptureEvent::StreamBuilt);
    session.step(CaptureEvent::StreamStarted);
    session
}

#[test]
fn wav_spec_matches_sixteen_bit_config() {
    let spec = wav_spec_from_config(&config(SampleFormat::I16));
    assert_eq!(
        spec,
        WavSpec {
            channels: 2,
            sample_rate: 44100,
            bits_per_sample: 16,
            sample_format: WavSampleFormat::Int
        }
    );
}

#[test]
fn wav_spec_of_float_config_is_float() {
    let spec = wav_spec_from_config(&InputConfig {
        channels: 1,
        sample_rate: 48000,
        sample_format: SampleFormat::F32,
    });
    assert_eq!(
        spec,
        WavSpec {
            channels: 1,
            sample_rate: 48000,
            bits_per_sample: 32,
            sample_format: WavSampleFormat::Float
        }
    );
}

#[test]
fn sample_sizes_are_in_bytes() {
    assert_eq!(SampleFormat::I8.sample_size(), 1);
    assert_eq!(SampleFormat::U8.sample_size(), 1);
    assert_eq!(SampleFormat::I16.sample_size(), 2);
    assert_eq!(SampleFormat::U16.sample_size(), 2);
    assert_eq!(SampleFormat::I32.sample_size(), 4);
    assert_eq!(SampleFormat::U32.sample_size(), 4);
    assert_eq!(SampleFormat::F32.sample_size(), 4);
    assert_eq!(SampleFormat::I64.sample_size(), 8);
    assert_eq!(SampleFormat::U64.sample_size(), 8);
    assert_eq!(SampleFormat::F64.sample_size(), 8);
    assert_eq!(wav_spec_from_config(&config(SampleFormat::I8)).bits_per_sample, 8);
    assert_eq!(wav_spec_from_config(&config(SampleFormat::F64)).bits_per_sample, 64);
}

#[test]
fn only_float_formats_map_to_float() {
    assert_eq!(sample_format(SampleFormat::F32), WavSampleFormat::Float);
    assert_eq!(sample_format(SampleFormat::F64), WavSampleFormat::Float);
    assert_eq!(sample_format(SampleFormat::I8), WavSampleFormat::Int);
    assert_eq!(sample_format(SampleFormat::U32), WavSampleFormat::Int);
    assert!(SampleFormat::F64.is_float());
    assert!(!SampleFormat::I64.is_float());
}

#[test]
fn four_formats_are_supported() {
    let supported = [SampleFormat::I8, SampleFormat::I16, SampleFormat::I32, SampleFormat::F32];
    let unsupported = [
        SampleFormat::I64,
        SampleFormat::U8,
        SampleFormat::U16,
        SampleFormat::U32,
        SampleFormat::U64,
        SampleFormat::F64,
    ];
    for format in supported.iter() {
        assert!(format.is_supported());
    }
    for format in unsupported.iter() {
        assert!(!format.is_supported());
    }
}

#[test]
fn a_session_runs_from_start_to_published_file() {
    let mut session = CaptureSession::new("/tmp/rec.wav".to_string());
    assert_eq!(session.phase, CapturePhase::Idle);
    assert_eq!(session.result_slot(), None);
    assert_eq!(session.step(CaptureEvent::Start), CaptureAction::OpenDevice);
    assert_eq!(
        session.step(CaptureEvent::DeviceReady(config(SampleFormat::I16))),
        CaptureAction::CreateWriter {
            path: "/tmp/rec.wav".to_string(),
            spec: WavSpec {
                channels: 2,
                sample_rate: 44100,
                bits_per_sample: 16,
                sample_format: WavSampleFormat::Int
            }
        }
    );
    assert_eq!(
        session.step(CaptureEvent::WriterCreated),
        CaptureAction::BuildStream { format: SampleFormat::I16 }
    );
    assert_eq!(session.step(CaptureEvent::StreamBuilt), CaptureAction::StartStream);
    assert_eq!(session.step(CaptureEvent::StreamStarted), CaptureAction::Poll { after_millis: 0 });
    assert_eq!(session.phase, CapturePhase::Recording);
    assert_eq!(
        session.step(CaptureEvent::Polled { keep_recording: true }),
        CaptureAction::Poll { after_millis: 10 }
    );
    assert_eq!(
        session.step(CaptureEvent::Polled { keep_recording: false }),
        CaptureAction::StopAndFinalize
    );
    assert_eq!(session.result_slot(), None);
    assert!(!session.is_over());
    assert_eq!(
        session.step(CaptureEvent::Finalized),
        CaptureAction::Publish { path: "/tmp/rec.wav".to_string() }
    );
    assert_eq!(session.phase, CapturePhase::Finished);
    assert!(session.is_over());
    assert_eq!(session.result_slot(), Some(&"/tmp/rec.wav".to_string()));
}

#[test]
fn the_poll_interval_is_ten_milliseconds() {
    assert_eq!(POLL_INTERVAL_MS, 10);
}

#[test]
fn a_set_flag_keeps_the_session_recording() {
    let mut session = recording_session(SampleFormat::F32);
    for _ in 0..50 {
        assert_eq!(
            session.step(CaptureEvent::Polled { keep_recording: true }),
            CaptureAction::Poll { after_millis: POLL_INTERVAL_MS }
        );
        assert_eq!(session.phase, CapturePhase::Recording);
    }
}

#[test]
fn the_slot_is_written_once() {
    let mut session = recording_session(SampleFormat::I32);
    session.step(CaptureEvent::Polled { keep_recording: false });
    assert!(matches!(session.step(CaptureEvent::Finalized), CaptureAction::Publish { .. }));
    assert_eq!(session.step(CaptureEvent::Finalized), CaptureAction::Nothing);
    assert_eq!(session.step(CaptureEvent::Polled { keep_recording: false }), CaptureAction::Nothing);
    assert_eq!(session.step(CaptureEvent::Start), CaptureAction::Nothing);
    assert_eq!(session.phase, CapturePhase::Finished);
}

#[test]
fn a_missing_device_fails_the_session() {
    let mut session = CaptureSession::new("/tmp/rec.wav".to_string());
    session.step(CaptureEvent::Start);
    let action = session.step(CaptureEvent::DeviceMissing);
    assert_eq!(action, CaptureAction::Report { error: CaptureError::NoInputDevice });
    assert_eq!(session.phase, CapturePhase::Failed);
    assert_eq!(session.result_slot(), None);
    assert_eq!(CaptureError::NoInputDevice.message(), "No input device available");
}

#[test]
fn a_failed_configuration_fails_the_session() {
    let mut session = CaptureSession::new("/tmp/rec.wav".to_string());
    session.step(CaptureEvent::Start);
    let action = session.step(CaptureEvent::ConfigFailed("device gone".to_string()));
    assert_eq!(
        action,
        CaptureAction::Report { error: CaptureError::InputConfig("device gone".to_string()) }
    );
    assert_eq!(CaptureError::InputConfig("device gone".to_string()).message(), "device gone");
    assert!(session.is_over());
}

#[test]
fn an_unsupported_format_fails_after_the_writer_is_open() {
    let mut session = CaptureSession::new("/tmp/rec.wav".to_string());
    session.step(CaptureEvent::Start);
    assert!(matches!(
        session.step(CaptureEvent::DeviceReady(config(SampleFormat::U16))),
        CaptureAction::CreateWriter { .. }
    ));
    let action = session.step(CaptureEvent::WriterCreated);
    assert_eq!(
        action,
        CaptureAction::Report { error: CaptureError::UnsupportedSampleFormat(SampleFormat::U16) }
    );
    assert_eq!(session.phase, CapturePhase::Failed);
    assert_eq!(
        CaptureError::UnsupportedSampleFormat(SampleFormat::U16).message(),
        "Unsupported sample format 'u16'"
    );
    assert_eq!(
        CaptureError::UnsupportedSampleFormat(SampleFormat::F64).message(),
        "Unsupported sample format 'f64'"
    );
}

#[test]
fn a_writer_that_cannot_be_opened_fails_the_session() {
    let mut session = CaptureSession::new("/tmp/rec.wav".to_string());
    session.step(CaptureEvent::Start);
    session.step(CaptureEvent::DeviceReady(config(SampleFormat::I16)));
    assert_eq!(
        session.step(CaptureEvent::WriterFailed("no such directory".to_string())),
        CaptureAction::Report { error: CaptureError::Encoder("no such directory".to_string()) }
    );
    assert_eq!(session.phase, CapturePhase::Failed);
    assert_eq!(CaptureError::Encoder("x".to_string()).message(), "x");
}

#[test]
fn a_stream_that_cannot_be_built_fails_the_session() {
    let mut session = CaptureSession::new("/tmp/rec.wav".to_string());
    session.step(CaptureEvent::Start);
    session.step(CaptureEvent::DeviceReady(config(SampleFormat::I16)));
    session.step(CaptureEvent::WriterCreated);
    assert_eq!(
        session.step(CaptureEvent::StreamBuildFailed("busy".to_string())),
        CaptureAction::Report { error: CaptureError::BuildStream("busy".to_string()) }
    );
    assert_eq!(session.phase, CapturePhase::Failed);
    assert_eq!(CaptureError::BuildStream("busy".to_string()).message(), "busy");
}

#[test]
fn a_stream_that_cannot_start_fails_the_session() {
    let mut session = CaptureSession::new("/tmp/rec.wav".to_string());
    session.step(CaptureEvent::Start);
    session.step(CaptureEvent::DeviceReady(config(SampleFormat::I16)));
    session.step(CaptureEvent::WriterCreated);
    session.step(CaptureEvent::StreamBuilt);
    assert_eq!(
        session.step(CaptureEvent::StreamStartFailed("unplugged".to_string())),
        CaptureAction::Report { error: CaptureError::PlayStream("unplugged".to_string()) }
    );
    assert_eq!(session.phase, CapturePhase::Failed);
    assert_eq!(CaptureError::PlayStream("unplugged".to_string()).message(), "unplugged");
}

#[test]
fn a_file_that_cannot_be_finalized_fails_the_session() {
    let mut session = recording_session(SampleFormat::I8);
    session.step(CaptureEvent::Polled { keep_recording: false });
    assert_eq!(
        session.step(CaptureEvent::FinalizeFailed("disk full".to_string())),
        CaptureAction::Report { error: CaptureError::Encoder("disk full".to_string()) }
    );
    assert_eq!(session.phase, CapturePhase::Failed);
    assert_eq!(session.result_slot(), None);
    assert_eq!(session.step(CaptureEvent::Finalized), CaptureAction::Nothing);
}

#[test]
fn an_event_out_of_turn_changes_nothing() {
    let mut session = CaptureSession::new("/tmp/rec.wav".to_string());
    assert_eq!(session.step(CaptureEvent::Finalized), CaptureAction::Nothing);
    assert_eq!(session.step(CaptureEvent::StreamStarted), CaptureAction::Nothing);
    assert_eq!(session.phase, CapturePhase::Idle);
    session.step(CaptureEvent::Start);
    assert_eq!(session.step(CaptureEvent::Polled { keep_recording: false }), CaptureAction::Nothing);
    assert_eq!(session.phase, CapturePhase::OpeningDevice);
    assert_eq!(session.recording_path, "/tmp/rec.wav");
}

#[test]
fn record_audio_names_the_recording_in_the_directory() {
    let dir = AudioDir::TempDir("/data/temp_logs".to_string());
    let session = record_audio(&dir);
    assert_eq!(session.phase, CapturePhase::Idle);
    assert!(session.recording_path.starts_with("/data/temp_logs/"));
    assert!(session.recording_path.ends_with("_recording.wav"));
    assert!(session.recording_path.len() > "/data/temp_logs/_recording.wav".len());
}

#[test]
fn a_batch_is_written_only_to_an_open_writer() {
    let batch: [i16; 3] = [1, -2, 3];
    assert_eq!(write_input_data(&batch, WriterAccess::Open), Some(&batch[..]));
    assert_eq!(write_input_data(&batch, WriterAccess::Contended), None);
    assert_eq!(write_input_data(&batch, WriterAccess::Closed), None);
    let floats: [f32; 2] = [0.5, -0.25];
    assert_eq!(write_input_data(&floats, WriterAccess::Open), Some(&floats[..]));
}

#[test]
fn format_names_are_the_type_names() {
    assert_eq!(SampleFormat::I8.name(), "i8");
    assert_eq!(SampleFormat::I16.name(), "i16");
    assert_eq!(SampleFormat::I32.name(), "i32");
    assert_eq!(SampleFormat::I64.name(), "i64");
    assert_eq!(SampleFormat::U8.name(), "u8");
    assert_eq!(SampleFormat::U16.name(), "u16");
    assert_eq!(SampleFormat::U32.name(), "u32");
    assert_eq!(SampleFormat::U64.name(), "u64");
    assert_eq!(SampleFormat::F32.name(), "f32");
    assert_eq!(SampleFormat::F64.name(), "f64");
}
