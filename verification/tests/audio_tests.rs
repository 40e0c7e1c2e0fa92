use capturist::audio::{
    apply_audio_capture_config, find_device_by_name, get_live_audio_status,
    list_microphone_input_devices, normalized_track_delay, plan_finalize,
    resolve_track_device_action, select_mux_tracks, update_live_audio_capture,
    AudioCaptureService, AudioTrackSource, AudioTrackState, AudioWriteAction, FinalizeAction,
    TrackFinal, TrackStartAction, FIRST_ENABLE_UNSET,
};
use capturist::config::AudioCaptureConfig;

#[test]
fn lista_microfonos_stub_devuelve_vacia() {
    let devices = list_microphone_input_devices().expect("listado de microfonos debe responder");
    assert!(devices.is_empty());
}

#[test]
fn update_audio_en_vivo_stub_devuelve_error_controlado() {
    let err = update_live_audio_capture(true, true)
        .expect_err("en no-windows no debe habilitar audio en vivo");
    assert!(err.contains("Windows"));
}

#[test]
fn status_audio_stub_arranca_en_default() {
    apply_audio_capture_config(&AudioCaptureConfig::default());
    let status = get_live_audio_status();
    assert!(!status.capture_system_audio);
    assert!(!status.capture_microphone_audio);
    assert!(status.system_audio_device_name.is_none());
    assert!(status.microphone_audio_device_name.is_none());
}

#[test]
fn servicio_audio_rechaza_audio_habilitado_sin_backend() {
    let mut service = AudioCaptureService::new(
        AudioCaptureConfig {
            capture_system_audio: true,
            ..AudioCaptureConfig::default()
        },
        capturist::config::OutputFormat::Mp4,
        capturist::config::QualityMode::Balanced,
        "video.tmp.mp4".to_string(),
        "video.mp4".to_string(),
    );
    let err = service
        .start()
        .expect_err("sin backend el audio habilitado debe fallar");
    assert!(err.contains("Windows"));

    let mut silent = AudioCaptureService::new(
        AudioCaptureConfig::default(),
        capturist::config::OutputFormat::Mp4,
        capturist::config::QualityMode::Balanced,
        "video.tmp.mp4".to_string(),
        "video.mp4".to_string(),
    );
    assert!(silent.start().is_ok());
}

#[test]
fn mux_excluye_pistas_que_nunca_se_habilitaron() {
    let tracks = vec![
        TrackFinal {
            path: "system_audio.wav".to_string(),
            ever_enabled: false,
            file_len: 10_000,
            first_enabled_at_ms: FIRST_ENABLE_UNSET,
            source: AudioTrackSource::System,
        },
        TrackFinal {
            path: "microphone_audio.wav".to_string(),
            ever_enabled: true,
            file_len: 10_000,
            first_enabled_at_ms: 350,
            source: AudioTrackSource::Microphone,
        },
        TrackFinal {
            path: "empty.wav".to_string(),
            ever_enabled: true,
            file_len: 44,
            first_enabled_at_ms: 0,
            source: AudioTrackSource::System,
        },
    ];

    let selected = select_mux_tracks(&tracks);
    assert_eq!(selected.len(), 1);
    assert_eq!(selected[0].path, "microphone_audio.wav");
    assert_eq!(selected[0].delay_ms, 350);
    assert_eq!(selected[0].source, AudioTrackSource::Microphone);
}

#[test]
fn primera_habilitacion_se_registra_una_sola_vez() {
    let mut track = AudioTrackState::new(false);
    assert_eq!(track.first_enabled_at_ms, FIRST_ENABLE_UNSET);

    // Never enabled: buffers are dropped.
    let action = track.process_packet(100, 960, false, false);
    assert_eq!(action, AudioWriteAction::DropBuffer);

    track.set_enabled(true);
    let action = track.process_packet(250, 960, false, false);
    assert_eq!(action, AudioWriteAction::WriteSamples);
    assert_eq!(track.first_enabled_at_ms, 250);

    track.set_enabled(false);
    let action = track.process_packet(400, 960, false, false);
    assert_eq!(action, AudioWriteAction::WriteSilence);

    track.set_enabled(true);
    let action = track.process_packet(600, 960, true, false);
    assert_eq!(action, AudioWriteAction::WriteSilence);
    assert_eq!(track.first_enabled_at_ms, 250);

    assert_eq!(normalized_track_delay(track.first_enabled_at_ms), 250);
    assert_eq!(normalized_track_delay(FIRST_ENABLE_UNSET), 0);
}

#[test]
fn plan_de_finalizacion_decide_mux_o_video_solo() {
    let no_tracks: Vec<TrackFinal> = Vec::new();
    assert!(matches!(
        plan_finalize(false, true, &no_tracks),
        FinalizeAction::Nothing
    ));
    assert!(matches!(
        plan_finalize(true, true, &no_tracks),
        FinalizeAction::MoveVideoOnly {
            report_missing_audio: true
        }
    ));
    assert!(matches!(
        plan_finalize(true, false, &no_tracks),
        FinalizeAction::MoveVideoOnly {
            report_missing_audio: false
        }
    ));

    let tracks = vec![TrackFinal {
        path: "system_audio.wav".to_string(),
        ever_enabled: true,
        file_len: 2048,
        first_enabled_at_ms: 0,
        source: AudioTrackSource::System,
    }];
    match plan_finalize(true, true, &tracks) {
        FinalizeAction::Mux(selected) => {
            assert_eq!(selected.len(), 1);
            assert_eq!(selected[0].path, "system_audio.wav");
        }
        other => panic!("se esperaba mux, no {:?}", other),
    }

    assert_eq!(
        resolve_track_device_action(false, true, false),
        TrackStartAction::UseDevice
    );
    assert_eq!(
        resolve_track_device_action(true, false, false),
        TrackStartAction::FailSession
    );
    assert_eq!(
        resolve_track_device_action(false, false, false),
        TrackStartAction::RetryDefaultDevice
    );
    assert_eq!(
        resolve_track_device_action(false, false, true),
        TrackStartAction::SkipTrack
    );
}

#[test]
fn busqueda_de_dispositivo_por_nombre() {
    let devices = vec![
        "Altavoces (Realtek)".to_string(),
        "Micrófono USB".to_string(),
    ];
    assert_eq!(find_device_by_name(&devices, "micrófono usb"), Some(1));
    assert_eq!(find_device_by_name(&devices, "realtek"), Some(0));
    assert_eq!(find_device_by_name(&devices, "webcam"), None);
}
