use capturist::config::{
    AudioCaptureConfig, EncoderConfig, OutputFormat, OutputResolution, VideoCodec,
    VideoEncoderPreference,
};

#[test]
fn audio_config_is_enabled_si_hay_fuente_activa() {
    let system_enabled = AudioCaptureConfig {
        capture_system_audio: true,
        ..AudioCaptureConfig::default()
    };
    assert!(system_enabled.is_enabled());

    let mic_enabled = AudioCaptureConfig {
        capture_microphone_audio: true,
        ..AudioCaptureConfig::default()
    };
    assert!(mic_enabled.is_enabled());

    let disabled = AudioCaptureConfig::default();
    assert!(!disabled.is_enabled());
}

#[test]
fn validate_rechaza_fps_fuera_de_rango() {
    let config = EncoderConfig {
        fps: 0,
        ..EncoderConfig::default()
    };

    let err = config.validate().expect_err("debio fallar por fps invalido");
    assert!(err.contains("FPS inválido"));
}

#[test]
fn validate_rechaza_ganancia_de_microfono_fuera_de_rango() {
    let config = EncoderConfig {
        audio: AudioCaptureConfig {
            microphone_gain_percent: 401,
            ..AudioCaptureConfig::default()
        },
        ..EncoderConfig::default()
    };

    let err = config
        .validate()
        .expect_err("debio fallar por ganancia de microfono invalida");
    assert!(err.contains("Ganancia de micrófono inválida"));
}

#[test]
fn validate_rechaza_webm_con_codec_no_vp9() {
    let config = EncoderConfig {
        format: OutputFormat::WebM,
        codec: Some(VideoCodec::H264),
        video_encoder_preference: VideoEncoderPreference::Auto,
        ..EncoderConfig::default()
    };

    let err = config
        .validate()
        .expect_err("debio fallar por codec incompatible en webm");
    assert!(err.contains("WebM solo es compatible"));
}

#[test]
fn validate_acepta_configuracion_valida() {
    let config = EncoderConfig {
        format: OutputFormat::Mp4,
        resolution: OutputResolution::Custom {
            width: 1920,
            height: 1080,
        },
        ..EncoderConfig::default()
    };

    assert!(config.validate().is_ok());
}

#[test]
fn validate_rechaza_crf_y_resolucion_y_dispositivos_invalidos() {
    let crf = EncoderConfig {
        crf: 52,
        ..EncoderConfig::default()
    };
    assert!(crf.validate().unwrap_err().contains("CRF inválido"));

    let res = EncoderConfig {
        resolution: OutputResolution::Custom { width: 0, height: 720 },
        ..EncoderConfig::default()
    };
    assert!(res
        .validate()
        .unwrap_err()
        .contains("resolución personalizada"));

    let dev = EncoderConfig {
        audio: AudioCaptureConfig {
            system_audio_device: Some("   ".to_string()),
            ..AudioCaptureConfig::default()
        },
        ..EncoderConfig::default()
    };
    assert!(dev.validate().unwrap_err().contains("audio del sistema"));

    let mic = EncoderConfig {
        audio: AudioCaptureConfig {
            microphone_device: Some("".to_string()),
            ..AudioCaptureConfig::default()
        },
        ..EncoderConfig::default()
    };
    assert!(mic.validate().unwrap_err().contains("micrófono"));
}

#[test]
fn codec_efectivo_usa_el_default_del_contenedor() {
    let mp4 = EncoderConfig::default();
    assert_eq!(mp4.effective_codec(), VideoCodec::H264);

    let webm = EncoderConfig {
        format: OutputFormat::WebM,
        ..EncoderConfig::default()
    };
    assert_eq!(webm.effective_codec(), VideoCodec::Vp9);

    let explicit = EncoderConfig {
        codec: Some(VideoCodec::H265),
        ..EncoderConfig::default()
    };
    assert_eq!(explicit.effective_codec(), VideoCodec::H265);
}

#[test]
fn nombres_ffmpeg_de_formatos_y_codecs() {
    assert_eq!(OutputFormat::Mp4.ffmpeg_format_name(), "mp4");
    assert_eq!(OutputFormat::Mkv.ffmpeg_format_name(), "matroska");
    assert_eq!(OutputFormat::WebM.ffmpeg_format_name(), "webm");
    assert_eq!(VideoCodec::H264.ffmpeg_encoder_name(), "libx264");
    assert_eq!(VideoCodec::Vp9.ffmpeg_encoder_name(), "libvpx-vp9");
    assert_eq!(
        OutputResolution::Hd.dimensions(3840, 2160),
        (1280, 720)
    );
    assert_eq!(
        OutputResolution::Native.dimensions(1234, 777),
        (1234, 777)
    );
}
