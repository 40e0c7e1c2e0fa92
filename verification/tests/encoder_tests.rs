use capturist::config::{
    EncoderConfig, EncoderPreset, OutputFormat, OutputResolution, QualityMode, VideoCodec,
    VideoEncoderPreference,
};
use capturist::encoder::{
    build_encoder_options, detect_video_encoder_capabilities, encoder_candidates,
    estimate_target_bitrate_kbps, pack_bgra_rows, plan_initialization, recommended_gop_frames,
    selected_backend_label, selected_codec_label, EncoderCore, EncoderPhase, ScaleFilter,
};
use capturist::status::LiveStatus;

#[test]
fn capacidades_sin_backend_son_todas_falsas() {
    let caps = detect_video_encoder_capabilities();
    assert!(!caps.nvenc && !caps.amf && !caps.qsv && !caps.software);
}

#[test]
fn candidatos_h264_respetan_la_preferencia() {
    let auto = encoder_candidates(&VideoCodec::H264, true, &VideoEncoderPreference::Auto, false);
    assert_eq!(
        auto,
        vec!["h264_nvenc", "h264_amf", "h264_qsv", "libx264", "h264", "mpeg4"]
    );

    let amf = encoder_candidates(&VideoCodec::H264, false, &VideoEncoderPreference::Amf, false);
    assert_eq!(
        amf,
        vec!["h264_amf", "h264_nvenc", "h264_qsv", "libx264", "h264"]
    );

    let software_gpu =
        encoder_candidates(&VideoCodec::H265, false, &VideoEncoderPreference::Software, true);
    assert!(software_gpu.is_empty());

    let vp9 = encoder_candidates(&VideoCodec::Vp9, true, &VideoEncoderPreference::Nvenc, false);
    assert_eq!(vp9, vec!["libvpx-vp9", "vp9"]);
}

#[test]
fn bitrate_y_gop_exactos() {
    // 1920*1080*30 px/s at 0.075 bpp and factor 1.0: ⌊4665.6⌋ = 4665 kbps.
    assert_eq!(
        estimate_target_bitrate_kbps(1920, 1080, 30, &VideoCodec::H264, &QualityMode::Balanced),
        4665
    );
    // Small frames clamp up to the floor.
    assert_eq!(
        estimate_target_bitrate_kbps(320, 240, 30, &VideoCodec::H265, &QualityMode::Performance),
        2500
    );
    // Huge frames clamp down to the cap.
    assert_eq!(
        estimate_target_bitrate_kbps(7680, 4320, 120, &VideoCodec::H264, &QualityMode::Quality),
        80000
    );

    assert_eq!(recommended_gop_frames(30), 60);
    assert_eq!(recommended_gop_frames(1), 30);
    assert_eq!(recommended_gop_frames(240), 300);
}

#[test]
fn opciones_de_libx264_son_exactas() {
    let (opts, custom) = build_encoder_options(
        "libx264",
        &VideoCodec::H264,
        &QualityMode::Balanced,
        23,
        &EncoderPreset::UltraFast,
        30,
        1920,
        1080,
    );
    assert!(custom);
    let pairs: Vec<(String, String)> = opts;
    assert_eq!(
        pairs,
        vec![
            ("crf".to_string(), "23".to_string()),
            ("preset".to_string(), "ultrafast".to_string()),
            ("tune".to_string(), "zerolatency".to_string()),
        ]
    );

    let (none, custom) = build_encoder_options(
        "mpeg4",
        &VideoCodec::H264,
        &QualityMode::Balanced,
        23,
        &EncoderPreset::UltraFast,
        30,
        1920,
        1080,
    );
    assert!(!custom);
    assert!(none.is_empty());
}

#[test]
fn opciones_de_nvenc_siguen_el_modo_de_calidad() {
    let (opts, custom) = build_encoder_options(
        "h264_nvenc",
        &VideoCodec::H264,
        &QualityMode::Performance,
        23,
        &EncoderPreset::UltraFast,
        30,
        1920,
        1080,
    );
    assert!(custom);
    let as_pairs: Vec<(&str, &str)> = opts
        .iter()
        .map(|(k, v)| (k.as_str(), v.as_str()))
        .collect();
    // 1920*1080*30 at 0.055 bpp: 3421 kbps target, cbr, no cq.
    assert_eq!(
        as_pairs,
        vec![
            ("preset", "p3"),
            ("rc", "cbr"),
            ("b:v", "3421k"),
            ("maxrate", "3421k"),
            ("bufsize", "1710k"),
            ("g", "60"),
            ("bf", "0"),
            ("rc-lookahead", "0"),
            ("tune", "ull"),
            ("spatial_aq", "0"),
            ("temporal_aq", "0"),
        ]
    );
}

#[test]
fn etiquetas_de_backend_y_codec() {
    assert_eq!(selected_backend_label("h264_nvenc"), "NVENC");
    assert_eq!(selected_backend_label("hevc_amf"), "AMF");
    assert_eq!(selected_backend_label("h264_qsv"), "QSV");
    assert_eq!(selected_backend_label("libx264"), "CPU");
    assert_eq!(selected_codec_label(&VideoCodec::H265), "H.265");
}

#[test]
fn plan_de_inicializacion_redondea_a_par_y_elige_escalador() {
    let config = EncoderConfig {
        resolution: OutputResolution::Custom {
            width: 1921,
            height: 1081,
        },
        quality_mode: QualityMode::Quality,
        ..EncoderConfig::default()
    };
    let plan = plan_initialization(&config, 1921, 1081, false).unwrap();
    assert_eq!(plan.out_width, 1920);
    assert_eq!(plan.out_height, 1080);
    assert_eq!(plan.codec, VideoCodec::H264);
    assert!(plan.allow_fallback);
    assert_eq!(plan.scale, ScaleFilter::Bicubic);
    assert_eq!(plan.format_name, "mp4");
    assert_eq!(plan.candidates[0], "h264_nvenc");

    let tiny = EncoderConfig {
        resolution: OutputResolution::Custom { width: 2, height: 1 },
        ..EncoderConfig::default()
    };
    let err = plan_initialization(&tiny, 100, 100, false).unwrap_err();
    assert!(err.contains("demasiado pequeña"));

    let gpu_software = EncoderConfig {
        video_encoder_preference: VideoEncoderPreference::Software,
        ..EncoderConfig::default()
    };
    let err = plan_initialization(&gpu_software, 1920, 1080, true).unwrap_err();
    assert!(err.contains("No hay encoders compatibles"));
    assert!(err.contains("GPU"));
}

#[test]
fn pts_estrictamente_creciente_incluso_con_timestamps_repetidos() {
    let mut status = LiveStatus::new();
    let config = EncoderConfig::default();
    let mut core = EncoderCore::new(&config, &mut status).unwrap();
    assert_eq!(core.phase, EncoderPhase::Uninitialized);

    core.mark_initialized(&mut status, "NVENC", "H.264");
    assert_eq!(
        status.get_live_video_encoder_label().unwrap(),
        "NVENC / H.264"
    );

    let p1 = core.assign_pts(1000);
    let p2 = core.assign_pts(1000);
    let p3 = core.assign_pts(1001);
    let p4 = core.assign_pts(1050);
    assert_eq!(p1, 0);
    assert_eq!(p2, 1);
    assert_eq!(p3, 2);
    assert_eq!(p4, 50);
    assert!(p1 < p2 && p2 < p3 && p3 < p4);

    core.finalize(&mut status);
    assert_eq!(core.phase, EncoderPhase::Closed);
    assert!(status.get_live_video_encoder_label().is_none());
    assert_eq!(core.opened_count, 1);
}

#[test]
fn el_empaquetado_de_filas_respeta_los_strides() {
    // Two rows of two BGRA pixels with a source stride of 10 bytes,
    // repacked to a destination stride of 12.
    let mut data = Vec::new();
    for i in 0..20u8 {
        data.push(i);
    }
    let out = pack_bgra_rows(&data, 2, 2, 10, 12);
    assert_eq!(out.len(), 24);
    assert_eq!(&out[0..8], &[0, 1, 2, 3, 4, 5, 6, 7]);
    assert_eq!(&out[8..12], &[0, 0, 0, 0]);
    assert_eq!(&out[12..20], &[10, 11, 12, 13, 14, 15, 16, 17]);
    assert_eq!(&out[20..24], &[0, 0, 0, 0]);
}

#[test]
fn formato_invalido_en_encoder_core() {
    let mut status = LiveStatus::new();
    let bad = EncoderConfig {
        fps: 0,
        ..EncoderConfig::default()
    };
    let err = EncoderCore::new(&bad, &mut status).unwrap_err();
    assert!(err.contains("FPS inválido"));

    let webm = EncoderConfig {
        format: OutputFormat::WebM,
        codec: Some(VideoCodec::H264),
        ..EncoderConfig::default()
    };
    assert!(EncoderCore::new(&webm, &mut status).is_err());
}
