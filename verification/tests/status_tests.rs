use capturist::config::VideoEncoderPreference;
use capturist::status::{infer_label_from_preference, LiveStatus, ProcessingGuard};

#[test]
fn processing_guard_y_override_controlan_estado() {
    let mut status = LiveStatus::new();

    status.set_processing(false);
    assert!(!status.is_processing());

    let guard = ProcessingGuard::start(&mut status);
    assert!(status.is_processing());
    guard.finish(&mut status);
    assert!(!status.is_processing());

    status.set_processing(true);
    assert!(status.is_processing());
    status.set_processing(false);
    assert!(!status.is_processing());
}

#[test]
fn etiqueta_de_encoder_en_vivo_se_publica_y_se_limpia() {
    let mut status = LiveStatus::new();
    assert!(status.get_live_video_encoder_label().is_none());

    status.set_live_video_encoder_label(Some("NVENC / H.264".to_string()));
    assert_eq!(
        status.get_live_video_encoder_label().unwrap(),
        "NVENC / H.264"
    );

    status.set_live_video_encoder_label(None);
    assert!(status.get_live_video_encoder_label().is_none());
}

#[test]
fn etiqueta_inferida_de_la_preferencia() {
    assert!(infer_label_from_preference(&VideoEncoderPreference::Auto).is_none());
    assert_eq!(
        infer_label_from_preference(&VideoEncoderPreference::Nvenc).unwrap(),
        "NVENC (NVIDIA)"
    );
    assert_eq!(
        infer_label_from_preference(&VideoEncoderPreference::Software).unwrap(),
        "Software (CPU)"
    );
}
