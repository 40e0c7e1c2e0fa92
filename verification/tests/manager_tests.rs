use capturist::config::{EncoderConfig, VideoCodec, VideoEncoderPreference};
use capturist::manager::{
    should_prefer_gpu_frames_with_flag, CaptureManager, RuntimeFactory, SessionConfig,
};
use capturist::models::{CaptureState, CaptureTarget, Region, TargetKind};
use capturist::provider::ScreenProvider;
use capturist::runtime::CaptureRuntimeHandle;

struct MockScreenProvider {
    supported: bool,
    targets: Vec<CaptureTarget>,
}

impl MockScreenProvider {
    fn with_single_monitor() -> Self {
        Self {
            supported: true,
            targets: vec![CaptureTarget {
                id: 1,
                name: "Monitor de prueba".to_string(),
                width: 1920,
                height: 1080,
                origin_x: 0,
                origin_y: 0,
                screen_width: 1920,
                screen_height: 1080,
                is_primary: true,
                kind: TargetKind::Monitor,
            }],
        }
    }
}

impl ScreenProvider for MockScreenProvider {
    fn get_targets(&self) -> Result<Vec<CaptureTarget>, String> {
        Ok(self.targets.clone())
    }

    fn is_supported(&self) -> bool {
        self.supported
    }
}

struct MockRuntimeHandle;

impl CaptureRuntimeHandle for MockRuntimeHandle {
    fn pause(&self) {}

    fn resume(&self) {}

    fn is_finished(&self) -> bool {
        false
    }

    fn stop(self) -> Result<u64, String> {
        Ok(0)
    }

    fn wait(self) -> Result<u64, String> {
        Ok(0)
    }
}

struct MockRuntimeFactory;

impl RuntimeFactory for MockRuntimeFactory {
    type Handle = MockRuntimeHandle;

    fn build(&self, _config: SessionConfig) -> Result<MockRuntimeHandle, String> {
        Ok(MockRuntimeHandle)
    }
}

fn make_mock_manager() -> CaptureManager<MockScreenProvider, MockRuntimeFactory> {
    CaptureManager::with_dependencies(MockScreenProvider::with_single_monitor(), MockRuntimeFactory)
}

fn make_session_config(target_id: u32) -> SessionConfig {
    SessionConfig {
        target_id,
        fps: 30,
        crop_region: None,
        capture_resolution_preset: None,
        encoder_config: EncoderConfig::default(),
    }
}

#[test]
fn manager_nuevo_esta_en_idle() {
    let manager = make_mock_manager();
    let snapshot = manager.snapshot(0);

    assert_eq!(snapshot.state, CaptureState::Idle);
    assert_eq!(snapshot.elapsed_ms, 0);
    assert!(snapshot.last_error.is_none());
}

#[test]
fn refleja_si_el_backend_esta_soportado() {
    let manager = make_mock_manager();
    assert!(manager.is_supported());
}

#[test]
fn start_pause_resume_stop_actualiza_estado() {
    let mut manager = make_mock_manager();

    manager.start(make_session_config(1), 0).unwrap();
    assert_eq!(manager.snapshot(0).state, CaptureState::Running);

    manager.pause(10).unwrap();
    assert_eq!(manager.snapshot(10).state, CaptureState::Paused);

    manager.resume(20).unwrap();
    assert_eq!(manager.snapshot(20).state, CaptureState::Running);

    manager.stop(30).unwrap();
    assert_eq!(manager.snapshot(30).state, CaptureState::Idle);
}

#[test]
fn no_puede_iniciar_dos_veces() {
    let mut manager = make_mock_manager();

    manager.start(make_session_config(1), 0).unwrap();
    let err = manager.start(make_session_config(1), 1).unwrap_err();

    assert!(err.contains("grabación en curso"));
}

#[test]
fn start_con_target_inexistente_falla() {
    let mut manager = make_mock_manager();

    let err = manager.start(make_session_config(999), 0).unwrap_err();

    assert!(err.contains("No se encontró un target"));
    assert!(err.contains("999"));
    assert_eq!(manager.snapshot(0).state, CaptureState::Idle);
}

#[test]
fn prefiere_frames_gpu_solo_en_hw_explicito_y_sin_crop() {
    let config = EncoderConfig {
        video_encoder_preference: VideoEncoderPreference::Nvenc,
        ..EncoderConfig::default()
    };
    assert!(should_prefer_gpu_frames_with_flag(&config, &None, true));
}

#[test]
fn no_prefiere_frames_gpu_en_auto_para_preservar_fallback_cpu() {
    let config = EncoderConfig {
        video_encoder_preference: VideoEncoderPreference::Auto,
        ..EncoderConfig::default()
    };
    assert!(!should_prefer_gpu_frames_with_flag(&config, &None, true));
}

#[test]
fn no_prefiere_frames_gpu_con_crop_ni_vp9() {
    let config = EncoderConfig {
        video_encoder_preference: VideoEncoderPreference::Nvenc,
        codec: Some(VideoCodec::Vp9),
        ..EncoderConfig::default()
    };
    assert!(!should_prefer_gpu_frames_with_flag(&config, &None, true));
    assert!(!should_prefer_gpu_frames_with_flag(
        &EncoderConfig {
            video_encoder_preference: VideoEncoderPreference::Nvenc,
            ..EncoderConfig::default()
        },
        &Some(Region {
            x: 0,
            y: 0,
            width: 100,
            height: 100,
        }),
        true,
    ));
}

#[test]
fn no_prefiere_frames_gpu_si_feature_experimental_esta_deshabilitada() {
    let config = EncoderConfig {
        video_encoder_preference: VideoEncoderPreference::Nvenc,
        ..EncoderConfig::default()
    };
    assert!(!should_prefer_gpu_frames_with_flag(&config, &None, false));
}

#[test]
fn start_despues_de_stop_y_stop_repetido() {
    let mut manager = make_mock_manager();

    manager.start(make_session_config(1), 0).unwrap();
    manager.stop(100).unwrap();

    manager.start(make_session_config(1), 200).unwrap();
    assert_eq!(manager.snapshot(200).state, CaptureState::Running);
    manager.stop(300).unwrap();

    let err = manager.stop(400).unwrap_err();
    assert!(err.contains("No hay una grabación activa"));
}

#[test]
fn pausa_y_reanudacion_no_duplican_el_tiempo() {
    let mut manager = make_mock_manager();

    manager.start(make_session_config(1), 0).unwrap();
    manager.pause(500).unwrap();
    assert_eq!(manager.snapshot(500).elapsed_ms, 500);
    assert_eq!(manager.snapshot(1000).elapsed_ms, 500);

    manager.resume(1000).unwrap();
    assert_eq!(manager.snapshot(1000).elapsed_ms, 500);

    manager.stop(1500).unwrap();
}

#[test]
fn pausa_al_medio_da_elapsed_exacto() {
    let mut manager = make_mock_manager();

    manager.start(make_session_config(1), 0).unwrap();
    manager.pause(500).unwrap();
    manager.resume(1000).unwrap();
    assert_eq!(manager.snapshot(1500).elapsed_ms, 1000);
}

#[test]
fn start_con_fps_invalido_no_crea_sesion() {
    let mut manager = make_mock_manager();

    let mut config = make_session_config(1);
    config.fps = 0;
    let err = manager.start(config, 0).unwrap_err();
    assert!(err.contains("FPS inválido"));
    assert!(err.contains("1") && err.contains("120"));
    assert_eq!(manager.snapshot(0).state, CaptureState::Idle);

    let mut config = make_session_config(1);
    config.fps = 121;
    assert!(manager.start(config, 0).is_err());
}

#[test]
fn start_con_crop_fuera_del_target_falla() {
    let mut manager = make_mock_manager();

    let mut config = make_session_config(1);
    config.crop_region = Some(Region {
        x: 1910,
        y: 1075,
        width: 80,
        height: 40,
    });
    let err = manager.start(config, 0).unwrap_err();
    assert!(err.contains("excede el ancho del target"));
    assert_eq!(manager.snapshot(0).state, CaptureState::Idle);
}

#[test]
fn transiciones_invalidas_nombran_el_estado() {
    let mut manager = make_mock_manager();

    let err = manager.pause(0).unwrap_err();
    assert!(err.contains("No hay una grabación activa"));

    manager.start(make_session_config(1), 0).unwrap();
    let err = manager.resume(1).unwrap_err();
    assert!(err.contains("reanudar") && err.contains("Running"));

    manager.pause(2).unwrap();
    let err = manager.pause(3).unwrap_err();
    assert!(err.contains("pausar") && err.contains("Paused"));
}

struct FinishedRuntimeHandle;

impl CaptureRuntimeHandle for FinishedRuntimeHandle {
    fn pause(&self) {}

    fn resume(&self) {}

    fn is_finished(&self) -> bool {
        true
    }

    fn stop(self) -> Result<u64, String> {
        Ok(0)
    }

    fn wait(self) -> Result<u64, String> {
        Ok(0)
    }
}

struct FinishedRuntimeFactory;

impl RuntimeFactory for FinishedRuntimeFactory {
    type Handle = FinishedRuntimeHandle;

    fn build(&self, _config: SessionConfig) -> Result<FinishedRuntimeHandle, String> {
        Ok(FinishedRuntimeHandle)
    }
}

#[test]
fn refresh_es_idempotente_en_sesiones_terminales() {
    let mut manager = CaptureManager::with_dependencies(
        MockScreenProvider::with_single_monitor(),
        FinishedRuntimeFactory,
    );

    manager.start(make_session_config(1), 0).unwrap();
    manager.refresh_runtime_state(250);
    let first = manager.snapshot(250);
    assert_eq!(first.state, CaptureState::Stopped);
    assert_eq!(first.elapsed_ms, 250);

    manager.refresh_runtime_state(900);
    let second = manager.snapshot(900);
    assert_eq!(second.state, CaptureState::Stopped);
    assert_eq!(second.elapsed_ms, 250);

    let mut idle = make_mock_manager();
    idle.refresh_runtime_state(50);
    assert_eq!(idle.snapshot(50).state, CaptureState::Idle);
}
