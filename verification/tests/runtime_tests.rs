use capturist::models::Region;
use capturist::runtime::{
    clamp_crop_region, frame_timestamp_ms, merge_runtime_and_finalize_error,
    min_update_interval_ms, plan_frame_delivery, start_runtime, FrameAction, RuntimeStartConfig,
};

#[test]
fn runtime_portatil_reporta_error_de_plataforma() {
    let err = start_runtime(RuntimeStartConfig {
        target_id: 1,
        fps: 30,
        crop_region: None,
        prefer_gpu_frames: false,
    })
    .unwrap_err();
    assert!(err.contains("Windows"));
}

#[test]
fn cadencia_minima_derivada_del_fps() {
    assert_eq!(min_update_interval_ms(30), 33);
    assert_eq!(min_update_interval_ms(1), 1000);
    assert_eq!(min_update_interval_ms(0), 1000);
    assert_eq!(min_update_interval_ms(2000), 1);
}

#[test]
fn timestamps_de_frame_en_milisegundos() {
    assert_eq!(frame_timestamp_ms(-5), 0);
    assert_eq!(frame_timestamp_ms(0), 0);
    assert_eq!(frame_timestamp_ms(10_000), 1);
    assert_eq!(frame_timestamp_ms(1_234_567), 123);
}

#[test]
fn el_recorte_se_ajusta_al_frame_en_vivo() {
    let region = Region {
        x: 100,
        y: 50,
        width: 300,
        height: 200,
    };
    assert_eq!(clamp_crop_region(&region, 1920, 1080).unwrap(), (100, 50, 400, 250));

    // A region past the right edge is clamped to it.
    let wide = Region {
        x: 1900,
        y: 0,
        width: 100,
        height: 100,
    };
    assert_eq!(clamp_crop_region(&wide, 1920, 1080).unwrap(), (1900, 0, 1920, 100));

    let err = clamp_crop_region(&region, 0, 1080).unwrap_err();
    assert!(err.contains("dimensiones 0x0"));

    // A width of zero inside the frame leaves no horizontal overlap.
    let empty = Region {
        x: 50,
        y: 0,
        width: 0,
        height: 10,
    };
    let err = clamp_crop_region(&empty, 1920, 1080).unwrap_err();
    assert!(err.contains("no intersecta"));
}

#[test]
fn decision_por_frame_del_productor() {
    assert_eq!(plan_frame_delivery(true, true, true, false), FrameAction::Skip);
    assert_eq!(plan_frame_delivery(false, false, true, false), FrameAction::Dropped);
    assert_eq!(plan_frame_delivery(false, true, true, false), FrameAction::UseGpuSurface);
    assert_eq!(plan_frame_delivery(false, true, true, true), FrameAction::UseCpuBuffer);
    assert_eq!(plan_frame_delivery(false, true, false, false), FrameAction::UseCpuBuffer);
}

#[test]
fn errores_de_stop_y_finalize_se_combinan() {
    assert_eq!(
        merge_runtime_and_finalize_error("fallo capturando: detalle".to_string(), "detalle".to_string()),
        "fallo capturando: detalle"
    );
    assert_eq!(
        merge_runtime_and_finalize_error("detalle".to_string(), "fallo mayor con detalle".to_string()),
        "fallo mayor con detalle"
    );
    assert_eq!(
        merge_runtime_and_finalize_error("uno".to_string(), "dos".to_string()),
        "uno. Además falló la finalización del encoder: dos"
    );
}
