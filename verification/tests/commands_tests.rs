use capturist::commands::normalize_native_region_for_target;
use capturist::models::{CaptureTarget, Region, TargetKind};

fn monitor_target(width: u32, height: u32, screen_width: u32, screen_height: u32) -> CaptureTarget {
    CaptureTarget {
        id: 1,
        name: "Monitor".to_string(),
        width,
        height,
        origin_x: 0,
        origin_y: 0,
        screen_width,
        screen_height,
        is_primary: true,
        kind: TargetKind::Monitor,
    }
}

#[test]
fn normaliza_region_de_monitor_con_escala_dpi() {
    let target = monitor_target(3840, 2160, 1920, 1080);
    let selected_region = Region {
        x: 120,
        y: 45,
        width: 600,
        height: 300,
    };

    let normalized = normalize_native_region_for_target(&selected_region, &target)
        .expect("la region debe normalizarse");

    assert_eq!(normalized.x, 240);
    assert_eq!(normalized.y, 90);
    assert_eq!(normalized.width, 1200);
    assert_eq!(normalized.height, 600);
}

#[test]
fn recorta_la_region_al_borde_del_target() {
    let target = monitor_target(1920, 1080, 1920, 1080);
    let selected_region = Region {
        x: 1910,
        y: 1075,
        width: 80,
        height: 40,
    };

    let normalized = normalize_native_region_for_target(&selected_region, &target)
        .expect("la region debe ajustarse al borde");

    assert_eq!(normalized.x, 1910);
    assert_eq!(normalized.y, 1075);
    assert_eq!(normalized.width, 10);
    assert_eq!(normalized.height, 5);
}

#[test]
fn rechaza_target_con_dimensiones_invalidas() {
    let target = monitor_target(1920, 1080, 0, 1080);
    let selected_region = Region {
        x: 0,
        y: 0,
        width: 10,
        height: 10,
    };

    let err = normalize_native_region_for_target(&selected_region, &target)
        .expect_err("debe fallar cuando el target es invalido");

    assert!(err.contains("dimensiones invalidas"));
}

#[test]
fn rechaza_seleccion_sin_area() {
    let target = monitor_target(1920, 1080, 1920, 1080);
    let selected_region = Region {
        x: 10,
        y: 10,
        width: 0,
        height: 5,
    };

    let err = normalize_native_region_for_target(&selected_region, &target)
        .expect_err("debe fallar cuando la seleccion es vacia");

    assert!(err.contains("area valida"));
}
