use capturist::models::{CaptureTarget, Region, TargetKind};
use capturist::region::{
    expand_rect, has_area, rect_intersection, select_region, selection_large_enough,
    selection_to_region, update_rect, OverlayRect,
};

#[test]
fn select_region_fuera_de_windows_devuelve_error_de_plataforma() {
    let err = select_region().expect_err("fuera de windows debe devolver error controlado");
    assert!(err.contains("Windows"));
}

#[test]
fn el_arrastre_define_el_rectangulo() {
    let rect = update_rect(100, 200, 40, 260);
    assert_eq!(rect.left, 40);
    assert_eq!(rect.top, 200);
    assert_eq!(rect.right, 100);
    assert_eq!(rect.bottom, 260);
    assert!(has_area(&rect));

    let empty = update_rect(5, 5, 5, 5);
    assert!(!has_area(&empty));
}

#[test]
fn interseccion_y_expansion_de_rectangulos() {
    let a = OverlayRect {
        left: 0,
        top: 0,
        right: 100,
        bottom: 100,
    };
    let b = OverlayRect {
        left: 50,
        top: 60,
        right: 150,
        bottom: 160,
    };
    let i = rect_intersection(&a, &b).unwrap();
    assert_eq!((i.left, i.top, i.right, i.bottom), (50, 60, 100, 100));

    let c = OverlayRect {
        left: 200,
        top: 200,
        right: 300,
        bottom: 300,
    };
    assert!(rect_intersection(&a, &c).is_none());

    let e = expand_rect(&a, 3);
    assert_eq!((e.left, e.top, e.right, e.bottom), (-3, -3, 103, 103));
}

#[test]
fn seleccion_minima_y_conversion_a_region() {
    let small = OverlayRect {
        left: 0,
        top: 0,
        right: 4,
        bottom: 10,
    };
    assert!(!selection_large_enough(&small));

    let ok = OverlayRect {
        left: 10,
        top: 20,
        right: 110,
        bottom: 90,
    };
    assert!(selection_large_enough(&ok));

    let region = selection_to_region(-1920, 0, &ok);
    assert_eq!(region.x, 0);
    assert_eq!(region.y, 20);
    assert_eq!(region.width, 100);
    assert_eq!(region.height, 70);
}

#[test]
fn validacion_de_region_es_exacta() {
    let target = CaptureTarget {
        id: 1,
        name: "Monitor".to_string(),
        width: 1920,
        height: 1080,
        origin_x: 0,
        origin_y: 0,
        screen_width: 1920,
        screen_height: 1080,
        is_primary: true,
        kind: TargetKind::Monitor,
    };

    let fits = Region {
        x: 100,
        y: 100,
        width: 800,
        height: 600,
    };
    assert!(fits.validate_against_target(&target).is_ok());

    let edge = Region {
        x: 1120,
        y: 480,
        width: 800,
        height: 600,
    };
    assert!(edge.validate_against_target(&target).is_ok());

    let empty = Region {
        x: 0,
        y: 0,
        width: 0,
        height: 10,
    };
    assert!(empty
        .validate_against_target(&target)
        .unwrap_err()
        .contains("mayores a 0"));

    let wide = Region {
        x: 1910,
        y: 0,
        width: 80,
        height: 40,
    };
    let err = wide.validate_against_target(&target).unwrap_err();
    assert!(err.contains("excede el ancho del target"));
    assert!(err.contains("1910") && err.contains("80") && err.contains("1920"));

    let tall = Region {
        x: 0,
        y: 1075,
        width: 80,
        height: 40,
    };
    assert!(tall
        .validate_against_target(&target)
        .unwrap_err()
        .contains("excede el alto del target"));
}
