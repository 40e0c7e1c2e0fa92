use capturist::models::{CaptureTarget, TargetKind};
use capturist::provider::{
    format_monitor_label, normalize_display_device_name, should_exclude_window_process,
    should_exclude_window_title, sort_targets, stable_target_id, MONITOR_SALT, WINDOW_SALT,
};

fn target(id: u32, name: &str, is_primary: bool, kind: TargetKind) -> CaptureTarget {
    CaptureTarget {
        id,
        name: name.to_string(),
        width: 100,
        height: 100,
        origin_x: 0,
        origin_y: 0,
        screen_width: 100,
        screen_height: 100,
        is_primary,
        kind,
    }
}

#[test]
fn ordena_monitores_antes_que_ventanas_y_prioriza_monitor_principal() {
    let targets = vec![
        target(4, "Ventana Z", false, TargetKind::Window),
        target(2, "Monitor secundario", false, TargetKind::Monitor),
        target(1, "Monitor principal", true, TargetKind::Monitor),
    ];

    let sorted = sort_targets(targets);

    assert_eq!(sorted[0].kind, TargetKind::Monitor);
    assert!(sorted[0].is_primary);
    assert_eq!(sorted[1].kind, TargetKind::Monitor);
    assert_eq!(sorted[2].kind, TargetKind::Window);
}

#[test]
fn ordena_por_nombre_sin_distinguir_mayusculas_y_luego_por_id() {
    let targets = vec![
        target(9, "beta", false, TargetKind::Monitor),
        target(3, "Alfa", false, TargetKind::Monitor),
        target(2, "alfa", false, TargetKind::Monitor),
    ];

    let sorted = sort_targets(targets);

    assert_eq!(sorted[0].id, 2);
    assert_eq!(sorted[1].id, 3);
    assert_eq!(sorted[2].id, 9);
}

#[test]
fn filtra_titulos_de_windows_input_experience() {
    assert!(should_exclude_window_title("Windows Input Experience"));
    assert!(should_exclude_window_title("Experiencia de entrada de Windows"));
    assert!(!should_exclude_window_title("Visual Studio Code"));
}

#[test]
fn filtra_procesos_de_shell_del_sistema() {
    assert!(should_exclude_window_process("TextInputHost.exe"));
    assert!(should_exclude_window_process("SearchHost.exe"));
    assert!(!should_exclude_window_process("obs64.exe"));
}

#[test]
fn normaliza_display_name() {
    assert_eq!(normalize_display_device_name(r"\\.\DISPLAY1"), "DISPLAY1");
}

#[test]
fn etiqueta_monitor_principal_incluye_display() {
    let label = format_monitor_label("Generic Monitor", Some(r"\\.\DISPLAY1"), true);
    assert!(label.contains("Principal"));
    assert!(label.contains("DISPLAY1"));
}

#[test]
fn etiqueta_sin_partes_cae_en_monitor() {
    assert_eq!(format_monitor_label("   ", None, false), "Monitor");
}

#[test]
fn id_estable_es_fijo_y_no_nulo() {
    let id = stable_target_id(0x1234, MONITOR_SALT);
    assert_eq!(id, 1976969595);
    assert_ne!(id, 0);
    assert_eq!(id, stable_target_id(0x1234, MONITOR_SALT));

    let window_id = stable_target_id(0x1234, WINDOW_SALT);
    assert_eq!(window_id, 3713588100);
    assert_ne!(window_id, id);
}

use capturist::provider::{
    assemble_targets, MonitorDescriptor, MonitorGeometry, WindowDescriptor, WindowRect,
};

fn monitor(handle: u64, name: &str, primary: bool) -> MonitorDescriptor {
    MonitorDescriptor {
        handle,
        name: Some(name.to_string()),
        device_name: None,
        info: Some(MonitorGeometry {
            origin_x: 0,
            origin_y: 0,
            width: 1920,
            height: 1080,
            is_primary: primary,
        }),
        width: Some(1920),
        height: Some(1080),
    }
}

fn window(handle: u64, title: Option<&str>, process: &str) -> WindowDescriptor {
    WindowDescriptor {
        handle,
        title: title.map(|t| t.to_string()),
        rect: Some(WindowRect {
            left: 10,
            top: 20,
            right: 700,
            bottom: 500,
        }),
        minimized: false,
        cloaked: false,
        has_monitor: true,
        process_name: Some(process.to_string()),
    }
}

#[test]
fn ensambla_targets_filtrando_y_ordenando() {
    let monitors = vec![monitor(1, "Pantalla", true)];
    let windows = vec![
        window(10, Some("Editor"), "code.exe"),
        window(11, Some("Windows Input Experience"), "other.exe"),
        window(12, None, "code.exe"),
        window(13, Some("Shell"), "TextInputHost.exe"),
        window(14, Some("   "), "code.exe"),
    ];

    let targets = assemble_targets(&monitors, &windows, Some(1)).unwrap();
    assert_eq!(targets.len(), 2);
    assert_eq!(targets[0].kind, TargetKind::Monitor);
    assert!(targets[0].is_primary);
    assert!(targets[0].name.contains("Principal"));
    assert_eq!(targets[1].kind, TargetKind::Window);
    assert_eq!(targets[1].name, "Editor");
    assert_eq!(targets[1].width, 690);
    assert_eq!(targets[1].height, 480);
    assert_ne!(targets[1].id, 0);
}

#[test]
fn ensambla_targets_sin_fuentes_da_error() {
    let monitors: Vec<MonitorDescriptor> = Vec::new();
    let windows = vec![window(20, Some("Min"), "code.exe")];
    let mut minimized = windows;
    minimized[0].minimized = true;

    let err = assemble_targets(&monitors, &minimized, None).unwrap_err();
    assert!(err.contains("No se encontraron fuentes de captura"));
}

#[test]
fn ventanas_pequenas_quedan_fuera() {
    let monitors: Vec<MonitorDescriptor> = Vec::new();
    let mut small = window(30, Some("Mini"), "code.exe");
    small.rect = Some(WindowRect {
        left: 0,
        top: 0,
        right: 63,
        bottom: 200,
    });
    let err = assemble_targets(&monitors, &vec![small], None).unwrap_err();
    assert!(err.contains("fuentes de captura"));
}
