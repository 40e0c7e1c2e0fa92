use capturist::shortcuts::{
    can_emit_now, evaluate_combo_state, is_key_state_down, parse_bindings, parse_shortcut,
    parse_virtual_key, shortcut_should_emit, validate_bindings_shape,
    was_key_pressed_since_last_poll, ParsedShortcut, ShortcutBindings, MOD_ALT, MOD_CONTROL,
    MOD_SHIFT, MOD_WIN,
};

fn bindings(start: &str, pause_resume: &str, stop: &str) -> ShortcutBindings {
    ShortcutBindings {
        start: start.to_string(),
        pause_resume: pause_resume.to_string(),
        stop: stop.to_string(),
    }
}

#[test]
fn valida_atajos_distintos_y_no_vacios() {
    let b = bindings("Ctrl+Alt+R", "Ctrl+Alt+P", "Ctrl+Alt+S");
    assert!(validate_bindings_shape(&b).is_ok());
}

#[test]
fn rechaza_atajos_vacios() {
    let b = bindings(" ", "Ctrl+Alt+P", "Ctrl+Alt+S");
    let err = validate_bindings_shape(&b).expect_err("debio fallar por atajo vacio");
    assert!(err.contains("combinación válida"));
}

#[test]
fn rechaza_atajos_duplicados_sin_importar_mayusculas() {
    let b = bindings("Ctrl+Alt+R", "ctrl+alt+r", "Ctrl+Alt+S");
    let err = validate_bindings_shape(&b).expect_err("debio fallar por atajos duplicados");
    assert!(err.contains("atajo distinto"));
}

#[test]
fn parsea_atajos_con_modificadores_y_tecla() {
    let p = parse_shortcut("Ctrl+Alt+R").unwrap();
    assert_eq!(p.modifiers, MOD_CONTROL | MOD_ALT);
    assert_eq!(p.vk, 'R' as u32);

    let p = parse_shortcut("shift+F5").unwrap();
    assert_eq!(p.modifiers, MOD_SHIFT);
    assert_eq!(p.vk, 0x70 + 4);

    let p = parse_shortcut(" space ").unwrap();
    assert_eq!(p.modifiers, 0);
    assert_eq!(p.vk, 0x20);

    assert!(parse_shortcut("").is_err());
    assert!(parse_shortcut("Ctrl+Alt").is_err());
    assert!(parse_shortcut("Ctrl+R+S").is_err());
    assert!(parse_shortcut("Ctrl+F99").is_err());
}

#[test]
fn parsea_teclas_virtuales_sueltas() {
    assert_eq!(parse_virtual_key("a").unwrap(), 'A' as u32);
    assert_eq!(parse_virtual_key("7").unwrap(), '7' as u32);
    assert_eq!(parse_virtual_key("Enter").unwrap(), 0x0D);
    assert_eq!(parse_virtual_key("ESC").unwrap(), 0x1B);
    assert_eq!(parse_virtual_key("F24").unwrap(), 0x70 + 23);
    let err = parse_virtual_key("Hyper").unwrap_err();
    assert!(err.contains("Tecla no soportada"));
    assert!(err.contains("Hyper"));
}

#[test]
fn parse_bindings_rechaza_atajos_identicos_tras_parsear() {
    let ok = parse_bindings(&bindings("Ctrl+Alt+R", "Ctrl+Alt+P", "Ctrl+Alt+S")).unwrap();
    assert_eq!(ok.len(), 3);

    let err = parse_bindings(&bindings("Ctrl+Alt+R", "control+alt+r", "Ctrl+Alt+S"))
        .expect_err("el mismo atajo parseado debe rechazarse");
    assert!(err.contains("duplicado"));
}

#[test]
fn decision_de_disparo_respeta_el_cooldown() {
    assert!(can_emit_now(None, 220));
    assert!(can_emit_now(Some(220), 220));
    assert!(!can_emit_now(Some(219), 220));

    assert!(is_key_state_down(0x8000));
    assert!(!is_key_state_down(0x0001));
    assert!(was_key_pressed_since_last_poll(0x8001));

    assert!(shortcut_should_emit(true, false, false, None, 220));
    assert!(shortcut_should_emit(false, true, true, Some(400), 220));
    assert!(!shortcut_should_emit(true, false, true, None, 220));
    assert!(!shortcut_should_emit(true, true, false, Some(10), 220));
}

#[test]
fn estado_de_combo_respeta_los_modificadores() {
    let p = ParsedShortcut {
        modifiers: MOD_CONTROL | MOD_ALT,
        vk: 'R' as u32,
    };
    assert_eq!(evaluate_combo_state(&p, 0x8000, true, true, false, false), (true, false));
    assert_eq!(evaluate_combo_state(&p, 0x8001, true, true, false, false), (true, true));
    // A missing required modifier vetoes the combination.
    assert_eq!(evaluate_combo_state(&p, 0x8000, false, true, false, false), (false, false));
    // The main key not touched at all: nothing to report.
    assert_eq!(evaluate_combo_state(&p, 0x0000, true, true, true, true), (false, false));

    let win_only = ParsedShortcut {
        modifiers: MOD_WIN,
        vk: 0x20,
    };
    assert_eq!(evaluate_combo_state(&win_only, 0x0001, false, false, false, true), (false, true));
}
