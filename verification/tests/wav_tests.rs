use capturist::audio::{
    get_live_audio_status_slot, update_live_audio_capture_slot, AudioTrackState,
    LiveAudioController,
};
use capturist::text::{u32_to_string, u64_to_string};
use capturist::wav::{wav_header_bytes, wav_size_patch, wave_format_sizes};

#[test]
fn cabecera_wav_con_tamanos_en_cero() {
    let blob: Vec<u8> = vec![1, 0, 2, 0, 0x80, 0xBB, 0, 0, 0, 0xEE, 2, 0, 4, 0, 16, 0, 0, 0];
    let header = wav_header_bytes(&blob);
    assert_eq!(header.len(), 28 + blob.len());
    assert_eq!(&header[0..4], b"RIFF");
    assert_eq!(&header[4..8], &[0, 0, 0, 0]);
    assert_eq!(&header[8..12], b"WAVE");
    assert_eq!(&header[12..16], b"fmt ");
    assert_eq!(&header[16..20], &[18, 0, 0, 0]);
    assert_eq!(&header[20..38], blob.as_slice());
    assert_eq!(&header[38..42], b"data");
    assert_eq!(&header[42..46], &[0, 0, 0, 0]);
}

#[test]
fn parche_de_tamanos_al_cerrar() {
    assert_eq!(wav_size_patch(1044, 1000), (1036, 1000));
    assert_eq!(wav_size_patch(4, 0), (0, 0));
    assert_eq!(wav_size_patch(100, u64::MAX), (92, u32::MAX));
}

#[test]
fn formato_wasapi_valido_e_invalido() {
    let mut header = vec![0u8; 18];
    header[12] = 4; // block align
    header[16] = 22; // cb size
    assert_eq!(wave_format_sizes(&header).unwrap(), (40, 4));

    let mut zero_align = vec![0u8; 18];
    zero_align[16] = 0;
    let err = wave_format_sizes(&zero_align).unwrap_err();
    assert!(err.contains("block_align = 0"));

    let mut huge = vec![0u8; 18];
    huge[12] = 4;
    huge[16] = 0xFF;
    huge[17] = 0x20; // cb = 0x20FF
    let err = wave_format_sizes(&huge).unwrap_err();
    assert!(err.contains("demasiado grande"));
    assert!(err.contains("8465"));
}

#[test]
fn numeros_en_decimal() {
    assert_eq!(u64_to_string(0), "0");
    assert_eq!(u64_to_string(907), "907");
    assert_eq!(u64_to_string(u64::MAX), "18446744073709551615");
    assert_eq!(u32_to_string(120), "120");
}

#[test]
fn controlador_de_audio_en_vivo() {
    let mut slot: Option<LiveAudioController> = None;
    let err = update_live_audio_capture_slot(&mut slot, true, false).unwrap_err();
    assert!(err.contains("No hay una grabación activa"));

    slot = Some(LiveAudioController {
        system: Some(AudioTrackState::new(true)),
        microphone: None,
        system_device_name: Some("Altavoces".to_string()),
        microphone_device_name: None,
    });

    let err = update_live_audio_capture_slot(&mut slot, true, true).unwrap_err();
    assert!(err.contains("micrófono"));

    update_live_audio_capture_slot(&mut slot, false, false).unwrap();
    let status = get_live_audio_status_slot(&slot);
    assert!(!status.capture_system_audio);
    assert!(!status.capture_microphone_audio);
    assert_eq!(status.system_audio_device_name.unwrap(), "Altavoces");

    update_live_audio_capture_slot(&mut slot, true, false).unwrap();
    let status = get_live_audio_status_slot(&slot);
    assert!(status.capture_system_audio);
}

use capturist::text::parse_u64;

#[test]
fn parseo_de_numerales_u64() {
    assert_eq!(parse_u64("0"), Some(0));
    assert_eq!(parse_u64("+42"), Some(42));
    assert_eq!(parse_u64("18446744073709551615"), Some(u64::MAX));
    assert_eq!(parse_u64("18446744073709551616"), None);
    assert_eq!(parse_u64(""), None);
    assert_eq!(parse_u64("+"), None);
    assert_eq!(parse_u64("4a"), None);
}
