use capturist::audio::{AudioTrackInput, AudioTrackSource};
use capturist::config::{OutputFormat, QualityMode};
use capturist::dsp::{build_mix_filter, build_single_track_filter, format_mic_gain};
use capturist::mux::{
    build_mux_args, cap_delay_ms, make_video_only_path, parse_sync_offset,
    should_bypass_single_track_filter, should_enable_mp4_faststart, timestamp_to_ms,
    with_added_delay,
};

fn system_track(delay_ms: u64) -> AudioTrackInput {
    AudioTrackInput {
        path: "system.wav".to_string(),
        delay_ms,
        source: AudioTrackSource::System,
    }
}

fn mic_track(delay_ms: u64) -> AudioTrackInput {
    AudioTrackInput {
        path: "mic.wav".to_string(),
        delay_ms,
        source: AudioTrackSource::Microphone,
    }
}

#[test]
fn bypass_single_track_filter_para_sistema_sin_delay_en_modos_rapidos() {
    let track = system_track(0);
    assert!(should_bypass_single_track_filter(
        &track,
        100,
        &QualityMode::Performance
    ));
    assert!(should_bypass_single_track_filter(
        &track,
        100,
        &QualityMode::Balanced
    ));
}

#[test]
fn no_bypass_single_track_filter_con_delay_o_modo_quality() {
    let delayed = system_track(120);
    assert!(!should_bypass_single_track_filter(
        &delayed,
        100,
        &QualityMode::Balanced
    ));

    let no_delay = system_track(0);
    assert!(!should_bypass_single_track_filter(
        &no_delay,
        100,
        &QualityMode::Quality
    ));
}

#[test]
fn ganancia_de_microfono_se_escribe_como_decimal_recortado() {
    assert_eq!(format_mic_gain(100), "1");
    assert_eq!(format_mic_gain(150), "1.5");
    assert_eq!(format_mic_gain(105), "1.05");
    assert_eq!(format_mic_gain(0), "0");
    assert_eq!(format_mic_gain(401), "4.01");
    assert_eq!(format_mic_gain(5000), "16");
}

#[test]
fn filtro_de_pista_unica_compone_los_segmentos() {
    // System, no delay, performance: nothing to do at all.
    assert_eq!(
        build_single_track_filter(&system_track(0), 100, &QualityMode::Performance),
        None
    );

    // Balanced adds resync plus the system DSP chain.
    assert_eq!(
        build_single_track_filter(&system_track(0), 100, &QualityMode::Balanced).unwrap(),
        "aresample=async=1:first_pts=0,asetpts=PTS-STARTPTS,highpass=f=80,lowpass=f=14000"
    );

    // A delayed microphone in balanced mode gets delay, band-pass and gain.
    assert_eq!(
        build_single_track_filter(&mic_track(120), 150, &QualityMode::Balanced).unwrap(),
        "aresample=async=1:first_pts=0,asetpts=PTS-STARTPTS,adelay=120|120,highpass=f=120,lowpass=f=9000,volume=1.5,highpass=f=80,lowpass=f=14000"
    );
}

#[test]
fn grafo_de_mezcla_para_dos_pistas() {
    let tracks = vec![system_track(0), mic_track(200)];
    let graph = build_mix_filter(&tracks, 100, &QualityMode::Performance);
    assert_eq!(
        graph,
        "[1:a]anull[a1];[2:a]aresample=async=1:first_pts=0,asetpts=PTS-STARTPTS,adelay=200|200[a2];[a1][a2]amix=inputs=2:normalize=0:dropout_transition=2[mix];[mix]anull[aout]"
    );
}

#[test]
fn argumentos_de_mux_para_una_pista_con_bypass() {
    let tracks = vec![system_track(0)];
    let args = build_mux_args(
        &OutputFormat::Mp4,
        &QualityMode::Balanced,
        "video.video_only.mp4",
        "video.mp4",
        &tracks,
        100,
        false,
    );
    let expected: Vec<&str> = vec![
        "-y",
        "-hide_banner",
        "-loglevel",
        "error",
        "-threads",
        "0",
        "-i",
        "video.video_only.mp4",
        "-i",
        "system.wav",
        "-map",
        "0:v:0",
        "-map",
        "1:a:0",
        "-c:v",
        "copy",
        "-shortest",
        "-c:a",
        "aac",
        "-b:a",
        "160k",
        "video.mp4",
    ];
    let got: Vec<String> = args;
    assert_eq!(got, expected);
}

#[test]
fn argumentos_de_mux_webm_usan_opus() {
    let tracks = vec![mic_track(0)];
    let args = build_mux_args(
        &OutputFormat::WebM,
        &QualityMode::Performance,
        "rec.video_only.webm",
        "rec.webm",
        &tracks,
        100,
        false,
    );
    assert!(args.contains(&"libopus".to_string()));
    assert!(args.contains(&"128k".to_string()));
    assert!(args.contains(&"-af".to_string()));
}

#[test]
fn ruta_video_only_conserva_carpeta_y_extension() {
    assert_eq!(
        make_video_only_path("C:\\out\\recording.mp4"),
        "C:\\out\\recording.video_only.mp4"
    );
    assert_eq!(
        make_video_only_path("video.tmp.mp4"),
        "video.tmp.video_only.mp4"
    );
    assert_eq!(make_video_only_path("sinext"), "sinext.video_only.mp4");
    assert_eq!(make_video_only_path(""), "recording.video_only.mp4");
}

#[test]
fn desfase_de_sincronizacion_se_parsea_y_capa() {
    assert_eq!(parse_sync_offset(None), 0);
    assert_eq!(parse_sync_offset(Some(" 250 ")), 250);
    assert_eq!(parse_sync_offset(Some("5000")), 1000);
    assert_eq!(parse_sync_offset(Some("abc")), 0);
    assert_eq!(cap_delay_ms(2500), 1000);

    assert!(should_enable_mp4_faststart(Some("1")));
    assert!(should_enable_mp4_faststart(Some(" TRUE ")));
    assert!(!should_enable_mp4_faststart(Some("no")));
    assert!(!should_enable_mp4_faststart(None));
}

#[test]
fn timestamps_y_delays_adicionales() {
    assert_eq!(timestamp_to_ms(90000, 1, 90000), Some(1000));
    assert_eq!(timestamp_to_ms(-5, 1, 1000), None);
    assert_eq!(timestamp_to_ms(5, 0, 1000), None);

    let t = with_added_delay(&system_track(100), 250);
    assert_eq!(t.delay_ms, 350);
    assert_eq!(t.path, "system.wav");
}
