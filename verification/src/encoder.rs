//! The video encoder worker's decision core: lazy initialization planning
//! (output size, candidate backends, per-backend options), strictly
//! monotone presentation timestamps, and the open-at-most-once lifecycle
//! coupled to the live status label.

use vstd::prelude::*;

use crate::config::{
    EncoderConfig, EncoderPreset, OutputFormat, QualityMode, VideoCodec, VideoEncoderPreference,
    config_valid, spec_dimensions, spec_effective_codec,
};
use crate::status::LiveStatus;
use crate::text::{dec_seq, has_sub, str_has_sub, u32_to_string};

verus! {

/// Which encoder backends can be opened on this machine. On this portable
/// build no FFmpeg backend is present, so none can.
#[derive(Debug, Clone, Copy, PartialEq, Eq, Structural)]
pub struct VideoEncoderCapabilities {
    pub nvenc: bool,
    pub amf: bool,
    pub qsv: bool,
    pub software: bool,
}

impl Default for VideoEncoderCapabilities {
    fn default() -> (r: Self)
        ensures
            !r.nvenc && !r.amf && !r.qsv && !r.software,
    {
        VideoEncoderCapabilities { nvenc: false, amf: false, qsv: false, software: false }
    }
}

/// Probes the encoder backends. Without the FFmpeg libraries nothing can
/// be opened, so every capability is reported absent.
pub fn detect_video_encoder_capabilities() -> (r: VideoEncoderCapabilities)
    ensures
        !r.nvenc && !r.amf && !r.qsv && !r.software,
{
    VideoEncoderCapabilities { nvenc: false, amf: false, qsv: false, software: false }
}

/// `v` clamped into `[lo, hi]`.
pub open spec fn clamp_int(v: int, lo: int, hi: int) -> int {
    if v < lo {
        lo
    } else if v > hi {
        hi
    } else {
        v
    }
}

/// The keyframe interval: two seconds of frames, kept between 30 and 300.
pub open spec fn gop_spec(fps: u32) -> int {
    clamp_int(2 * clamp_int(fps as int, 1, 240), 30, 300)
}

pub fn recommended_gop_frames(fps: u32) -> (r: u32)
    ensures
        r == gop_spec(fps),
{
    let safe_fps: u32 = if fps < 1 {
        1
    } else if fps > 240 {
        240
    } else {
        fps
    };
    let doubled = safe_fps * 2;
    if doubled < 30 {
        30
    } else if doubled > 300 {
        300
    } else {
        doubled
    }
}

/// Bits-per-pixel in thousandths, by quality mode.
pub open spec fn bpp_milli(mode: QualityMode) -> int {
    match mode {
        QualityMode::Performance => 55,
        QualityMode::Balanced => 75,
        QualityMode::Quality => 100,
    }
}

/// Codec efficiency factor in hundredths.
pub open spec fn codec_factor_centi(codec: VideoCodec) -> int {
    match codec {
        VideoCodec::H264 => 100,
        VideoCodec::H265 => 72,
        VideoCodec::Vp9 => 68,
    }
}

/// The target bitrate in kbit/s:
/// `⌊w·h·fps·bpp·codec_factor / 1000⌋` clamped into `[2500, 80000]`,
/// with the frame rate clamped into `[1, 240]` first.
pub open spec fn target_bitrate_spec(
    width: u32,
    height: u32,
    fps: u32,
    codec: VideoCodec,
    mode: QualityMode,
) -> int {
    let px = width * height * clamp_int(fps as int, 1, 240);
    clamp_int(px * bpp_milli(mode) * codec_factor_centi(codec) / 100000000, 2500, 80000)
}

pub fn estimate_target_bitrate_kbps(
    width: u32,
    height: u32,
    fps: u32,
    codec: &VideoCodec,
    quality_mode: &QualityMode,
) -> (r: u32)
    ensures
        r == target_bitrate_spec(width, height, fps, *codec, *quality_mode),
{
    let safe_fps: u32 = if fps < 1 {
        1
    } else if fps > 240 {
        240
    } else {
        fps
    };
    let bpp: u128 = match quality_mode {
        QualityMode::Performance => 55,
        QualityMode::Balanced => 75,
        QualityMode::Quality => 100,
    };
    let factor: u128 = match codec {
        VideoCodec::H264 => 100,
        VideoCodec::H265 => 72,
        VideoCodec::Vp9 => 68,
    };
    proof {
        vstd::arithmetic::mul::lemma_mul_upper_bound(
            width as int,
            0xFFFF_FFFF,
            height as int,
            0xFFFF_FFFF,
        );
        vstd::arithmetic::mul::lemma_mul_upper_bound(
            (width as int) * (height as int),
            0xFFFF_FFFFint * 0xFFFF_FFFF,
            safe_fps as int,
            240,
        );
        vstd::arithmetic::mul::lemma_mul_upper_bound(
            (width as int) * (height as int) * (safe_fps as int),
            0xFFFF_FFFFint * 0xFFFF_FFFF * 240,
            bpp as int,
            100,
        );
        vstd::arithmetic::mul::lemma_mul_upper_bound(
            (width as int) * (height as int) * (safe_fps as int) * (bpp as int),
            0xFFFF_FFFFint * 0xFFFF_FFFF * 240 * 100,
            factor as int,
            100,
        );
    }
    let px: u128 = (width as u128) * (height as u128) * (safe_fps as u128);
    let raw: u128 = px * bpp * factor / 100000000;
    if raw < 2500 {
        2500
    } else if raw > 80000 {
        80000
    } else {
        raw as u32
    }
}

/// The next presentation timestamp: the frame's relative time, pushed past
/// the previous timestamp when it would not move forward.
pub open spec fn next_pts_spec(last_pts: i64, rel_ts_ms: i64) -> i64 {
    if rel_ts_ms <= last_pts {
        (last_pts + 1) as i64
    } else {
        rel_ts_ms
    }
}

/// The stream of presentation timestamps is strictly increasing: whatever
/// relative time a frame carries, its timestamp exceeds the previous one.
pub proof fn lemma_pts_strictly_increasing(last_pts: i64, rel_ts_ms: i64)
    requires
        last_pts < i64::MAX,
    ensures
        next_pts_spec(last_pts, rel_ts_ms) > last_pts,
{
}

/// The lifecycle phase of the encoder.
#[derive(Debug, Clone, Copy, PartialEq, Eq, Structural)]
pub enum EncoderPhase {
    Uninitialized,
    Initialized,
    Closed,
}

/// The encoder worker's state: its phase, the pacing state, and a count
/// of how many times an encoder was actually opened.
#[derive(Debug)]
pub struct EncoderCore {
    pub phase: EncoderPhase,
    pub first_timestamp_ms: Option<u64>,
    pub last_pts: i64,
    pub opened_count: u32,
}

/// The lifecycle invariant: before initialization nothing was opened and
/// no pacing state exists; afterwards exactly one encoder was opened; a
/// closed worker opened at most one in its lifetime.
pub open spec fn encoder_wf(c: EncoderCore) -> bool {
    match c.phase {
        EncoderPhase::Uninitialized => c.opened_count == 0 && c.first_timestamp_ms is None
            && c.last_pts == -1,
        EncoderPhase::Initialized => c.opened_count == 1,
        EncoderPhase::Closed => c.opened_count <= 1,
    }
}

/// The encoder is opened at most once per session: every reachable state
/// carries at most one open.
pub proof fn lemma_encoder_opens_at_most_once(c: EncoderCore)
    requires
        encoder_wf(c),
    ensures
        c.opened_count <= 1,
{
}

impl EncoderCore {
    /// A fresh worker for a validated configuration. The live encoder
    /// label is cleared: nothing is open yet.
    pub fn new(config: &EncoderConfig, status: &mut LiveStatus) -> (r: Result<EncoderCore, String>)
        ensures
            r is Ok <==> config_valid(*config),
            r matches Ok(c) ==> {
                &&& c.phase == EncoderPhase::Uninitialized
                &&& encoder_wf(c)
                &&& final(status).encoder_label is None
            },
            final(status).processing_jobs == old(status).processing_jobs,
            final(status).processing_override == old(status).processing_override,
    {
        match config.validate() {
            Ok(()) => {},
            Err(e) => {
                return Err(e);
            },
        }
        status.set_live_video_encoder_label(None);
        Ok(
            EncoderCore {
                phase: EncoderPhase::Uninitialized,
                first_timestamp_ms: None,
                last_pts: -1,
                opened_count: 0,
            },
        )
    }

    /// An encoder opened successfully: the phase advances — this is the
    /// only transition that opens — and the live label is set to the
    /// backend and codec actually opened, exactly now.
    pub fn mark_initialized(&mut self, status: &mut LiveStatus, backend_label: &str, codec_label: &str)
        requires
            encoder_wf(*old(self)),
            old(self).phase == EncoderPhase::Uninitialized,
        ensures
            encoder_wf(*final(self)),
            final(self).phase == EncoderPhase::Initialized,
            final(self).opened_count == old(self).opened_count + 1,
            final(self).first_timestamp_ms == old(self).first_timestamp_ms,
            final(self).last_pts == old(self).last_pts,
            final(status).encoder_label matches Some(l) && l@ == backend_label@ + " / "@
                + codec_label@,
            final(status).processing_jobs == old(status).processing_jobs,
            final(status).processing_override == old(status).processing_override,
    {
        self.phase = EncoderPhase::Initialized;
        self.opened_count = self.opened_count + 1;
        let mut label = String::from_str(backend_label);
        label.append(" / ");
        label.append(codec_label);
        status.set_live_video_encoder_label(Some(label));
    }

    /// Assigns the presentation timestamp of one frame: its offset from
    /// the session's first frame, forced strictly past the previous one.
    pub fn assign_pts(&mut self, timestamp_ms: u64) -> (pts: i64)
        requires
            old(self).phase == EncoderPhase::Initialized,
            encoder_wf(*old(self)),
            old(self).last_pts < i64::MAX,
            timestamp_ms <= i64::MAX,
        ensures
            encoder_wf(*final(self)),
            final(self).phase == EncoderPhase::Initialized,
            final(self).opened_count == old(self).opened_count,
            final(self).first_timestamp_ms == Some(
                match old(self).first_timestamp_ms {
                    Some(f) => f,
                    None => timestamp_ms,
                },
            ),
            pts == next_pts_spec(
                old(self).last_pts,
                crate::manager::sat_sub(
                    timestamp_ms,
                    match old(self).first_timestamp_ms {
                        Some(f) => f,
                        None => timestamp_ms,
                    },
                ) as i64,
            ),
            pts > old(self).last_pts,
            final(self).last_pts == pts,
    {
        let first = match self.first_timestamp_ms {
            Some(f) => f,
            None => {
                self.first_timestamp_ms = Some(timestamp_ms);
                timestamp_ms
            },
        };
        let rel: u64 = timestamp_ms.saturating_sub(first);
        let rel_ts: i64 = rel as i64;
        let pts: i64 = if rel_ts <= self.last_pts {
            self.last_pts + 1
        } else {
            rel_ts
        };
        self.last_pts = pts;
        pts
    }

    /// The worker closes: the phase is terminal and the live label is
    /// cleared, exactly now.
    pub fn finalize(&mut self, status: &mut LiveStatus)
        requires
            encoder_wf(*old(self)),
        ensures
            encoder_wf(*final(self)),
            final(self).phase == EncoderPhase::Closed,
            final(self).opened_count == old(self).opened_count,
            final(status).encoder_label is None,
            final(status).processing_jobs == old(status).processing_jobs,
            final(status).processing_override == old(status).processing_override,
    {
        self.phase = EncoderPhase::Closed;
        status.set_live_video_encoder_label(None);
    }
}

/// The hardware candidates of a codec family, ordered by preference: the
/// preferred backend first, then the other two; all three under `Auto`;
/// none under `Software`.
pub open spec fn spec_hw_candidates(h265: bool, pref: VideoEncoderPreference) -> Seq<Seq<char>> {
    let nv: Seq<char> = if h265 {
        "hevc_nvenc"@
    } else {
        "h264_nvenc"@
    };
    let amf: Seq<char> = if h265 {
        "hevc_amf"@
    } else {
        "h264_amf"@
    };
    let qsv: Seq<char> = if h265 {
        "hevc_qsv"@
    } else {
        "h264_qsv"@
    };
    match pref {
        VideoEncoderPreference::Nvenc => seq![nv, amf, qsv],
        VideoEncoderPreference::Amf => seq![amf, nv, qsv],
        VideoEncoderPreference::Qsv => seq![qsv, nv, amf],
        VideoEncoderPreference::Software => Seq::empty(),
        VideoEncoderPreference::Auto => seq![nv, amf, qsv],
    }
}

/// The ordered encoder candidate list: hardware by preference, then the
/// software encoders when the input is not a GPU surface, then `mpeg4`
/// only as a last resort for an implicit H.264; VP9 has its fixed pair.
pub open spec fn spec_candidates(
    codec: VideoCodec,
    allow_fallback: bool,
    pref: VideoEncoderPreference,
    gpu_surface_only: bool,
) -> Seq<Seq<char>> {
    match codec {
        VideoCodec::H264 => {
            let hw = spec_hw_candidates(false, pref);
            if gpu_surface_only {
                hw
            } else if allow_fallback {
                hw + seq!["libx264"@, "h264"@, "mpeg4"@]
            } else {
                hw + seq!["libx264"@, "h264"@]
            }
        },
        VideoCodec::H265 => {
            let hw = spec_hw_candidates(true, pref);
            if gpu_surface_only {
                hw
            } else {
                hw + seq!["libx265"@, "hevc"@]
            }
        },
        VideoCodec::Vp9 => seq!["libvpx-vp9"@, "vp9"@],
    }
}

/// The view of a list of names.
pub open spec fn names_view(v: Seq<String>) -> Seq<Seq<char>> {
    v.map_values(|s: String| s@)
}

fn hw_candidates(h265: bool, pref: &VideoEncoderPreference) -> (r: Vec<String>)
    ensures
        names_view(r@) == spec_hw_candidates(h265, *pref),
{
    let mut v: Vec<String> = Vec::new();
    let nv = if h265 {
        "hevc_nvenc"
    } else {
        "h264_nvenc"
    };
    let amf = if h265 {
        "hevc_amf"
    } else {
        "h264_amf"
    };
    let qsv = if h265 {
        "hevc_qsv"
    } else {
        "h264_qsv"
    };
    match pref {
        VideoEncoderPreference::Nvenc | VideoEncoderPreference::Auto => {
            v.push(String::from_str(nv));
            v.push(String::from_str(amf));
            v.push(String::from_str(qsv));
        },
        VideoEncoderPreference::Amf => {
            v.push(String::from_str(amf));
            v.push(String::from_str(nv));
            v.push(String::from_str(qsv));
        },
        VideoEncoderPreference::Qsv => {
            v.push(String::from_str(qsv));
            v.push(String::from_str(nv));
            v.push(String::from_str(amf));
        },
        VideoEncoderPreference::Software => {},
    }
    assert(names_view(v@) =~= spec_hw_candidates(h265, *pref));
    v
}

/// The ordered candidate list, as data, for the open loop to walk.
pub fn encoder_candidates(
    codec: &VideoCodec,
    allow_fallback: bool,
    preference: &VideoEncoderPreference,
    gpu_surface_only: bool,
) -> (r: Vec<String>)
    ensures
        names_view(r@) == spec_candidates(*codec, allow_fallback, *preference, gpu_surface_only),
{
    match codec {
        VideoCodec::H264 => {
            let mut v = hw_candidates(false, preference);
            if !gpu_surface_only {
                v.push(String::from_str("libx264"));
                v.push(String::from_str("h264"));
                if allow_fallback {
                    v.push(String::from_str("mpeg4"));
                }
            }
            assert(names_view(v@) =~= spec_candidates(
                *codec,
                allow_fallback,
                *preference,
                gpu_surface_only,
            ));
            v
        },
        VideoCodec::H265 => {
            let mut v = hw_candidates(true, preference);
            if !gpu_surface_only {
                v.push(String::from_str("libx265"));
                v.push(String::from_str("hevc"));
            }
            assert(names_view(v@) =~= spec_candidates(
                *codec,
                allow_fallback,
                *preference,
                gpu_surface_only,
            ));
            v
        },
        VideoCodec::Vp9 => {
            let mut v: Vec<String> = Vec::new();
            v.push(String::from_str("libvpx-vp9"));
            v.push(String::from_str("vp9"));
            assert(names_view(v@) =~= spec_candidates(
                *codec,
                allow_fallback,
                *preference,
                gpu_surface_only,
            ));
            v
        },
    }
}

/// The human-readable backend behind an encoder name.
pub fn selected_backend_label(encoder_name: &str) -> (r: &'static str)
    ensures
        has_sub(encoder_name@, "nvenc"@) ==> r@ == "NVENC"@,
        (!has_sub(encoder_name@, "nvenc"@) && has_sub(encoder_name@, "_amf"@)) ==> r@ == "AMF"@,
        (!has_sub(encoder_name@, "nvenc"@) && !has_sub(encoder_name@, "_amf"@) && has_sub(
            encoder_name@,
            "_qsv"@,
        )) ==> r@ == "QSV"@,
        (!has_sub(encoder_name@, "nvenc"@) && !has_sub(encoder_name@, "_amf"@) && !has_sub(
            encoder_name@,
            "_qsv"@,
        )) ==> r@ == "CPU"@,
{
    if str_has_sub(encoder_name, "nvenc") {
        "NVENC"
    } else if str_has_sub(encoder_name, "_amf") {
        "AMF"
    } else if str_has_sub(encoder_name, "_qsv") {
        "QSV"
    } else {
        "CPU"
    }
}

/// The display name of a codec family.
pub fn selected_codec_label(codec: &VideoCodec) -> (r: &'static str)
    ensures
        codec == VideoCodec::H264 ==> r@ == "H.264"@,
        codec == VideoCodec::H265 ==> r@ == "H.265"@,
        codec == VideoCodec::Vp9 ==> r@ == "VP9"@,
{
    match codec {
        VideoCodec::H264 => "H.264",
        VideoCodec::H265 => "H.265",
        VideoCodec::Vp9 => "VP9",
    }
}

/// The view of a key/value option list.
pub open spec fn opts_view(v: Seq<(String, String)>) -> Seq<(Seq<char>, Seq<char>)> {
    v.map_values(|p: (String, String)| (p.0@, p.1@))
}

/// The constant-quality value NVENC is given, derived from the CRF by
/// quality mode.
pub open spec fn nvenc_cq_spec(crf: u32, mode: QualityMode) -> int {
    match mode {
        QualityMode::Performance => if crf + 5 < 36 {
            crf + 5
        } else {
            36
        },
        QualityMode::Balanced => if crf < 32 {
            crf as int
        } else {
            32
        },
        QualityMode::Quality => {
            let lowered = if crf >= 2 {
                crf - 2
            } else {
                0
            };
            if lowered > 14 {
                lowered
            } else {
                14
            }
        },
    }
}

/// Maxrate as a percentage of the target bitrate, by quality mode.
pub open spec fn maxrate_pct(mode: QualityMode) -> int {
    match mode {
        QualityMode::Performance => 100,
        QualityMode::Balanced => 125,
        QualityMode::Quality => 140,
    }
}

/// Buffer size as a percentage of the target bitrate, by quality mode.
pub open spec fn bufsize_pct(mode: QualityMode) -> int {
    match mode {
        QualityMode::Performance => 50,
        QualityMode::Balanced => 100,
        QualityMode::Quality => 130,
    }
}

/// A bitrate option value: the number followed by `k`.
pub open spec fn kbps_value(k: int) -> Seq<char> {
    dec_seq(k) + "k"@
}

/// The NVENC option set.
pub open spec fn spec_nvenc_options(mode: QualityMode, crf: u32, t: int, maxr: int, buf: int, gop: int) -> Seq<
    (Seq<char>, Seq<char>),
> {
    let preset: Seq<char> = match mode {
        QualityMode::Performance => "p3"@,
        QualityMode::Balanced => "p5"@,
        QualityMode::Quality => "p6"@,
    };
    let tune: Seq<char> = match mode {
        QualityMode::Performance => "ull"@,
        QualityMode::Balanced => "ll"@,
        QualityMode::Quality => "hq"@,
    };
    let head: Seq<(Seq<char>, Seq<char>)> = seq![
        ("preset"@, preset),
        (
            "rc"@,
            if mode == QualityMode::Performance {
                "cbr"@
            } else {
                "vbr"@
            },
        ),
    ];
    let head2: Seq<(Seq<char>, Seq<char>)> = if mode == QualityMode::Performance {
        head
    } else {
        head.push(("cq"@, dec_seq(nvenc_cq_spec(crf, mode))))
    };
    let mid: Seq<(Seq<char>, Seq<char>)> = head2 + seq![
        ("b:v"@, kbps_value(t)),
        ("maxrate"@, kbps_value(maxr)),
        ("bufsize"@, kbps_value(buf)),
        ("g"@, dec_seq(gop)),
        ("bf"@, "0"@),
        ("rc-lookahead"@, "0"@),
        ("tune"@, tune),
    ];
    if mode == QualityMode::Quality {
        mid + seq![("spatial_aq"@, "1"@), ("temporal_aq"@, "1"@), ("aq-strength"@, "8"@)]
    } else {
        mid + seq![("spatial_aq"@, "0"@), ("temporal_aq"@, "0"@)]
    }
}

/// The software x264/x265 option set.
pub open spec fn spec_libx_options(crf: u32, preset: EncoderPreset) -> Seq<(Seq<char>, Seq<char>)> {
    seq![
        ("crf"@, dec_seq(crf as int)),
        ("preset"@, preset.spec_as_str()),
        ("tune"@, "zerolatency"@),
    ]
}

/// The AMF option set.
pub open spec fn spec_amf_options(mode: QualityMode, t: int, maxr: int, buf: int, gop: int) -> Seq<
    (Seq<char>, Seq<char>),
> {
    let quality: Seq<char> = match mode {
        QualityMode::Performance => "speed"@,
        QualityMode::Balanced => "balanced"@,
        QualityMode::Quality => "quality"@,
    };
    let usage: Seq<char> = match mode {
        QualityMode::Performance => "ultralowlatency"@,
        QualityMode::Balanced => "lowlatency"@,
        QualityMode::Quality => "transcoding"@,
    };
    seq![
        ("quality"@, quality),
        ("usage"@, usage),
        ("rc"@, "cbr"@),
        ("b:v"@, kbps_value(t)),
        ("maxrate"@, kbps_value(maxr)),
        ("bufsize"@, kbps_value(buf)),
        ("g"@, dec_seq(gop)),
        ("bf"@, "0"@),
    ]
}

/// The QSV option set.
pub open spec fn spec_qsv_options(mode: QualityMode, crf: u32, gop: int) -> Seq<
    (Seq<char>, Seq<char>),
> {
    if mode == QualityMode::Performance {
        seq![
            ("low_power"@, "1"@),
            ("bf"@, "0"@),
            ("async_depth"@, "1"@),
            ("g"@, dec_seq(gop)),
        ]
    } else {
        let q: int = if crf < 40 {
            crf as int
        } else {
            40
        };
        seq![
            ("global_quality"@, dec_seq(q)),
            ("bf"@, "0"@),
            ("async_depth"@, "1"@),
            ("g"@, dec_seq(gop)),
        ]
    }
}

/// The VP9 option set.
pub open spec fn spec_vp9_options(crf: u32) -> Seq<(Seq<char>, Seq<char>)> {
    seq![
        ("crf"@, dec_seq(crf as int)),
        ("b"@, "0"@),
        ("deadline"@, "realtime"@),
        ("cpu-used"@, "8"@),
    ]
}

/// The complete option set an encoder candidate is opened with; each
/// family that the encoder name matches contributes its block, in order.
pub open spec fn spec_encoder_options(
    name: Seq<char>,
    codec: VideoCodec,
    mode: QualityMode,
    crf: u32,
    preset: EncoderPreset,
    fps: u32,
    out_w: u32,
    out_h: u32,
) -> Seq<(Seq<char>, Seq<char>)> {
    let t = target_bitrate_spec(out_w, out_h, fps, codec, mode);
    let maxr = t * maxrate_pct(mode) / 100;
    let buf = t * bufsize_pct(mode) / 100;
    let gop = gop_spec(fps);
    match codec {
        VideoCodec::H264 | VideoCodec::H265 => (if has_sub(name, "nvenc"@) {
            spec_nvenc_options(mode, crf, t, maxr, buf, gop)
        } else {
            Seq::empty()
        }) + (if crate::text::has_prefix(name, "libx26"@) {
            spec_libx_options(crf, preset)
        } else {
            Seq::empty()
        }) + (if has_sub(name, "_amf"@) {
            spec_amf_options(mode, t, maxr, buf, gop)
        } else {
            Seq::empty()
        }) + (if has_sub(name, "_qsv"@) {
            spec_qsv_options(mode, crf, gop)
        } else {
            Seq::empty()
        }),
        VideoCodec::Vp9 => if has_sub(name, "vp9"@) {
            spec_vp9_options(crf)
        } else {
            Seq::empty()
        },
    }
}

/// Whether any custom options apply to this encoder name under this codec.
pub open spec fn has_custom_options(name: Seq<char>, codec: VideoCodec) -> bool {
    match codec {
        VideoCodec::H264 | VideoCodec::H265 => has_sub(name, "nvenc"@) || crate::text::has_prefix(
            name,
            "libx26"@,
        ) || has_sub(name, "_amf"@) || has_sub(name, "_qsv"@),
        VideoCodec::Vp9 => has_sub(name, "vp9"@),
    }
}

fn push_opt(v: &mut Vec<(String, String)>, key: &'static str, val: String)
    ensures
        opts_view(final(v)@) == opts_view(old(v)@).push((key@, val@)),
{
    v.push((String::from_str(key), val));
    assert(opts_view(v@) =~= opts_view(old(v)@).push((key@, val@)));
}

fn push_opt_lit(v: &mut Vec<(String, String)>, key: &'static str, val: &'static str)
    ensures
        opts_view(final(v)@) == opts_view(old(v)@).push((key@, val@)),
{
    push_opt(v, key, String::from_str(val));
}

fn kbps_string(k: u32) -> (r: String)
    ensures
        r@ == kbps_value(k as int),
{
    let mut s = u32_to_string(k);
    s.append("k");
    s
}

/// The options one encoder candidate is opened with, and whether any are
/// custom (if they are and the open fails, one retry without options is
/// attempted).
fn nvenc_options(quality_mode: &QualityMode, crf: u32, target_kbps: u32, maxrate_kbps: u32, bufsize_kbps: u32, gop: u32) -> (r:
    Vec<(String, String)>)
    ensures
        opts_view(r@) == spec_nvenc_options(
            *quality_mode,
            crf,
            target_kbps as int,
            maxrate_kbps as int,
            bufsize_kbps as int,
            gop as int,
        ),
{
    let mut options: Vec<(String, String)> = Vec::new();
    let nvenc_cq: u32 = match quality_mode {
        QualityMode::Performance => {
            let bumped = crf.saturating_add(5);
            if bumped < 36 {
                bumped
            } else {
                36
            }
        },
        QualityMode::Balanced => if crf < 32 {
            crf
        } else {
            32
        },
        QualityMode::Quality => {
            let lowered = crf.saturating_sub(2);
            if lowered > 14 {
                lowered
            } else {
                14
            }
        },
    };
    match quality_mode {
        QualityMode::Performance => {
            push_opt_lit(&mut options, "preset", "p3");
            push_opt_lit(&mut options, "rc", "cbr");
        },
        QualityMode::Balanced => {
            push_opt_lit(&mut options, "preset", "p5");
            push_opt_lit(&mut options, "rc", "vbr");
            push_opt(&mut options, "cq", u32_to_string(nvenc_cq));
        },
        QualityMode::Quality => {
            push_opt_lit(&mut options, "preset", "p6");
            push_opt_lit(&mut options, "rc", "vbr");
            push_opt(&mut options, "cq", u32_to_string(nvenc_cq));
        },
    }
    push_opt(&mut options, "b:v", kbps_string(target_kbps));
    push_opt(&mut options, "maxrate", kbps_string(maxrate_kbps));
    push_opt(&mut options, "bufsize", kbps_string(bufsize_kbps));
    push_opt(&mut options, "g", u32_to_string(gop));
    push_opt_lit(&mut options, "bf", "0");
    push_opt_lit(&mut options, "rc-lookahead", "0");
    match quality_mode {
        QualityMode::Performance => {
            push_opt_lit(&mut options, "tune", "ull");
            push_opt_lit(&mut options, "spatial_aq", "0");
            push_opt_lit(&mut options, "temporal_aq", "0");
        },
        QualityMode::Balanced => {
            push_opt_lit(&mut options, "tune", "ll");
            push_opt_lit(&mut options, "spatial_aq", "0");
            push_opt_lit(&mut options, "temporal_aq", "0");
        },
        QualityMode::Quality => {
            push_opt_lit(&mut options, "tune", "hq");
            push_opt_lit(&mut options, "spatial_aq", "1");
            push_opt_lit(&mut options, "temporal_aq", "1");
            push_opt_lit(&mut options, "aq-strength", "8");
        },
    }
    assert(opts_view(options@) =~= spec_nvenc_options(
        *quality_mode,
        crf,
        target_kbps as int,
        maxrate_kbps as int,
        bufsize_kbps as int,
        gop as int,
    ));
    options
}

fn libx_options(crf: u32, preset: &EncoderPreset) -> (r: Vec<(String, String)>)
    ensures
        opts_view(r@) == spec_libx_options(crf, *preset),
{
    let mut options: Vec<(String, String)> = Vec::new();
    push_opt(&mut options, "crf", u32_to_string(crf));
    push_opt(&mut options, "preset", String::from_str(preset.as_str()));
    push_opt_lit(&mut options, "tune", "zerolatency");
    assert(opts_view(options@) =~= spec_libx_options(crf, *preset));
    options
}

fn amf_options(quality_mode: &QualityMode, target_kbps: u32, maxrate_kbps: u32, bufsize_kbps: u32, gop: u32) -> (r:
    Vec<(String, String)>)
    ensures
        opts_view(r@) == spec_amf_options(
            *quality_mode,
            target_kbps as int,
            maxrate_kbps as int,
            bufsize_kbps as int,
            gop as int,
        ),
{
    let mut options: Vec<(String, String)> = Vec::new();
    match quality_mode {
        QualityMode::Performance => {
            push_opt_lit(&mut options, "quality", "speed");
            push_opt_lit(&mut options, "usage", "ultralowlatency");
        },
        QualityMode::Balanced => {
            push_opt_lit(&mut options, "quality", "balanced");
            push_opt_lit(&mut options, "usage", "lowlatency");
        },
        QualityMode::Quality => {
            push_opt_lit(&mut options, "quality", "quality");
            push_opt_lit(&mut options, "usage", "transcoding");
        },
    }
    push_opt_lit(&mut options, "rc", "cbr");
    push_opt(&mut options, "b:v", kbps_string(target_kbps));
    push_opt(&mut options, "maxrate", kbps_string(maxrate_kbps));
    push_opt(&mut options, "bufsize", kbps_string(bufsize_kbps));
    push_opt(&mut options, "g", u32_to_string(gop));
    push_opt_lit(&mut options, "bf", "0");
    assert(opts_view(options@) =~= spec_amf_options(
        *quality_mode,
        target_kbps as int,
        maxrate_kbps as int,
        bufsize_kbps as int,
        gop as int,
    ));
    options
}

fn qsv_options(quality_mode: &QualityMode, crf: u32, gop: u32) -> (r: Vec<(String, String)>)
    ensures
        opts_view(r@) == spec_qsv_options(*quality_mode, crf, gop as int),
{
    let mut options: Vec<(String, String)> = Vec::new();
    match quality_mode {
        QualityMode::Performance => {
            push_opt_lit(&mut options, "low_power", "1");
            push_opt_lit(&mut options, "bf", "0");
            push_opt_lit(&mut options, "async_depth", "1");
            push_opt(&mut options, "g", u32_to_string(gop));
        },
        _ => {
            let qsv_quality = if crf < 40 {
                crf
            } else {
                40
            };
            push_opt(&mut options, "global_quality", u32_to_string(qsv_quality));
            push_opt_lit(&mut options, "bf", "0");
            push_opt_lit(&mut options, "async_depth", "1");
            push_opt(&mut options, "g", u32_to_string(gop));
        },
    }
    assert(opts_view(options@) =~= spec_qsv_options(*quality_mode, crf, gop as int));
    options
}

fn vp9_options(crf: u32) -> (r: Vec<(String, String)>)
    ensures
        opts_view(r@) == spec_vp9_options(crf),
{
    let mut options: Vec<(String, String)> = Vec::new();
    push_opt(&mut options, "crf", u32_to_string(crf));
    push_opt_lit(&mut options, "b", "0");
    push_opt_lit(&mut options, "deadline", "realtime");
    push_opt_lit(&mut options, "cpu-used", "8");
    assert(opts_view(options@) =~= spec_vp9_options(crf));
    options
}

fn append_opts(dst: &mut Vec<(String, String)>, src: Vec<(String, String)>)
    ensures
        opts_view(final(dst)@) == opts_view(old(dst)@) + opts_view(src@),
{
    let ghost d0 = dst@;
    let ghost s0 = src@;
    let mut src = src;
    while src.len() > 0
        invariant
            dst@ + src@ == d0 + s0,
        decreases src@.len(),
    {
        let pair = src.remove(0);
        dst.push(pair);
        assert(dst@ + src@ =~= d0 + s0);
    }
    assert(dst@ =~= dst@ + src@);
    assert(opts_view(dst@) =~= opts_view(d0) + opts_view(s0));
}

/// The options one encoder candidate is opened with, and whether any are
/// custom (if they are and the open fails, one retry without options is
/// attempted).
pub fn build_encoder_options(
    encoder_name: &str,
    codec: &VideoCodec,
    quality_mode: &QualityMode,
    crf: u32,
    preset: &EncoderPreset,
    fps: u32,
    out_w: u32,
    out_h: u32,
) -> (r: (Vec<(String, String)>, bool))
    ensures
        opts_view(r.0@) == spec_encoder_options(
            encoder_name@,
            *codec,
            *quality_mode,
            crf,
            *preset,
            fps,
            out_w,
            out_h,
        ),
        r.1 == has_custom_options(encoder_name@, *codec),
{
    let target_kbps = estimate_target_bitrate_kbps(out_w, out_h, fps, codec, quality_mode);
    let maxrate_kbps = target_kbps * (match quality_mode {
        QualityMode::Performance => 100,
        QualityMode::Balanced => 125,
        QualityMode::Quality => 140,
    }) / 100;
    let bufsize_kbps = target_kbps * (match quality_mode {
        QualityMode::Performance => 50,
        QualityMode::Balanced => 100,
        QualityMode::Quality => 130,
    }) / 100;
    let gop = recommended_gop_frames(fps);

    let mut options: Vec<(String, String)> = Vec::new();
    let mut has_options = false;

    match codec {
        VideoCodec::H264 | VideoCodec::H265 => {
            if str_has_sub(encoder_name, "nvenc") {
                append_opts(
                    &mut options,
                    nvenc_options(quality_mode, crf, target_kbps, maxrate_kbps, bufsize_kbps, gop),
                );
                has_options = true;
            }
            if crate::text::str_has_prefix(encoder_name, "libx26") {
                append_opts(&mut options, libx_options(crf, preset));
                has_options = true;
            }
            if str_has_sub(encoder_name, "_amf") {
                append_opts(
                    &mut options,
                    amf_options(quality_mode, target_kbps, maxrate_kbps, bufsize_kbps, gop),
                );
                has_options = true;
            }
            if str_has_sub(encoder_name, "_qsv") {
                append_opts(&mut options, qsv_options(quality_mode, crf, gop));
                has_options = true;
            }
            assert(opts_view(options@) =~= spec_encoder_options(
                encoder_name@,
                *codec,
                *quality_mode,
                crf,
                *preset,
                fps,
                out_w,
                out_h,
            ));
        },
        VideoCodec::Vp9 => {
            if str_has_sub(encoder_name, "vp9") {
                append_opts(&mut options, vp9_options(crf));
                has_options = true;
            }
            assert(opts_view(options@) =~= spec_encoder_options(
                encoder_name@,
                *codec,
                *quality_mode,
                crf,
                *preset,
                fps,
                out_w,
                out_h,
            ));
        },
    }

    (options, has_options)
}

/// The swscale filter quality, by quality mode.
#[derive(Debug, Clone, Copy, PartialEq, Eq, Structural)]
pub enum ScaleFilter {
    FastBilinear,
    Bilinear,
    Bicubic,
}

/// The scaler filter used for a quality mode.
pub open spec fn scale_for_mode(mode: QualityMode) -> ScaleFilter {
    match mode {
        QualityMode::Performance => ScaleFilter::FastBilinear,
        QualityMode::Balanced => ScaleFilter::Bilinear,
        QualityMode::Quality => ScaleFilter::Bicubic,
    }
}

/// Everything the first frame determines about the encoder: output size,
/// effective codec, the ordered candidate list, and the input pipeline.
#[derive(Debug)]
pub struct InitPlan {
    pub out_width: u32,
    pub out_height: u32,
    pub format_name: String,
    pub codec: VideoCodec,
    pub allow_fallback: bool,
    pub gpu_surface_only: bool,
    pub scale: ScaleFilter,
    pub candidates: Vec<String>,
    pub fps: u32,
}

/// `x` rounded down to even.
pub open spec fn even_down(x: int) -> int {
    if x % 2 == 1 {
        x - 1
    } else {
        x
    }
}

pub open spec fn msg_resolution_too_small() -> Seq<char> {
    "La resolución resultante es demasiado pequeña (mínimo 2x2)"@
}

/// The debug name of a codec, as it appears in error messages.
pub open spec fn codec_debug_name(codec: VideoCodec) -> Seq<char> {
    match codec {
        VideoCodec::H264 => "H264"@,
        VideoCodec::H265 => "H265"@,
        VideoCodec::Vp9 => "Vp9"@,
    }
}

pub open spec fn msg_no_compatible_encoders(gpu: bool, codec: VideoCodec) -> Seq<char> {
    "No hay encoders compatibles para el modo de entrada "@ + (if gpu {
        "GPU"@
    } else {
        "CPU"@
    }) + " con codec "@ + codec_debug_name(codec)
}

pub open spec fn msg_gpu_requires_hardware() -> Seq<char> {
    "El modo GPU de textura D3D11 requiere un encoder de hardware (NVENC/AMF/QSV)"@
}

/// Builds the error that a GPU-surface session ended on a CPU backend.
pub fn gpu_requires_hardware_error() -> (r: String)
    ensures
        r@ == msg_gpu_requires_hardware(),
{
    String::from_str("El modo GPU de textura D3D11 requiere un encoder de hardware (NVENC/AMF/QSV)")
}

/// Lazily plans the encoder from the first frame: the output size from
/// the resolution preset, rounded down to even and at least 2×2; the
/// effective codec; the ordered candidates (empty lists are rejected);
/// and the scaler choice for the CPU path.
pub fn plan_initialization(
    config: &EncoderConfig,
    frame_width: u32,
    frame_height: u32,
    gpu_surface_only: bool,
) -> (r: Result<InitPlan, String>)
    ensures
        ({
            let dims = spec_dimensions(config.resolution, frame_width, frame_height);
            let w = even_down(dims.0 as int);
            let h = even_down(dims.1 as int);
            let codec = spec_effective_codec(*config);
            let allow_fb = config.codec is None;
            let cands = spec_candidates(
                codec,
                allow_fb,
                config.video_encoder_preference,
                gpu_surface_only,
            );
            &&& ((w < 2 || h < 2) ==> (r matches Err(e) && e@ == msg_resolution_too_small()))
            &&& ((w >= 2 && h >= 2 && cands.len() == 0) ==> (r matches Err(e) && e@
                == msg_no_compatible_encoders(gpu_surface_only, codec)))
            &&& ((w >= 2 && h >= 2 && cands.len() > 0) ==> (r matches Ok(p) && {
                &&& p.out_width == w
                &&& p.out_height == h
                &&& p.codec == codec
                &&& p.allow_fallback == allow_fb
                &&& p.gpu_surface_only == gpu_surface_only
                &&& p.format_name@ == config.format.spec_format_name()
                &&& names_view(p.candidates@) == cands
                &&& p.scale == scale_for_mode(config.quality_mode)
                &&& p.fps == config.fps
            }))
        }),
{
    let (codec_kind, allow_fallback): (VideoCodec, bool) = match &config.codec {
        Some(c) => (*c, false),
        None => (config.format.default_codec(), true),
    };

    let dims = config.resolution.dimensions(frame_width, frame_height);
    let mut out_w = dims.0;
    let mut out_h = dims.1;
    if out_w % 2 == 1 {
        out_w = out_w - 1;
    }
    if out_h % 2 == 1 {
        out_h = out_h - 1;
    }
    if out_w < 2 || out_h < 2 {
        return Err(String::from_str("La resolución resultante es demasiado pequeña (mínimo 2x2)"));
    }

    let candidates = encoder_candidates(
        &codec_kind,
        allow_fallback,
        &config.video_encoder_preference,
        gpu_surface_only,
    );
    if candidates.len() == 0 {
        let mut m = String::from_str("No hay encoders compatibles para el modo de entrada ");
        if gpu_surface_only {
            m.append("GPU");
        } else {
            m.append("CPU");
        }
        m.append(" con codec ");
        match codec_kind {
            VideoCodec::H264 => m.append("H264"),
            VideoCodec::H265 => m.append("H265"),
            VideoCodec::Vp9 => m.append("Vp9"),
        }
        assert(m@ =~= msg_no_compatible_encoders(gpu_surface_only, spec_effective_codec(*config)));
        return Err(m);
    }

    let scale = match config.quality_mode {
        QualityMode::Performance => ScaleFilter::FastBilinear,
        QualityMode::Balanced => ScaleFilter::Bilinear,
        QualityMode::Quality => ScaleFilter::Bicubic,
    };

    Ok(
        InitPlan {
            out_width: out_w,
            out_height: out_h,
            format_name: String::from_str(config.format.ffmpeg_format_name()),
            codec: codec_kind,
            allow_fallback,
            gpu_surface_only,
            scale,
            candidates,
            fps: config.fps,
        },
    )
}

/// A run of `n` zero bytes.
pub open spec fn zero_bytes(n: int) -> Seq<u8> {
    Seq::new(n as nat, |i: int| 0u8)
}

/// The first `rows` rows of a BGRA image repacked to a new stride: each
/// row carries its `row_bytes` pixels followed by zero padding up to the
/// destination stride.
pub open spec fn packed_rows(
    data: Seq<u8>,
    rows: int,
    src_stride: int,
    dst_stride: int,
    row_bytes: int,
) -> Seq<u8>
    decreases rows,
{
    if rows <= 0 {
        Seq::empty()
    } else {
        packed_rows(data, rows - 1, src_stride, dst_stride, row_bytes) + data.subrange(
            (rows - 1) * src_stride,
            (rows - 1) * src_stride + row_bytes,
        ) + zero_bytes(dst_stride - row_bytes)
    }
}

/// Repacks a BGRA frame buffer row by row from the source stride to the
/// destination stride, zero-padding each row. This is the copy the CPU
/// encode path performs into the scaler's input frame.
pub fn pack_bgra_rows(data: &Vec<u8>, width: u32, height: u32, src_stride: u32, dst_stride: u32) -> (r:
    Vec<u8>)
    requires
        4 * width <= src_stride,
        4 * width <= dst_stride,
        height * src_stride <= data@.len(),
        height * dst_stride <= usize::MAX,
    ensures
        r@ == packed_rows(
            data@,
            height as int,
            src_stride as int,
            dst_stride as int,
            4 * width as int,
        ),
        r@.len() == height * dst_stride,
{
    let row_bytes: u32 = 4 * width;
    let dlen: usize = data.len();
    let mut out: Vec<u8> = Vec::new();
    let mut row: usize = 0;
    while row < height as usize
        invariant
            row <= height,
            4 * width == row_bytes,
            row_bytes <= src_stride,
            row_bytes <= dst_stride,
            dlen == data@.len(),
            height * src_stride <= dlen,
            height * dst_stride <= usize::MAX,
            out@ == packed_rows(
                data@,
                row as int,
                src_stride as int,
                dst_stride as int,
                row_bytes as int,
            ),
            out@.len() == row * dst_stride,
        decreases height - row,
    {
        proof {
            vstd::arithmetic::mul::lemma_mul_inequality(
                row as int + 1,
                height as int,
                src_stride as int,
            );
            vstd::arithmetic::mul::lemma_mul_inequality(
                row as int + 1,
                height as int,
                dst_stride as int,
            );
            assert((row + 1) * (src_stride as int) == row * (src_stride as int) + src_stride)
                by (nonlinear_arith);
            assert((row + 1) * (dst_stride as int) == row * (dst_stride as int) + dst_stride)
                by (nonlinear_arith);
        }
        let base: usize = row * (src_stride as usize);
        let ghost pre_row = out@;
        let mut c: usize = 0;
        while c < row_bytes as usize
            invariant
                c <= row_bytes,
                row_bytes <= src_stride,
                base == row * src_stride,
                dlen == data@.len(),
                base + src_stride <= dlen,
                out@ == pre_row + data@.subrange(base as int, base + c),
            decreases row_bytes - c,
        {
            out.push(data[base + c]);
            assert(out@ =~= pre_row + data@.subrange(base as int, base + c + 1));
            c = c + 1;
        }
        let mut p: usize = row_bytes as usize;
        while p < dst_stride as usize
            invariant
                row_bytes <= p <= dst_stride,
                base == row * src_stride,
                base + src_stride <= data@.len(),
                row_bytes <= src_stride,
                out@ == pre_row + data@.subrange(base as int, base + row_bytes) + zero_bytes(
                    p - row_bytes,
                ),
            decreases dst_stride - p,
        {
            out.push(0);
            assert(out@ =~= pre_row + data@.subrange(base as int, base + row_bytes) + zero_bytes(
                p + 1 - row_bytes,
            ));
            p = p + 1;
        }
        proof {
            assert(out@ =~= packed_rows(
                data@,
                row as int + 1,
                src_stride as int,
                dst_stride as int,
                row_bytes as int,
            ));
        }
        row = row + 1;
    }
    out
}

proof fn lemma_packed_rows_len(
    data: Seq<u8>,
    rows: int,
    src_stride: int,
    dst_stride: int,
    row_bytes: int,
)
    requires
        0 <= row_bytes <= dst_stride,
        row_bytes <= src_stride,
        rows >= 0,
        rows * src_stride <= data.len(),
    ensures
        packed_rows(data, rows, src_stride, dst_stride, row_bytes).len() == rows * dst_stride,
    decreases rows,
{
    if rows > 0 {
        assert((rows - 1) * src_stride + src_stride == rows * src_stride) by (nonlinear_arith);
        assert((rows - 1) * src_stride >= 0) by (nonlinear_arith)
            requires
                rows >= 1,
                src_stride >= 0,
        ;
        lemma_packed_rows_len(data, rows - 1, src_stride, dst_stride, row_bytes);
        assert(data.subrange(
            (rows - 1) * src_stride,
            (rows - 1) * src_stride + row_bytes,
        ).len() == row_bytes);
        assert(rows * dst_stride == (rows - 1) * dst_stride + dst_stride) by (nonlinear_arith);
    } else {
        assert(packed_rows(data, 0, src_stride, dst_stride, row_bytes).len() == 0);
        assert(0 * dst_stride == 0) by (nonlinear_arith);
    }
}

} // verus!
