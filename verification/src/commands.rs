//! The command layer's pure logic: the session config the UI submits,
//! normalization of a natively selected region into target coordinates,
//! and the capture-resolution preset derived from the output settings.

use vstd::prelude::*;

use crate::config::{
    AudioCaptureConfig, EncoderConfig, EncoderPreset, OutputFormat, OutputResolution, QualityMode,
    VideoCodec, VideoEncoderPreference,
};
use crate::models::{CaptureResolutionPreset, CaptureTarget, Region};

verus! {

/// The session configuration as the UI submits it.
#[derive(Debug, Clone)]
pub struct RecordingSessionConfig {
    pub target_id: u32,
    pub fps: u32,
    pub crop_region: Option<Region>,
    pub output_path: String,
    pub format: OutputFormat,
    pub codec: Option<VideoCodec>,
    pub video_encoder_preference: VideoEncoderPreference,
    pub resolution: OutputResolution,
    pub crf: u32,
    pub preset: EncoderPreset,
    pub quality_mode: QualityMode,
    pub capture_system_audio: bool,
    pub capture_microphone_audio: bool,
    pub system_audio_device: Option<String>,
    pub microphone_device: Option<String>,
    pub microphone_gain_percent: u16,
}

/// A live audio enable/disable request.
#[derive(Debug, Clone, Copy, PartialEq, Eq, Structural)]
pub struct RecordingAudioCaptureUpdate {
    pub capture_system_audio: bool,
    pub capture_microphone_audio: bool,
}

/// What the UI reads of the encoder capability probe.
#[derive(Debug, Clone, Copy, PartialEq, Eq, Structural)]
pub struct VideoEncoderCapabilitiesSnapshot {
    pub nvenc: bool,
    pub amf: bool,
    pub qsv: bool,
    pub software: bool,
}

impl RecordingSessionConfig {
    /// The encoder configuration this request denotes.
    pub fn to_encoder_config(&self) -> (r: EncoderConfig)
        ensures
            r.output_path == self.output_path,
            r.format == self.format,
            r.codec == self.codec,
            r.video_encoder_preference == self.video_encoder_preference,
            r.resolution == self.resolution,
            r.crf == self.crf,
            r.preset == self.preset,
            r.quality_mode == self.quality_mode,
            r.fps == self.fps,
            r.audio.capture_system_audio == self.capture_system_audio,
            r.audio.capture_microphone_audio == self.capture_microphone_audio,
            r.audio.system_audio_device == self.system_audio_device,
            r.audio.microphone_device == self.microphone_device,
            r.audio.microphone_gain_percent == self.microphone_gain_percent,
    {
        EncoderConfig {
            output_path: self.output_path.clone(),
            format: self.format,
            codec: self.codec,
            video_encoder_preference: self.video_encoder_preference,
            resolution: self.resolution,
            crf: self.crf,
            preset: self.preset,
            quality_mode: self.quality_mode,
            fps: self.fps,
            audio: AudioCaptureConfig {
                capture_system_audio: self.capture_system_audio,
                capture_microphone_audio: self.capture_microphone_audio,
                system_audio_device: match &self.system_audio_device {
                    Some(d) => Some(d.clone()),
                    None => None,
                },
                microphone_device: match &self.microphone_device {
                    Some(d) => Some(d.clone()),
                    None => None,
                },
                microphone_gain_percent: self.microphone_gain_percent,
            },
        }
    }
}

/// The capture-resolution cap a session records under: none in quality
/// mode or at native resolution; otherwise the preset that covers the
/// selected output size.
pub open spec fn spec_capture_preset(
    resolution: OutputResolution,
    mode: QualityMode,
) -> Option<CaptureResolutionPreset> {
    if mode == QualityMode::Quality {
        None
    } else {
        match resolution {
            OutputResolution::Native => None,
            OutputResolution::FullHd => Some(CaptureResolutionPreset::R1080p),
            OutputResolution::Hd => Some(CaptureResolutionPreset::R720p),
            OutputResolution::Sd => Some(CaptureResolutionPreset::R480p),
            OutputResolution::P1440 => Some(CaptureResolutionPreset::R1440p),
            OutputResolution::P2160 => Some(CaptureResolutionPreset::R2160p),
            OutputResolution::Custom { width, height } => {
                let m = if width > height {
                    width
                } else {
                    height
                };
                if m <= 640 {
                    Some(CaptureResolutionPreset::R480p)
                } else if m <= 1280 {
                    Some(CaptureResolutionPreset::R720p)
                } else if m <= 1920 {
                    Some(CaptureResolutionPreset::R1080p)
                } else if m <= 2560 {
                    Some(CaptureResolutionPreset::R1440p)
                } else if m <= 3840 {
                    Some(CaptureResolutionPreset::R2160p)
                } else if m <= 7680 {
                    Some(CaptureResolutionPreset::R4320p)
                } else {
                    None
                }
            },
        }
    }
}

pub fn resolve_capture_resolution_preset(
    resolution: &OutputResolution,
    quality_mode: &QualityMode,
) -> (r: Option<CaptureResolutionPreset>)
    ensures
        r == spec_capture_preset(*resolution, *quality_mode),
{
    if matches!(quality_mode, QualityMode::Quality) {
        return None;
    }

    match resolution {
        OutputResolution::Native => None,
        OutputResolution::FullHd => Some(CaptureResolutionPreset::R1080p),
        OutputResolution::Hd => Some(CaptureResolutionPreset::R720p),
        OutputResolution::Sd => Some(CaptureResolutionPreset::R480p),
        OutputResolution::P1440 => Some(CaptureResolutionPreset::R1440p),
        OutputResolution::P2160 => Some(CaptureResolutionPreset::R2160p),
        OutputResolution::Custom { width, height } => {
            let max_dim = if *width > *height {
                *width
            } else {
                *height
            };
            if max_dim <= 640 {
                Some(CaptureResolutionPreset::R480p)
            } else if max_dim <= 1280 {
                Some(CaptureResolutionPreset::R720p)
            } else if max_dim <= 1920 {
                Some(CaptureResolutionPreset::R1080p)
            } else if max_dim <= 2560 {
                Some(CaptureResolutionPreset::R1440p)
            } else if max_dim <= 3840 {
                Some(CaptureResolutionPreset::R2160p)
            } else if max_dim <= 7680 {
                Some(CaptureResolutionPreset::R4320p)
            } else {
                None
            }
        },
    }
}

/// `value·target/source`, rounded half up.
pub open spec fn spec_scale_coordinate(value: u32, source_extent: u32, target_extent: u32) -> int {
    (2 * value * target_extent + source_extent) / (2 * source_extent)
}

pub fn scale_coordinate(value: u32, source_extent: u32, target_extent: u32) -> (r: u32)
    requires
        source_extent > 0,
        value <= source_extent,
    ensures
        r == spec_scale_coordinate(value, source_extent, target_extent),
        r <= target_extent,
{
    proof {
        let v = value as int;
        let s = source_extent as int;
        let t = target_extent as int;
        assert(2 * v * t + s < (2 * s) * (t + 1)) by (nonlinear_arith)
            requires
                0 <= v <= s,
                s > 0,
                t >= 0,
        ;
        assert((2 * v * t + s) / (2 * s) <= t) by (nonlinear_arith)
            requires
                2 * v * t + s < (2 * s) * (t + 1),
                s > 0,
                v >= 0,
                t >= 0,
        ;
    }
    proof {
        vstd::arithmetic::mul::lemma_mul_upper_bound(
            2 * (value as int),
            0x2_0000_0000,
            target_extent as int,
            0xFFFF_FFFF,
        );
    }
    let num: u128 = 2 * (value as u128) * (target_extent as u128) + (source_extent as u128);
    let den: u128 = 2 * (source_extent as u128);
    let r128 = num / den;
    r128 as u32
}

pub open spec fn msg_invalid_target_dims() -> Seq<char> {
    "El target de captura tiene dimensiones invalidas"@
}

pub open spec fn msg_empty_selection() -> Seq<char> {
    "La region seleccionada no tiene un area valida"@
}

/// The normalized form of a native selection on a target: the selection,
/// clamped inside the target's logical screen, mapped proportionally to
/// the target's pixel size.
pub open spec fn normalized_region_spec(sel: Region, t: CaptureTarget) -> Region {
    let ssx = if sel.x < t.screen_width - 1 {
        sel.x as int
    } else {
        t.screen_width - 1
    };
    let ssy = if sel.y < t.screen_height - 1 {
        sel.y as int
    } else {
        t.screen_height - 1
    };
    let sex = clamp_range(sel.x + sel.width, ssx + 1, t.screen_width as int);
    let sey = clamp_range(sel.y + sel.height, ssy + 1, t.screen_height as int);
    let msx0 = spec_scale_coordinate(ssx as u32, t.screen_width, t.width);
    let msy0 = spec_scale_coordinate(ssy as u32, t.screen_height, t.height);
    let msx = if msx0 < t.width - 1 {
        msx0
    } else {
        t.width - 1
    };
    let msy = if msy0 < t.height - 1 {
        msy0
    } else {
        t.height - 1
    };
    let mex = clamp_range(
        spec_scale_coordinate(sex as u32, t.screen_width, t.width),
        msx + 1,
        t.width as int,
    );
    let mey = clamp_range(
        spec_scale_coordinate(sey as u32, t.screen_height, t.height),
        msy + 1,
        t.height as int,
    );
    Region {
        x: msx as u32,
        y: msy as u32,
        width: (mex - msx) as u32,
        height: (mey - msy) as u32,
    }
}

/// `v` clamped into `[lo, hi]` (with `lo <= hi`).
pub open spec fn clamp_range(v: int, lo: int, hi: int) -> int {
    if v < lo {
        lo
    } else if v > hi {
        hi
    } else {
        v
    }
}

fn clamp_u32(v: u32, lo: u32, hi: u32) -> (r: u32)
    requires
        lo <= hi,
    ensures
        r == clamp_range(v as int, lo as int, hi as int),
{
    if v < lo {
        lo
    } else if v > hi {
        hi
    } else {
        v
    }
}

/// Translates a virtual-screen selection into target pixel coordinates:
/// the selection is clamped to the target's logical bounds and scaled by
/// the ratio of physical to logical size. Degenerate targets and empty
/// selections are rejected with their messages.
pub fn normalize_native_region_for_target(selected_region: &Region, target: &CaptureTarget) -> (r:
    Result<Region, String>)
    ensures
        (target.width == 0 || target.height == 0 || target.screen_width == 0
            || target.screen_height == 0) ==> (r matches Err(e) && e@ == msg_invalid_target_dims()),
        (target.width > 0 && target.height > 0 && target.screen_width > 0 && target.screen_height
            > 0 && (selected_region.width == 0 || selected_region.height == 0)) ==> (r matches Err(
            e,
        ) && e@ == msg_empty_selection()),
        (target.width > 0 && target.height > 0 && target.screen_width > 0 && target.screen_height
            > 0 && selected_region.width > 0 && selected_region.height > 0) ==> r == Ok::<
            Region,
            String,
        >(normalized_region_spec(*selected_region, *target)),
{
    if target.width == 0 || target.height == 0 || target.screen_width == 0
        || target.screen_height == 0 {
        return Err(String::from_str("El target de captura tiene dimensiones invalidas"));
    }

    if selected_region.width == 0 || selected_region.height == 0 {
        return Err(String::from_str("La region seleccionada no tiene un area valida"));
    }

    let source_start_x = if selected_region.x < target.screen_width - 1 {
        selected_region.x
    } else {
        target.screen_width - 1
    };
    let source_start_y = if selected_region.y < target.screen_height - 1 {
        selected_region.y
    } else {
        target.screen_height - 1
    };
    let reach_x: u32 = match selected_region.x.checked_add(selected_region.width) {
        Some(v) => v,
        None => u32::MAX,
    };
    let reach_y: u32 = match selected_region.y.checked_add(selected_region.height) {
        Some(v) => v,
        None => u32::MAX,
    };
    let source_end_x = clamp_u32(reach_x, source_start_x + 1, target.screen_width);
    let source_end_y = clamp_u32(reach_y, source_start_y + 1, target.screen_height);

    let msx0 = scale_coordinate(source_start_x, target.screen_width, target.width);
    let mapped_start_x = if msx0 < target.width - 1 {
        msx0
    } else {
        target.width - 1
    };
    let msy0 = scale_coordinate(source_start_y, target.screen_height, target.height);
    let mapped_start_y = if msy0 < target.height - 1 {
        msy0
    } else {
        target.height - 1
    };
    let mapped_end_x = clamp_u32(
        scale_coordinate(source_end_x, target.screen_width, target.width),
        mapped_start_x + 1,
        target.width,
    );
    let mapped_end_y = clamp_u32(
        scale_coordinate(source_end_y, target.screen_height, target.height),
        mapped_start_y + 1,
        target.height,
    );

    Ok(
        Region {
            x: mapped_start_x,
            y: mapped_start_y,
            width: mapped_end_x - mapped_start_x,
            height: mapped_end_y - mapped_start_y,
        },
    )
}

} // verus!
