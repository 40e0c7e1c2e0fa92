//! Encoder configuration: container, codec, backend preference, quality
//! mode, resolution and audio settings, with full validation.

use vstd::prelude::*;

use crate::text::{all_space, dec_seq, is_blank, u32_to_string};

verus! {

/// Output container format.
#[derive(Debug, Clone, Copy, PartialEq, Eq, Structural)]
pub enum OutputFormat {
    Mp4,
    Mkv,
    WebM,
}

/// Video codec family.
#[derive(Debug, Clone, Copy, PartialEq, Eq, Structural)]
pub enum VideoCodec {
    H264,
    H265,
    Vp9,
}

/// Which encoder backend to try first.
#[derive(Debug, Clone, Copy, PartialEq, Eq, Structural)]
pub enum VideoEncoderPreference {
    Auto,
    Nvenc,
    Amf,
    Qsv,
    Software,
}

/// Speed/quality trade-off of the whole pipeline.
#[derive(Debug, Clone, Copy, PartialEq, Eq, Structural)]
pub enum QualityMode {
    Performance,
    Balanced,
    Quality,
}

/// Output resolution selection.
#[derive(Debug, Clone, Copy, PartialEq, Eq, Structural)]
pub enum OutputResolution {
    Native,
    FullHd,
    Hd,
    Sd,
    P1440,
    P2160,
    Custom { width: u32, height: u32 },
}

/// Software-encoder speed preset.
#[derive(Debug, Clone, Copy, PartialEq, Eq, Structural)]
pub enum EncoderPreset {
    UltraFast,
    Fast,
    Medium,
}

impl OutputFormat {
    /// The container name FFmpeg knows this format by.
    pub open spec fn spec_format_name(&self) -> Seq<char> {
        match self {
            OutputFormat::Mp4 => "mp4"@,
            OutputFormat::Mkv => "matroska"@,
            OutputFormat::WebM => "webm"@,
        }
    }

    pub fn ffmpeg_format_name(&self) -> (r: &'static str)
        ensures
            r@ == self.spec_format_name(),
    {
        match self {
            OutputFormat::Mp4 => "mp4",
            OutputFormat::Mkv => "matroska",
            OutputFormat::WebM => "webm",
        }
    }

    /// The codec used when the config names none.
    pub open spec fn spec_default_codec(&self) -> VideoCodec {
        match self {
            OutputFormat::Mp4 => VideoCodec::H264,
            OutputFormat::Mkv => VideoCodec::H264,
            OutputFormat::WebM => VideoCodec::Vp9,
        }
    }

    pub fn default_codec(&self) -> (r: VideoCodec)
        ensures
            r == self.spec_default_codec(),
    {
        match self {
            OutputFormat::Mp4 | OutputFormat::Mkv => VideoCodec::H264,
            OutputFormat::WebM => VideoCodec::Vp9,
        }
    }
}

impl VideoCodec {
    /// The software encoder name of this codec family.
    pub open spec fn spec_encoder_name(&self) -> Seq<char> {
        match self {
            VideoCodec::H264 => "libx264"@,
            VideoCodec::H265 => "libx265"@,
            VideoCodec::Vp9 => "libvpx-vp9"@,
        }
    }

    pub fn ffmpeg_encoder_name(&self) -> (r: &'static str)
        ensures
            r@ == self.spec_encoder_name(),
    {
        match self {
            VideoCodec::H264 => "libx264",
            VideoCodec::H265 => "libx265",
            VideoCodec::Vp9 => "libvpx-vp9",
        }
    }
}

impl Default for VideoEncoderPreference {
    fn default() -> (r: Self)
        ensures
            r == VideoEncoderPreference::Auto,
    {
        VideoEncoderPreference::Auto
    }
}

impl Default for QualityMode {
    fn default() -> (r: Self)
        ensures
            r == QualityMode::Balanced,
    {
        QualityMode::Balanced
    }
}

/// The pixel dimensions a resolution preset yields on a given source.
pub open spec fn spec_dimensions(r: OutputResolution, sw: u32, sh: u32) -> (u32, u32) {
    match r {
        OutputResolution::Native => (sw, sh),
        OutputResolution::FullHd => (1920u32, 1080u32),
        OutputResolution::Hd => (1280u32, 720u32),
        OutputResolution::Sd => (854u32, 480u32),
        OutputResolution::P1440 => (2560u32, 1440u32),
        OutputResolution::P2160 => (3840u32, 2160u32),
        OutputResolution::Custom { width, height } => (width, height),
    }
}

impl OutputResolution {
    pub fn dimensions(&self, source_width: u32, source_height: u32) -> (r: (u32, u32))
        ensures
            r == spec_dimensions(*self, source_width, source_height),
    {
        match self {
            OutputResolution::Native => (source_width, source_height),
            OutputResolution::FullHd => (1920, 1080),
            OutputResolution::Hd => (1280, 720),
            OutputResolution::Sd => (854, 480),
            OutputResolution::P1440 => (2560, 1440),
            OutputResolution::P2160 => (3840, 2160),
            OutputResolution::Custom { width, height } => (*width, *height),
        }
    }
}

impl EncoderPreset {
    /// The preset name passed to software encoders.
    pub open spec fn spec_as_str(&self) -> Seq<char> {
        match self {
            EncoderPreset::UltraFast => "ultrafast"@,
            EncoderPreset::Fast => "fast"@,
            EncoderPreset::Medium => "medium"@,
        }
    }

    pub fn as_str(&self) -> (r: &'static str)
        ensures
            r@ == self.spec_as_str(),
    {
        match self {
            EncoderPreset::UltraFast => "ultrafast",
            EncoderPreset::Fast => "fast",
            EncoderPreset::Medium => "medium",
        }
    }
}

/// Which audio endpoints a session captures, and with what microphone gain.
#[derive(Debug, Clone)]
pub struct AudioCaptureConfig {
    pub capture_system_audio: bool,
    pub capture_microphone_audio: bool,
    pub system_audio_device: Option<String>,
    pub microphone_device: Option<String>,
    pub microphone_gain_percent: u16,
}

impl Default for AudioCaptureConfig {
    fn default() -> (r: Self)
        ensures
            !r.capture_system_audio,
            !r.capture_microphone_audio,
            r.system_audio_device is None,
            r.microphone_device is None,
            r.microphone_gain_percent == 100,
    {
        AudioCaptureConfig {
            capture_system_audio: false,
            capture_microphone_audio: false,
            system_audio_device: None,
            microphone_device: None,
            microphone_gain_percent: 100,
        }
    }
}

impl AudioCaptureConfig {
    pub fn is_enabled(&self) -> (r: bool)
        ensures
            r == (self.capture_system_audio || self.capture_microphone_audio),
    {
        self.capture_system_audio || self.capture_microphone_audio
    }
}

/// Everything the video encoder needs to open a session.
#[derive(Debug, Clone)]
pub struct EncoderConfig {
    pub output_path: String,
    pub format: OutputFormat,
    pub codec: Option<VideoCodec>,
    pub video_encoder_preference: VideoEncoderPreference,
    pub resolution: OutputResolution,
    pub crf: u32,
    pub preset: EncoderPreset,
    pub quality_mode: QualityMode,
    pub fps: u32,
    pub audio: AudioCaptureConfig,
}

/// The codec a config actually encodes with: the explicit choice, or the
/// container's default.
pub open spec fn spec_effective_codec(c: EncoderConfig) -> VideoCodec {
    match c.codec {
        Some(k) => k,
        None => c.format.spec_default_codec(),
    }
}

/// Whether an optional device name is acceptable: absent, or not blank.
pub open spec fn device_name_ok(d: Option<String>) -> bool {
    match d {
        Some(s) => !all_space(s@),
        None => true,
    }
}

/// All the conditions `validate` enforces.
pub open spec fn config_valid(c: EncoderConfig) -> bool {
    &&& 1 <= c.fps <= 120
    &&& c.crf <= 51
    &&& (c.resolution matches OutputResolution::Custom { width, height } ==> width > 0 && height
        > 0)
    &&& device_name_ok(c.audio.system_audio_device)
    &&& device_name_ok(c.audio.microphone_device)
    &&& c.audio.microphone_gain_percent <= 400
    &&& (c.format == OutputFormat::WebM ==> spec_effective_codec(c) == VideoCodec::Vp9)
}

pub open spec fn msg_invalid_fps(fps: u32) -> Seq<char> {
    "FPS inválido: "@ + dec_seq(fps as int) + ". Debe estar entre 1 y 120"@
}

pub open spec fn msg_invalid_crf(crf: u32) -> Seq<char> {
    "CRF inválido: "@ + dec_seq(crf as int) + ". Debe estar entre 0 y 51"@
}

pub open spec fn msg_invalid_gain(g: u16) -> Seq<char> {
    "Ganancia de micrófono inválida: "@ + dec_seq(g as int) + "%. Debe estar entre 0% y 400%"@
}

pub open spec fn msg_custom_resolution() -> Seq<char> {
    "La resolución personalizada debe tener ancho y alto > 0"@
}

pub open spec fn msg_blank_system_device() -> Seq<char> {
    "El nombre del dispositivo de audio del sistema no puede estar vacío"@
}

pub open spec fn msg_blank_microphone_device() -> Seq<char> {
    "El nombre del dispositivo de micrófono no puede estar vacío"@
}

pub open spec fn msg_webm_codec() -> Seq<char> {
    "WebM solo es compatible con el codec VP9"@
}

/// Whether a custom resolution, if selected, has non-zero dimensions.
pub open spec fn custom_resolution_ok(r: OutputResolution) -> bool {
    r matches OutputResolution::Custom { width, height } ==> width > 0 && height > 0
}

impl EncoderConfig {
    pub fn effective_codec(&self) -> (r: VideoCodec)
        ensures
            r == spec_effective_codec(*self),
    {
        match &self.codec {
            Some(k) => k.clone(),
            None => self.format.default_codec(),
        }
    }

    /// Accepts exactly the configurations `config_valid` describes; the first
    /// violated rule, in the order checked here, names the error.
    pub fn validate(&self) -> (r: Result<(), String>)
        ensures
            r is Ok <==> config_valid(*self),
            (self.fps == 0 || self.fps > 120) ==> (r matches Err(m) && m@ == msg_invalid_fps(
                self.fps,
            )),
            (1 <= self.fps <= 120 && self.crf > 51) ==> (r matches Err(m) && m@ == msg_invalid_crf(
                self.crf,
            )),
            (1 <= self.fps <= 120 && self.crf <= 51 && !custom_resolution_ok(self.resolution)) ==> (
            r matches Err(m) && m@ == msg_custom_resolution()),
            (1 <= self.fps <= 120 && self.crf <= 51 && custom_resolution_ok(self.resolution)
                && !device_name_ok(self.audio.system_audio_device)) ==> (r matches Err(m) && m@
                == msg_blank_system_device()),
            (1 <= self.fps <= 120 && self.crf <= 51 && custom_resolution_ok(self.resolution)
                && device_name_ok(self.audio.system_audio_device) && !device_name_ok(
                self.audio.microphone_device,
            )) ==> (r matches Err(m) && m@ == msg_blank_microphone_device()),
            (1 <= self.fps <= 120 && self.crf <= 51 && custom_resolution_ok(self.resolution)
                && device_name_ok(self.audio.system_audio_device) && device_name_ok(
                self.audio.microphone_device,
            ) && self.audio.microphone_gain_percent > 400) ==> (r matches Err(m) && m@
                == msg_invalid_gain(self.audio.microphone_gain_percent)),
            (1 <= self.fps <= 120 && self.crf <= 51 && custom_resolution_ok(self.resolution)
                && device_name_ok(self.audio.system_audio_device) && device_name_ok(
                self.audio.microphone_device,
            ) && self.audio.microphone_gain_percent <= 400 && self.format == OutputFormat::WebM
                && spec_effective_codec(*self) != VideoCodec::Vp9) ==> (r matches Err(m) && m@
                == msg_webm_codec()),
    {
        if self.fps == 0 || self.fps > 120 {
            let mut m = String::from_str("FPS inválido: ");
            m.append(u32_to_string(self.fps).as_str());
            m.append(". Debe estar entre 1 y 120");
            assert(m@ =~= msg_invalid_fps(self.fps));
            return Err(m);
        }

        if self.crf > 51 {
            let mut m = String::from_str("CRF inválido: ");
            m.append(u32_to_string(self.crf).as_str());
            m.append(". Debe estar entre 0 y 51");
            assert(m@ =~= msg_invalid_crf(self.crf));
            return Err(m);
        }

        if let OutputResolution::Custom { width, height } = &self.resolution {
            if *width == 0 || *height == 0 {
                return Err(
                    String::from_str("La resolución personalizada debe tener ancho y alto > 0"),
                );
            }
        }

        if let Some(device) = &self.audio.system_audio_device {
            if is_blank(device.as_str()) {
                return Err(
                    String::from_str(
                        "El nombre del dispositivo de audio del sistema no puede estar vacío",
                    ),
                );
            }
        }

        if let Some(device) = &self.audio.microphone_device {
            if is_blank(device.as_str()) {
                return Err(
                    String::from_str("El nombre del dispositivo de micrófono no puede estar vacío"),
                );
            }
        }

        if self.audio.microphone_gain_percent > 400 {
            let mut m = String::from_str("Ganancia de micrófono inválida: ");
            m.append(u32_to_string(self.audio.microphone_gain_percent as u32).as_str());
            m.append("%. Debe estar entre 0% y 400%");
            assert(m@ =~= msg_invalid_gain(self.audio.microphone_gain_percent));
            return Err(m);
        }

        if self.format == OutputFormat::WebM {
            let codec = self.effective_codec();
            if codec != VideoCodec::Vp9 {
                return Err(String::from_str("WebM solo es compatible con el codec VP9"));
            }
        }

        Ok(())
    }
}

impl Default for EncoderConfig {
    fn default() -> (r: Self)
        ensures
            r.output_path@ == "recording.mp4"@,
            r.format == OutputFormat::Mp4,
            r.codec is None,
            r.video_encoder_preference == VideoEncoderPreference::Auto,
            r.resolution == OutputResolution::Native,
            r.crf == 23,
            r.preset == EncoderPreset::UltraFast,
            r.quality_mode == QualityMode::Balanced,
            r.fps == 30,
            !r.audio.capture_system_audio,
            !r.audio.capture_microphone_audio,
            r.audio.system_audio_device is None,
            r.audio.microphone_device is None,
            r.audio.microphone_gain_percent == 100,
    {
        EncoderConfig {
            output_path: String::from_str("recording.mp4"),
            format: OutputFormat::Mp4,
            codec: None,
            video_encoder_preference: VideoEncoderPreference::Auto,
            resolution: OutputResolution::Native,
            crf: 23,
            preset: EncoderPreset::UltraFast,
            quality_mode: QualityMode::Balanced,
            fps: 30,
            audio: AudioCaptureConfig::default(),
        }
    }
}

} // verus!
