//! Audio capture bookkeeping: per-track enable state with one-shot
//! first-enable timing, the per-buffer write decision of a capture worker,
//! live enable/disable control, and the selection of tracks for the final
//! mux.

use vstd::prelude::*;

use crate::config::AudioCaptureConfig;

verus! {

/// The sentinel a track's first-enable instant holds until the track is
/// first enabled.
pub const FIRST_ENABLE_UNSET: u64 = 0xFFFF_FFFF_FFFF_FFFF;

/// Where a recorded audio track came from.
#[derive(Debug, Clone, Copy, PartialEq, Eq, Structural)]
pub enum AudioTrackSource {
    System,
    Microphone,
}

/// One recorded side-file handed to the mux stage.
#[derive(Debug, Clone)]
pub struct AudioTrackInput {
    pub path: String,
    pub delay_ms: u64,
    pub source: AudioTrackSource,
}

/// A track's recorded delay: the sentinel reads as zero.
pub fn normalized_track_delay(raw_delay: u64) -> (r: u64)
    ensures
        r == if raw_delay == FIRST_ENABLE_UNSET {
            0u64
        } else {
            raw_delay
        },
{
    if raw_delay == FIRST_ENABLE_UNSET {
        0
    } else {
        raw_delay
    }
}

/// What the UI reads of live audio capture.
#[derive(Debug, Clone)]
pub struct LiveAudioStatusSnapshot {
    pub capture_system_audio: bool,
    pub capture_microphone_audio: bool,
    pub system_audio_device_name: Option<String>,
    pub microphone_audio_device_name: Option<String>,
}

impl Default for LiveAudioStatusSnapshot {
    fn default() -> (r: Self)
        ensures
            !r.capture_system_audio,
            !r.capture_microphone_audio,
            r.system_audio_device_name is None,
            r.microphone_audio_device_name is None,
    {
        LiveAudioStatusSnapshot {
            capture_system_audio: false,
            capture_microphone_audio: false,
            system_audio_device_name: None,
            microphone_audio_device_name: None,
        }
    }
}

/// The shared flags of one capture worker: the live enable switch, whether
/// the track was ever enabled, and when it first was.
#[derive(Debug, Clone, Copy, PartialEq, Eq, Structural)]
pub struct AudioTrackState {
    pub enabled: bool,
    pub ever_enabled: bool,
    pub first_enabled_at_ms: u64,
}

impl AudioTrackState {
    /// A track that starts enabled has its first-enable instant at zero;
    /// one that starts disabled holds the sentinel.
    pub fn new(initial_enabled: bool) -> (r: AudioTrackState)
        ensures
            r.enabled == initial_enabled,
            r.ever_enabled == initial_enabled,
            r.first_enabled_at_ms == if initial_enabled {
                0u64
            } else {
                FIRST_ENABLE_UNSET
            },
    {
        AudioTrackState {
            enabled: initial_enabled,
            ever_enabled: initial_enabled,
            first_enabled_at_ms: if initial_enabled {
                0
            } else {
                FIRST_ENABLE_UNSET
            },
        }
    }

    /// The live control flips the enable switch; history is untouched.
    pub fn set_enabled(&mut self, value: bool)
        ensures
            final(self).enabled == value,
            final(self).ever_enabled == old(self).ever_enabled,
            final(self).first_enabled_at_ms == old(self).first_enabled_at_ms,
    {
        self.enabled = value;
    }
}

/// What a worker does with one captured buffer.
#[derive(Debug, Clone, Copy, PartialEq, Eq, Structural)]
pub enum AudioWriteAction {
    /// Nothing is written: the buffer is empty, or the track was never
    /// enabled yet.
    DropBuffer,
    /// The same number of zero bytes is written.
    WriteSilence,
    /// The samples are written verbatim.
    WriteSamples,
}

impl AudioTrackState {
    /// The per-buffer decision, taken atomically per packet: a first
    /// enablement records the elapsed instant exactly once; a track never
    /// enabled drops the buffer; a disabled, silent or data-less buffer
    /// becomes silence; anything else is written verbatim.
    pub fn process_packet(
        &mut self,
        elapsed_ms: u64,
        bytes_to_write: usize,
        silent: bool,
        data_missing: bool,
    ) -> (r: AudioWriteAction)
        ensures
            final(self).enabled == old(self).enabled,
            final(self).ever_enabled == (old(self).ever_enabled || old(self).enabled),
            final(self).first_enabled_at_ms == (if old(self).enabled && !old(self).ever_enabled
                && old(self).first_enabled_at_ms == FIRST_ENABLE_UNSET {
                elapsed_ms
            } else {
                old(self).first_enabled_at_ms
            }),
            r == (if bytes_to_write == 0 {
                AudioWriteAction::DropBuffer
            } else if !(old(self).ever_enabled || old(self).enabled) {
                AudioWriteAction::DropBuffer
            } else if !old(self).enabled || silent || data_missing {
                AudioWriteAction::WriteSilence
            } else {
                AudioWriteAction::WriteSamples
            }),
    {
        let is_enabled = self.enabled;
        if is_enabled {
            let was_enabled_before = self.ever_enabled;
            self.ever_enabled = true;
            if !was_enabled_before {
                if self.first_enabled_at_ms == FIRST_ENABLE_UNSET {
                    self.first_enabled_at_ms = elapsed_ms;
                }
            }
        }

        let started_track = self.ever_enabled;
        if bytes_to_write == 0 {
            AudioWriteAction::DropBuffer
        } else if !started_track {
            AudioWriteAction::DropBuffer
        } else if !is_enabled || silent || data_missing {
            AudioWriteAction::WriteSilence
        } else {
            AudioWriteAction::WriteSamples
        }
    }
}

/// The live-control handle published while a session records.
pub struct LiveAudioController {
    pub system: Option<AudioTrackState>,
    pub microphone: Option<AudioTrackState>,
    pub system_device_name: Option<String>,
    pub microphone_device_name: Option<String>,
}

pub open spec fn msg_no_session_for_audio() -> Seq<char> {
    "No hay una grabación activa para actualizar audio"@
}

pub open spec fn msg_no_system_capturer() -> Seq<char> {
    "No hay capturador disponible para audio del sistema en esta sesión."@
}

pub open spec fn msg_no_microphone_capturer() -> Seq<char> {
    "No hay capturador disponible para micrófono en esta sesión."@
}

/// How an accepted live-audio update changes the controller: each present
/// endpoint's switch is set, history and names are untouched.
pub open spec fn controller_updated(
    c: LiveAudioController,
    c2: LiveAudioController,
    capture_system_audio: bool,
    capture_microphone_audio: bool,
) -> bool {
    &&& c2.system == (match c.system {
        Some(s) => Some(
            AudioTrackState {
                enabled: capture_system_audio,
                ever_enabled: s.ever_enabled,
                first_enabled_at_ms: s.first_enabled_at_ms,
            },
        ),
        None => None::<AudioTrackState>,
    })
    &&& c2.microphone == (match c.microphone {
        Some(m) => Some(
            AudioTrackState {
                enabled: capture_microphone_audio,
                ever_enabled: m.ever_enabled,
                first_enabled_at_ms: m.first_enabled_at_ms,
            },
        ),
        None => None::<AudioTrackState>,
    })
    &&& c2.system_device_name == c.system_device_name
    &&& c2.microphone_device_name == c.microphone_device_name
}

/// Applies a live enable/disable request to the published controller:
/// without a session, or when a requested endpoint has no capturer, the
/// request is refused and nothing changes.
pub fn update_live_audio_capture_slot(
    slot: &mut Option<LiveAudioController>,
    capture_system_audio: bool,
    capture_microphone_audio: bool,
) -> (r: Result<(), String>)
    ensures
        *old(slot) is None ==> (r matches Err(e) && e@ == msg_no_session_for_audio() && *final(slot) is None),
        (*old(slot) matches Some(c) && capture_system_audio && c.system is None) ==> (r matches Err(
            e,
        ) && e@ == msg_no_system_capturer()),
        (*old(slot) matches Some(c) && !(capture_system_audio && c.system is None)
            && capture_microphone_audio && c.microphone is None) ==> (r matches Err(e) && e@
            == msg_no_microphone_capturer()),
        *old(slot) matches Some(c) ==> ((!(capture_system_audio && c.system is None) && !(
        capture_microphone_audio && c.microphone is None)) ==> ({
            &&& r is Ok
            &&& *final(slot) matches Some(c2) && controller_updated(
                c,
                c2,
                capture_system_audio,
                capture_microphone_audio,
            )
        })),
{
    match slot {
        None => Err(String::from_str("No hay una grabación activa para actualizar audio")),
        Some(controller) => {
            if capture_system_audio && controller.system.is_none() {
                return Err(
                    String::from_str(
                        "No hay capturador disponible para audio del sistema en esta sesión.",
                    ),
                );
            }
            if capture_microphone_audio && controller.microphone.is_none() {
                return Err(
                    String::from_str(
                        "No hay capturador disponible para micrófono en esta sesión.",
                    ),
                );
            }
            match &mut controller.system {
                Some(s) => s.set_enabled(capture_system_audio),
                None => {},
            }
            match &mut controller.microphone {
                Some(m) => m.set_enabled(capture_microphone_audio),
                None => {},
            }
            Ok(())
        },
    }
}

/// Reads the published controller into a snapshot; absent controller or
/// endpoints read as disabled.
pub fn get_live_audio_status_slot(slot: &Option<LiveAudioController>) -> (r:
    LiveAudioStatusSnapshot)
    ensures
        r.capture_system_audio == (match slot {
            Some(c) => c.system matches Some(s) && s.enabled,
            None => false,
        }),
        r.capture_microphone_audio == (match slot {
            Some(c) => c.microphone matches Some(m) && m.enabled,
            None => false,
        }),
        r.system_audio_device_name == (match slot {
            Some(c) => c.system_device_name,
            None => None::<String>,
        }),
        r.microphone_audio_device_name == (match slot {
            Some(c) => c.microphone_device_name,
            None => None::<String>,
        }),
{
    match slot {
        None => LiveAudioStatusSnapshot::default(),
        Some(controller) => LiveAudioStatusSnapshot {
            capture_system_audio: match &controller.system {
                Some(s) => s.enabled,
                None => false,
            },
            capture_microphone_audio: match &controller.microphone {
                Some(m) => m.enabled,
                None => false,
            },
            system_audio_device_name: match &controller.system_device_name {
                Some(n) => Some(n.clone()),
                None => None,
            },
            microphone_audio_device_name: match &controller.microphone_device_name {
                Some(n) => Some(n.clone()),
                None => None,
            },
        },
    }
}

/// A WAV side-file smaller than this holds no samples.
pub const WAV_HEADER_BYTES: u64 = 44;

/// What is known of one track when the session ends.
#[derive(Debug, Clone)]
pub struct TrackFinal {
    pub path: String,
    pub ever_enabled: bool,
    pub file_len: u64,
    pub first_enabled_at_ms: u64,
    pub source: AudioTrackSource,
}

/// A track goes into the mux exactly when it was enabled at least once
/// and its file holds samples beyond the WAV header.
pub open spec fn track_mux_eligible(t: TrackFinal) -> bool {
    t.ever_enabled && t.file_len > WAV_HEADER_BYTES
}

/// The mux input an eligible track becomes.
pub open spec fn track_input_of(t: TrackFinal) -> AudioTrackInput {
    AudioTrackInput {
        path: t.path,
        delay_ms: if t.first_enabled_at_ms == FIRST_ENABLE_UNSET {
            0u64
        } else {
            t.first_enabled_at_ms
        },
        source: t.source,
    }
}

/// The mux inputs of a track list: the eligible ones, in order.
pub open spec fn spec_selected_tracks(tracks: Seq<TrackFinal>) -> Seq<AudioTrackInput>
    decreases tracks.len(),
{
    if tracks.len() == 0 {
        Seq::empty()
    } else {
        spec_selected_tracks(tracks.drop_last()) + (if track_mux_eligible(tracks.last()) {
            seq![track_input_of(tracks.last())]
        } else {
            Seq::empty()
        })
    }
}

/// Selects the tracks the final mux includes.
pub fn select_mux_tracks(tracks: &Vec<TrackFinal>) -> (r: Vec<AudioTrackInput>)
    ensures
        r@ == spec_selected_tracks(tracks@),
{
    let n = tracks.len();
    let mut out: Vec<AudioTrackInput> = Vec::new();
    let mut i: usize = 0;
    while i < n
        invariant
            i <= n,
            n == tracks@.len(),
            out@ == spec_selected_tracks(tracks@.take(i as int)),
        decreases n - i,
    {
        proof {
            assert(tracks@.take(i + 1).drop_last() =~= tracks@.take(i as int));
            assert(tracks@.take(i + 1).last() == tracks@[i as int]);
        }
        let t = &tracks[i];
        if t.ever_enabled && t.file_len > WAV_HEADER_BYTES {
            out.push(
                AudioTrackInput {
                    path: t.path.clone(),
                    delay_ms: normalized_track_delay(t.first_enabled_at_ms),
                    source: t.source,
                },
            );
            assert(out@ =~= spec_selected_tracks(tracks@.take(i + 1)));
        } else {
            assert(out@ =~= spec_selected_tracks(tracks@.take(i + 1)));
        }
        i = i + 1;
    }
    proof {
        assert(tracks@.take(n as int) =~= tracks@);
    }
    out
}

/// A track that was never enabled is excluded from the final mux: every
/// selected track corresponds to an input track that was enabled at least
/// once (and had samples).
pub proof fn lemma_mux_excludes_never_enabled(tracks: Seq<TrackFinal>)
    ensures
        forall|i: int|
            0 <= i < spec_selected_tracks(tracks).len() ==> exists|j: int|
                0 <= j < tracks.len() && track_mux_eligible(#[trigger] tracks[j])
                    && #[trigger] spec_selected_tracks(tracks)[i] == track_input_of(tracks[j]),
    decreases tracks.len(),
{
    if tracks.len() > 0 {
        let prefix = tracks.drop_last();
        lemma_mux_excludes_never_enabled(prefix);
        let sel = spec_selected_tracks(tracks);
        let sel_p = spec_selected_tracks(prefix);
        assert forall|i: int| 0 <= i < sel.len() implies exists|j: int|
            0 <= j < tracks.len() && track_mux_eligible(#[trigger] tracks[j]) && #[trigger] sel[i]
                == track_input_of(tracks[j]) by {
            if i < sel_p.len() {
                let j = choose|j: int|
                    0 <= j < prefix.len() && track_mux_eligible(#[trigger] prefix[j]) && sel_p[i]
                        == track_input_of(prefix[j]);
                assert(tracks[j] == prefix[j]);
                assert(sel[i] == sel_p[i]);
            } else {
                assert(track_mux_eligible(tracks[tracks.len() - 1]));
                assert(sel[i] == track_input_of(tracks[tracks.len() - 1]));
            }
        }
    }
}

/// Whether a side-file can contribute audio: it exists as a regular file
/// and is larger than the bare WAV header.
pub fn audio_file_has_payload(is_file: bool, file_len: u64) -> (r: bool)
    ensures
        r == (is_file && file_len > WAV_HEADER_BYTES),
{
    is_file && file_len > WAV_HEADER_BYTES
}

/// What the finalize stage does once the workers are stopped.
#[derive(Debug, Clone)]
pub enum FinalizeAction {
    /// Nothing was captured at all: just release the session's state.
    Nothing,
    /// No usable audio: the video temp moves to the final path unchanged.
    /// When audio had been requested, the move is still made but the
    /// session ends with the no-audio error.
    MoveVideoOnly { report_missing_audio: bool },
    /// Mux the listed tracks into the video.
    Mux(Vec<AudioTrackInput>),
}

pub open spec fn msg_no_valid_audio() -> Seq<char> {
    "No se capturó audio válido durante la grabación."@
}

/// The error a finalize without usable audio surfaces after the video is
/// still saved.
pub fn no_valid_audio_message() -> (r: String)
    ensures
        r@ == msg_no_valid_audio(),
{
    String::from_str("No se capturó audio válido durante la grabación.")
}

/// Decides the finalize action: an unstarted service releases state and
/// is done; with no eligible track the video is saved alone (an error is
/// reported only when audio had been requested); otherwise the eligible
/// tracks go to the mux.
pub fn plan_finalize(started: bool, audio_requested: bool, tracks: &Vec<TrackFinal>) -> (r:
    FinalizeAction)
    ensures
        !started ==> r == FinalizeAction::Nothing,
        (started && spec_selected_tracks(tracks@).len() == 0) ==> r
            == (FinalizeAction::MoveVideoOnly { report_missing_audio: audio_requested }),
        (started && spec_selected_tracks(tracks@).len() > 0) ==> (r matches FinalizeAction::Mux(ts)
            && ts@ == spec_selected_tracks(tracks@)),
{
    if !started {
        return FinalizeAction::Nothing;
    }
    let selected = select_mux_tracks(tracks);
    if selected.len() == 0 {
        FinalizeAction::MoveVideoOnly { report_missing_audio: audio_requested }
    } else {
        FinalizeAction::Mux(selected)
    }
}

/// What `start` does about one endpoint once the device resolution came
/// back: a resolved device is used; a failure on a merely optional track
/// retries the default device once, then gives the track up; a failure on
/// a required track is fatal.
#[derive(Debug, Clone, Copy, PartialEq, Eq, Structural)]
pub enum TrackStartAction {
    UseDevice,
    RetryDefaultDevice,
    SkipTrack,
    FailSession,
}

/// The device-resolution policy of one capture track.
pub fn resolve_track_device_action(
    required: bool,
    resolved_ok: bool,
    was_default_retry: bool,
) -> (r: TrackStartAction)
    ensures
        resolved_ok ==> r == TrackStartAction::UseDevice,
        (!resolved_ok && required) ==> r == TrackStartAction::FailSession,
        (!resolved_ok && !required && !was_default_retry) ==> r
            == TrackStartAction::RetryDefaultDevice,
        (!resolved_ok && !required && was_default_retry) ==> r == TrackStartAction::SkipTrack,
{
    if resolved_ok {
        TrackStartAction::UseDevice
    } else if required {
        TrackStartAction::FailSession
    } else if !was_default_retry {
        TrackStartAction::RetryDefaultDevice
    } else {
        TrackStartAction::SkipTrack
    }
}

/// Finds the device a preferred name denotes: an exact case-insensitive
/// match wins; failing that, the first whose name contains the folded
/// needle.
pub fn find_device_by_name(device_names: &Vec<String>, name: &str) -> (r: Option<usize>)
    ensures
        r matches Some(i) ==> i < device_names@.len(),
        r matches Some(i) ==> ({
            ||| (crate::text::lower_seq(device_names@[i as int]@) == crate::text::lower_seq(name@)
                && forall|k: int|
                0 <= k < i ==> crate::text::lower_seq((#[trigger] device_names@[k])@)
                    != crate::text::lower_seq(name@))
            ||| ((forall|k: int|
                0 <= k < device_names@.len() ==> crate::text::lower_seq(
                    (#[trigger] device_names@[k])@,
                ) != crate::text::lower_seq(name@)) && crate::text::has_sub(
                crate::text::lower_seq(device_names@[i as int]@),
                crate::text::lower_seq(name@),
            ) && forall|k: int|
                0 <= k < i ==> !crate::text::has_sub(
                    crate::text::lower_seq((#[trigger] device_names@[k])@),
                    crate::text::lower_seq(name@),
                ))
        }),
        r is None ==> forall|k: int|
            0 <= k < device_names@.len() ==> !crate::text::has_sub(
                crate::text::lower_seq((#[trigger] device_names@[k])@),
                crate::text::lower_seq(name@),
            ),
{
    let n = device_names.len();
    let mut i: usize = 0;
    while i < n
        invariant
            i <= n,
            n == device_names@.len(),
            forall|k: int|
                0 <= k < i ==> crate::text::lower_seq((#[trigger] device_names@[k])@)
                    != crate::text::lower_seq(name@),
        decreases n - i,
    {
        if crate::text::eq_ignore_case(device_names[i].as_str(), name) {
            return Some(i);
        }
        i = i + 1;
    }
    let mut j: usize = 0;
    while j < n
        invariant
            j <= n,
            n == device_names@.len(),
            forall|k: int|
                0 <= k < n ==> crate::text::lower_seq((#[trigger] device_names@[k])@)
                    != crate::text::lower_seq(name@),
            forall|k: int|
                0 <= k < j ==> !crate::text::has_sub(
                    crate::text::lower_seq((#[trigger] device_names@[k])@),
                    crate::text::lower_seq(name@),
                ),
        decreases n - j,
    {
        if crate::text::lower_has_sub(device_names[j].as_str(), name) {
            return Some(j);
        }
        j = j + 1;
    }
    None
}

pub open spec fn msg_audio_windows_only() -> Seq<char> {
    "La captura de audio WASAPI solo está disponible en Windows."@
}

/// The audio capture service of one session: its configuration, the
/// session's container and quality mode (the mux stage needs both), and
/// the temp and final video paths. On this portable build no WASAPI
/// backend exists: a session that asks for audio cannot start.
pub struct AudioCaptureService {
    pub config: AudioCaptureConfig,
    pub format: crate::config::OutputFormat,
    pub quality_mode: crate::config::QualityMode,
    pub output_path: String,
    pub final_output_path: String,
    pub started: bool,
}

impl AudioCaptureService {
    /// A service for one session's audio.
    pub fn new(
        config: AudioCaptureConfig,
        format: crate::config::OutputFormat,
        quality_mode: crate::config::QualityMode,
        output_path: String,
        final_output_path: String,
    ) -> (r: AudioCaptureService)
        ensures
            r.config == config,
            r.format == format,
            r.quality_mode == quality_mode,
            r.output_path == output_path,
            r.final_output_path == final_output_path,
            !r.started,
    {
        AudioCaptureService {
            config,
            format,
            quality_mode,
            output_path,
            final_output_path,
            started: false,
        }
    }

    /// Starts audio capture: succeeds as a no-op when no endpoint is
    /// requested; with audio requested the missing backend is an error.
    pub fn start(&mut self) -> (r: Result<(), String>)
        ensures
            r is Err <==> (old(self).config.capture_system_audio
                || old(self).config.capture_microphone_audio),
            r matches Err(e) ==> e@ == msg_audio_windows_only(),
            final(self).config == old(self).config,
            r is Ok ==> final(self).started,
            r is Err ==> final(self).started == old(self).started,
    {
        if self.config.is_enabled() {
            return Err(String::from_str("La captura de audio WASAPI solo está disponible en Windows."));
        }
        self.started = true;
        Ok(())
    }
}

/// Lists capture-capable input devices; no audio backend exists on this
/// portable build, so the list is empty.
pub fn list_microphone_input_devices() -> (r: Result<Vec<String>, String>)
    ensures
        r matches Ok(v) && v@.len() == 0,
{
    Ok(Vec::new())
}

pub open spec fn msg_live_audio_windows_only() -> Seq<char> {
    "La actualización de audio en vivo solo está disponible en Windows."@
}

/// Flips the live audio flags of the running session. Without the WASAPI
/// backend there is never a live controller to update.
pub fn update_live_audio_capture(capture_system_audio: bool, capture_microphone_audio: bool) -> (r:
    Result<(), String>)
    ensures
        r matches Err(e) && e@ == msg_live_audio_windows_only(),
{
    Err(String::from_str("La actualización de audio en vivo solo está disponible en Windows."))
}

/// Records the session's audio configuration for the live status; nothing
/// is tracked on this portable build.
pub fn apply_audio_capture_config(config: &AudioCaptureConfig) {
}

/// The live audio status; without a backend it is the default snapshot.
pub fn get_live_audio_status() -> (r: LiveAudioStatusSnapshot)
    ensures
        !r.capture_system_audio,
        !r.capture_microphone_audio,
        r.system_audio_device_name is None,
        r.microphone_audio_device_name is None,
{
    LiveAudioStatusSnapshot::default()
}

} // verus!
