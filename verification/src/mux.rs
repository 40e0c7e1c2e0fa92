//! The post-session mux stage: deciding whether audio needs a filter at
//! all, deriving the `.video_only` rename, capping sync offsets, and
//! building the exact FFmpeg CLI argument list that combines video and
//! audio into the final file.

use vstd::prelude::*;

use crate::audio::{AudioTrackInput, AudioTrackSource};
use crate::config::{OutputFormat, QualityMode};
use crate::dsp::{build_mix_filter, build_single_track_filter, spec_mix_filter, spec_single_track_filter};
use crate::text::{
    chars_vec, dec_value, is_u64_numeral, numeral_digits, trim_seq, trim_string,
};

verus! {

/// A lone system-audio track with no delay and unity gain needs no filter
/// in the fast modes: the stream is mapped straight through.
pub fn should_bypass_single_track_filter(
    track: &AudioTrackInput,
    microphone_gain_percent: u16,
    quality_mode: &QualityMode,
) -> (r: bool)
    ensures
        r == (track.source == AudioTrackSource::System && track.delay_ms == 0
            && microphone_gain_percent == 100 && (quality_mode == QualityMode::Performance
            || quality_mode == QualityMode::Balanced)),
{
    if !matches!(track.source, AudioTrackSource::System) {
        return false;
    }
    if track.delay_ms > 0 {
        return false;
    }
    if microphone_gain_percent != 100 {
        return false;
    }
    matches!(quality_mode, QualityMode::Performance | QualityMode::Balanced)
}

/// The same track, with the session-wide extra delay folded in.
pub fn with_added_delay(track: &AudioTrackInput, extra_delay_ms: u64) -> (r: AudioTrackInput)
    ensures
        r.path == track.path,
        r.source == track.source,
        r.delay_ms == if track.delay_ms + extra_delay_ms > u64::MAX {
            u64::MAX
        } else {
            (track.delay_ms + extra_delay_ms) as u64
        },
{
    AudioTrackInput {
        path: track.path.clone(),
        delay_ms: track.delay_ms.saturating_add(extra_delay_ms),
        source: track.source,
    }
}

/// Delays read from the video file or the environment are capped at one
/// second.
pub fn cap_delay_ms(delay_ms: u64) -> (r: u64)
    ensures
        r == if delay_ms < 1000 {
            delay_ms
        } else {
            1000u64
        },
{
    if delay_ms < 1000 {
        delay_ms
    } else {
        1000
    }
}

/// The audio-sync offset taken from the environment: a `u64` numeral after
/// trimming, capped at one second; anything else reads as zero.
pub fn parse_sync_offset(value: Option<&str>) -> (r: u64)
    ensures
        r == match value {
            Some(v) => {
                let t = trim_seq(v@);
                if is_u64_numeral(t) {
                    let n = dec_value(numeral_digits(t));
                    if n < 1000 {
                        n
                    } else {
                        1000int
                    }
                } else {
                    0int
                }
            },
            None => 0int,
        },
{
    match value {
        Some(v) => {
            let t = trim_string(v);
            match crate::text::parse_u64(t.as_str()) {
                Some(n) => cap_delay_ms(n),
                None => 0,
            }
        },
        None => 0,
    }
}

/// Whether an environment value turns on the MP4 `+faststart` move:
/// `1`, `true` or `yes`, case-insensitively, after trimming.
pub fn should_enable_mp4_faststart(value: Option<&str>) -> (r: bool)
    ensures
        r == (match value {
            Some(v) => {
                let norm = crate::text::lower_seq(trim_seq(v@));
                norm == crate::text::lower_seq("1"@) || norm == crate::text::lower_seq("true"@)
                    || norm == crate::text::lower_seq("yes"@)
            },
            None => false,
        }),
{
    match value {
        Some(v) => {
            let t = trim_string(v);
            crate::text::eq_ignore_case(t.as_str(), "1") || crate::text::eq_ignore_case(
                t.as_str(),
                "true",
            ) || crate::text::eq_ignore_case(t.as_str(), "yes")
        },
        None => false,
    }
}

/// A stream timestamp in milliseconds under a `num/den` time base; absent
/// for non-positive timestamps, degenerate bases, or results out of range.
pub fn timestamp_to_ms(timestamp: i64, tb_num: i32, tb_den: i32) -> (r: Option<u64>)
    ensures
        (timestamp <= 0 || tb_num <= 0 || tb_den <= 0) ==> r is None,
        (timestamp > 0 && tb_num > 0 && tb_den > 0) ==> {
            let ms = timestamp * tb_num * 1000 / (tb_den as int);
            if ms <= 0 {
                r is None
            } else if ms > u64::MAX {
                r == Some(0u64)
            } else {
                r == Some(ms as u64)
            }
        },
{
    if timestamp <= 0 {
        return None;
    }
    if tb_num <= 0 || tb_den <= 0 {
        return None;
    }
    let ts: i128 = timestamp as i128;
    let num: i128 = tb_num as i128;
    let den: i128 = tb_den as i128;
    proof {
        vstd::arithmetic::mul::lemma_mul_upper_bound(
            timestamp as int,
            0x7FFF_FFFF_FFFF_FFFF,
            tb_num as int,
            0x7FFF_FFFF,
        );
        vstd::arithmetic::mul::lemma_mul_upper_bound(
            (timestamp as int) * (tb_num as int),
            0x7FFF_FFFF_FFFF_FFFFint * 0x7FFF_FFFF,
            1000,
            1000,
        );
        vstd::arithmetic::mul::lemma_mul_nonnegative(timestamp as int, tb_num as int);
        vstd::arithmetic::mul::lemma_mul_nonnegative(
            (timestamp as int) * (tb_num as int),
            1000,
        );
    }
    let ts_ms: i128 = ts * num * 1000 / den;
    if ts_ms <= 0 {
        return None;
    }
    if ts_ms > u64::MAX as i128 {
        // Rust's conversion would refuse it; the caller treats it as zero.
        return Some(0);
    }
    Some(ts_ms as u64)
}

/// Where the path separators end: the length of the directory prefix,
/// through the last `/` or `\`.
pub open spec fn dir_prefix_len(s: Seq<char>) -> int
    decreases s.len(),
{
    if s.len() == 0 {
        0
    } else if s[s.len() - 1] == '/' || s[s.len() - 1] == '\\' {
        s.len() as int
    } else {
        dir_prefix_len(s.drop_last())
    }
}

/// The index of the last `.` in a file name that can split a stem from an
/// extension (never the leading character), or -1.
pub open spec fn stem_dot_idx(name: Seq<char>) -> int
    decreases name.len(),
{
    if name.len() <= 1 {
        -1
    } else if name[name.len() - 1] == '.' {
        name.len() - 1
    } else {
        stem_dot_idx(name.drop_last())
    }
}

/// The `.video_only` sibling of an output path: the same directory, the
/// stem (or `recording`), the marker, and the extension (or `mp4`).
pub open spec fn video_only_path_spec(s: Seq<char>) -> Seq<char> {
    let d = dir_prefix_len(s);
    let name = s.skip(d);
    if name.len() == 0 {
        s.take(d) + "recording"@ + ".video_only."@ + "mp4"@
    } else {
        let i = stem_dot_idx(name);
        if i >= 1 {
            s.take(d) + name.take(i) + ".video_only."@ + name.skip(i + 1)
        } else {
            s.take(d) + name + ".video_only."@ + "mp4"@
        }
    }
}

proof fn lemma_dir_prefix_at(s: Seq<char>, d: int)
    requires
        0 <= d <= s.len(),
        d > 0 ==> (s[d - 1] == '/' || s[d - 1] == '\\'),
        forall|k: int| d <= k < s.len() ==> !(s[k] == '/' || s[k] == '\\'),
    ensures
        dir_prefix_len(s) == d,
    decreases s.len() - d,
{
    if d == s.len() {
        if s.len() > 0 {
            assert(dir_prefix_len(s) == s.len());
        }
    } else {
        assert(!(s[s.len() - 1] == '/' || s[s.len() - 1] == '\\'));
        let t = s.drop_last();
        assert(forall|k: int| d <= k < t.len() ==> !(t[k] == '/' || t[k] == '\\'));
        lemma_dir_prefix_at(t, d);
    }
}

proof fn lemma_stem_dot_at(name: Seq<char>, i: int)
    requires
        i == -1 || 1 <= i < name.len(),
        i >= 1 ==> name[i] == '.',
        forall|k: int|
            (if i >= 1 {
                i
            } else {
                0
            }) < k < name.len() ==> name[k] != '.',
        i == -1 ==> (forall|k: int| 1 <= k < name.len() ==> name[k] != '.'),
    ensures
        stem_dot_idx(name) == i,
    decreases name.len(),
{
    if name.len() <= 1 {
        assert(stem_dot_idx(name) == -1);
    } else if i == name.len() - 1 {
        assert(stem_dot_idx(name) == i);
    } else {
        assert(name[name.len() - 1] != '.');
        let t = name.drop_last();
        lemma_stem_dot_at(t, i);
    }
}

/// Derives the `.video_only` rename target of a video path.
pub fn make_video_only_path(output_path: &str) -> (r: String)
    ensures
        r@ == video_only_path_spec(output_path@),
{
    let cs = chars_vec(output_path);
    let n = cs.len();

    let mut d: usize = n;
    while d > 0 && !(cs[d - 1] == '/' || cs[d - 1] == '\\')
        invariant
            d <= n,
            n == output_path@.len(),
            cs@ == output_path@,
            forall|k: int| d <= k < n ==> !(output_path@[k] == '/' || output_path@[k] == '\\'),
        decreases d,
    {
        d = d - 1;
    }
    proof {
        lemma_dir_prefix_at(output_path@, d as int);
    }

    let ghost name = output_path@.skip(d as int);
    let mut dot: usize = n;
    while dot > d && !(cs[dot - 1] == '.')
        invariant
            d <= dot <= n,
            n == output_path@.len(),
            cs@ == output_path@,
            name == output_path@.skip(d as int),
            forall|k: int| dot <= k < n ==> output_path@[k] != '.',
        decreases dot,
    {
        dot = dot - 1;
    }
    // `dot` is one past the last `.` at or after `d`, or `d` if none.
    let have_dot = dot > d && dot - d > 1;
    proof {
        assert(forall|k: int| 0 <= k < name.len() ==> name[k] == output_path@[d + k]);
        if have_dot {
            lemma_stem_dot_at(name, dot - 1 - d);
        } else {
            if dot == d {
                lemma_stem_dot_at(name, -1);
            } else {
                assert(dot == d + 1);
                if name.len() > 0 {
                    lemma_stem_dot_at(name, -1);
                }
            }
        }
    }

    let mut out = String::from_str(output_path.substring_char(0, d));
    if n == d {
        out.append("recording");
        out.append(".video_only.");
        out.append("mp4");
        assert(out@ =~= video_only_path_spec(output_path@));
        return out;
    }
    if have_dot {
        out.append(output_path.substring_char(d, dot - 1));
        out.append(".video_only.");
        out.append(output_path.substring_char(dot, n));
        proof {
            assert(output_path@.subrange(d as int, dot - 1) =~= name.take(dot - 1 - d));
            assert(output_path@.subrange(dot as int, n as int) =~= name.skip(dot - d));
        }
        assert(out@ =~= video_only_path_spec(output_path@));
    } else {
        out.append(output_path.substring_char(d, n));
        out.append(".video_only.");
        out.append("mp4");
        proof {
            assert(output_path@.subrange(d as int, n as int) =~= name);
        }
        assert(out@ =~= video_only_path_spec(output_path@));
    }
    out
}

/// The file-name component of an output path; an empty name falls back
/// to the default recording name. The encoder writes under this name in
/// the session's temp directory.
pub fn output_file_name(path: &str) -> (r: String)
    ensures
        ({
            let name = path@.skip(dir_prefix_len(path@));
            if name.len() > 0 {
                r@ == name
            } else {
                r@ == "recording.mp4"@
            }
        }),
{
    let cs = chars_vec(path);
    let n = cs.len();
    let mut d: usize = n;
    while d > 0 && !(cs[d - 1] == '/' || cs[d - 1] == '\\')
        invariant
            d <= n,
            n == path@.len(),
            cs@ == path@,
            forall|k: int| d <= k < n ==> !(path@[k] == '/' || path@[k] == '\\'),
        decreases d,
    {
        d = d - 1;
    }
    proof {
        lemma_dir_prefix_at(path@, d as int);
    }
    if d == n {
        return String::from_str("recording.mp4");
    }
    String::from_str(path.substring_char(d, n))
}

pub open spec fn msg_ffmpeg_not_found() -> Seq<char> {
    "No se encontró FFmpeg CLI para mux de audio. Define CAPTURIST_FFMPEG_BIN o agrega ffmpeg.exe al PATH."@
}

/// The error when the FFmpeg binary cannot be spawned at all.
pub fn ffmpeg_not_found_message() -> (r: String)
    ensures
        r@ == msg_ffmpeg_not_found(),
{
    String::from_str(
        "No se encontró FFmpeg CLI para mux de audio. Define CAPTURIST_FFMPEG_BIN o agrega ffmpeg.exe al PATH.",
    )
}

/// The error when FFmpeg ran and failed: its trimmed stderr, or a note
/// that it printed nothing.
pub fn mux_failed_message(stderr: &str) -> (r: String)
    ensures
        trim_seq(stderr@).len() == 0 ==> r@ == "FFmpeg falló al combinar video+audio: "@
            + "sin salida de error"@,
        trim_seq(stderr@).len() > 0 ==> r@ == "FFmpeg falló al combinar video+audio: "@ + trim_seq(
            stderr@,
        ),
{
    let trimmed = trim_string(stderr);
    let mut m = String::from_str("FFmpeg falló al combinar video+audio: ");
    if trimmed.as_str().unicode_len() == 0 {
        m.append("sin salida de error");
    } else {
        m.append(trimmed.as_str());
    }
    m
}

/// The error when the base video is missing before the mux.
pub fn missing_base_video_message(path: &str) -> (r: String)
    ensures
        r@ == "No existe el video base para mezclar audio: "@ + path@,
{
    let mut m = String::from_str("No existe el video base para mezclar audio: ");
    m.append(path);
    m
}

/// The view of an argument list.
pub open spec fn args_view(v: Seq<String>) -> Seq<Seq<char>> {
    v.map_values(|s: String| s@)
}

/// The common head of every mux invocation.
pub open spec fn spec_mux_head(temp_video: Seq<char>) -> Seq<Seq<char>> {
    seq![
        "-y"@,
        "-hide_banner"@,
        "-loglevel"@,
        "error"@,
        "-threads"@,
        "0"@,
        "-i"@,
        temp_video,
    ]
}

/// The audio input/filter/mapping arguments, by track count and bypass.
pub open spec fn spec_mux_audio_args(
    tracks: Seq<AudioTrackInput>,
    gain: u16,
    mode: QualityMode,
) -> Seq<Seq<char>> {
    if tracks.len() == 1 {
        let t = tracks[0];
        let bypass = t.source == AudioTrackSource::System && t.delay_ms == 0 && gain == 100 && (
        mode == QualityMode::Performance || mode == QualityMode::Balanced);
        let inputs = seq!["-i"@, t.path@];
        let maps = seq!["-map"@, "0:v:0"@, "-map"@, "1:a:0"@];
        if bypass {
            inputs + maps
        } else {
            match spec_single_track_filter(t.delay_ms, t.source, gain, mode) {
                Some(f) => inputs + seq!["-af"@, f] + maps,
                None => inputs + maps,
            }
        }
    } else {
        let inputs = track_input_args(tracks);
        inputs + seq![
            "-filter_complex"@,
            spec_mix_filter(tracks, gain, mode),
            "-filter_threads"@,
            "0"@,
            "-map"@,
            "0:v:0"@,
            "-map"@,
            "[aout]"@,
        ]
    }
}

/// One `-i path` pair per track.
pub open spec fn track_input_args(tracks: Seq<AudioTrackInput>) -> Seq<Seq<char>>
    decreases tracks.len(),
{
    if tracks.len() == 0 {
        Seq::empty()
    } else {
        track_input_args(tracks.drop_last()) + seq!["-i"@, tracks.last().path@]
    }
}

/// The audio codec arguments per container, with the optional MP4
/// faststart move.
pub open spec fn spec_mux_codec_args(format: OutputFormat, faststart: bool) -> Seq<Seq<char>> {
    match format {
        OutputFormat::WebM => seq!["-c:a"@, "libopus"@, "-b:a"@, "128k"@],
        OutputFormat::Mp4 => {
            let base = seq!["-c:a"@, "aac"@, "-b:a"@, "160k"@];
            if faststart {
                base + seq!["-movflags"@, "+faststart"@]
            } else {
                base
            }
        },
        OutputFormat::Mkv => seq!["-c:a"@, "aac"@, "-b:a"@, "160k"@],
    }
}

/// The full FFmpeg argument list of the mux invocation.
pub open spec fn spec_mux_args(
    format: OutputFormat,
    mode: QualityMode,
    temp_video: Seq<char>,
    final_output: Seq<char>,
    tracks: Seq<AudioTrackInput>,
    gain: u16,
    faststart: bool,
) -> Seq<Seq<char>> {
    spec_mux_head(temp_video) + spec_mux_audio_args(tracks, gain, mode) + seq![
        "-c:v"@,
        "copy"@,
        "-shortest"@,
    ] + spec_mux_codec_args(format, faststart) + seq![final_output]
}

fn push_arg(v: &mut Vec<String>, a: &'static str)
    ensures
        args_view(final(v)@) == args_view(old(v)@).push(a@),
{
    v.push(String::from_str(a));
    assert(args_view(v@) =~= args_view(old(v)@).push(a@));
}

fn push_arg_string(v: &mut Vec<String>, a: String)
    ensures
        args_view(final(v)@) == args_view(old(v)@).push(a@),
{
    let ghost av = a@;
    v.push(a);
    assert(args_view(v@) =~= args_view(old(v)@).push(av));
}

/// Builds the argument list FFmpeg is invoked with to combine the
/// `.video_only` file and the recorded audio tracks into the final
/// output.
#[verifier::rlimit(60)]
pub fn build_mux_args(
    format: &OutputFormat,
    quality_mode: &QualityMode,
    temp_video_path: &str,
    final_output_path: &str,
    tracks: &Vec<AudioTrackInput>,
    microphone_gain_percent: u16,
    faststart: bool,
) -> (r: Vec<String>)
    ensures
        args_view(r@) == spec_mux_args(
            *format,
            *quality_mode,
            temp_video_path@,
            final_output_path@,
            tracks@,
            microphone_gain_percent,
            faststart,
        ),
{
    let mut args: Vec<String> = Vec::new();
    push_arg(&mut args, "-y");
    push_arg(&mut args, "-hide_banner");
    push_arg(&mut args, "-loglevel");
    push_arg(&mut args, "error");
    push_arg(&mut args, "-threads");
    push_arg(&mut args, "0");
    push_arg(&mut args, "-i");
    push_arg_string(&mut args, String::from_str(temp_video_path));
    assert(args_view(args@) =~= spec_mux_head(temp_video_path@));

    if tracks.len() == 1 {
        let track = &tracks[0];
        push_arg(&mut args, "-i");
        push_arg_string(&mut args, track.path.clone());
        if !should_bypass_single_track_filter(track, microphone_gain_percent, quality_mode) {
            match build_single_track_filter(track, microphone_gain_percent, quality_mode) {
                Some(filter) => {
                    push_arg(&mut args, "-af");
                    push_arg_string(&mut args, filter);
                },
                None => {},
            }
        }
        push_arg(&mut args, "-map");
        push_arg(&mut args, "0:v:0");
        push_arg(&mut args, "-map");
        push_arg(&mut args, "1:a:0");
        assert(args_view(args@) =~= spec_mux_head(temp_video_path@) + spec_mux_audio_args(
            tracks@,
            microphone_gain_percent,
            *quality_mode,
        ));
    } else {
        let n = tracks.len();
        let mut i: usize = 0;
        while i < n
            invariant
                i <= n,
                n == tracks@.len(),
                args_view(args@) == spec_mux_head(temp_video_path@) + track_input_args(
                    tracks@.take(i as int),
                ),
            decreases n - i,
        {
            proof {
                assert(tracks@.take(i + 1).drop_last() =~= tracks@.take(i as int));
                assert(tracks@.take(i + 1).last() == tracks@[i as int]);
            }
            push_arg(&mut args, "-i");
            push_arg_string(&mut args, tracks[i].path.clone());
            assert(args_view(args@) =~= spec_mux_head(temp_video_path@) + track_input_args(
                tracks@.take(i + 1),
            ));
            i = i + 1;
        }
        proof {
            assert(tracks@.take(n as int) =~= tracks@);
        }
        let filter_graph = build_mix_filter(tracks, microphone_gain_percent, quality_mode);
        push_arg(&mut args, "-filter_complex");
        push_arg_string(&mut args, filter_graph);
        push_arg(&mut args, "-filter_threads");
        push_arg(&mut args, "0");
        push_arg(&mut args, "-map");
        push_arg(&mut args, "0:v:0");
        push_arg(&mut args, "-map");
        push_arg(&mut args, "[aout]");
        assert(args_view(args@) =~= spec_mux_head(temp_video_path@) + spec_mux_audio_args(
            tracks@,
            microphone_gain_percent,
            *quality_mode,
        ));
    }

    push_arg(&mut args, "-c:v");
    push_arg(&mut args, "copy");
    push_arg(&mut args, "-shortest");

    match format {
        OutputFormat::WebM => {
            push_arg(&mut args, "-c:a");
            push_arg(&mut args, "libopus");
            push_arg(&mut args, "-b:a");
            push_arg(&mut args, "128k");
        },
        OutputFormat::Mp4 => {
            push_arg(&mut args, "-c:a");
            push_arg(&mut args, "aac");
            push_arg(&mut args, "-b:a");
            push_arg(&mut args, "160k");
            if faststart {
                push_arg(&mut args, "-movflags");
                push_arg(&mut args, "+faststart");
            }
        },
        OutputFormat::Mkv => {
            push_arg(&mut args, "-c:a");
            push_arg(&mut args, "aac");
            push_arg(&mut args, "-b:a");
            push_arg(&mut args, "160k");
        },
    }

    push_arg_string(&mut args, String::from_str(final_output_path));
    assert(args_view(args@) =~= spec_mux_args(
        *format,
        *quality_mode,
        temp_video_path@,
        final_output_path@,
        tracks@,
        microphone_gain_percent,
        faststart,
    ));
    args
}

} // verus!
