//! FFmpeg audio filter construction: per-track resync and delay, the
//! microphone cleanup chains, gain, the system-bus DSP, and the final
//! mixing graph.

use vstd::prelude::*;

use crate::audio::{AudioTrackInput, AudioTrackSource};
use crate::config::QualityMode;
use crate::text::{dec_digit_char, dec_seq, join_seq, join_strings, u64_to_string};

verus! {

/// The system-bus DSP chain; skipped in performance mode.
pub open spec fn spec_dsp_chain(mode: QualityMode) -> Option<Seq<char>> {
    if mode == QualityMode::Performance {
        None
    } else {
        Some("highpass=f=80,lowpass=f=14000"@)
    }
}

pub fn dsp_filter_chain(quality_mode: &QualityMode) -> (r: Option<String>)
    ensures
        r is Some <==> spec_dsp_chain(*quality_mode) is Some,
        r matches Some(s) ==> spec_dsp_chain(*quality_mode) matches Some(c) && s@ == c,
{
    if matches!(quality_mode, QualityMode::Performance) {
        return None;
    }
    Some(String::from_str("highpass=f=80,lowpass=f=14000"))
}

/// The microphone cleanup chain by quality mode: full noise reduction in
/// quality mode, only the band-pass pair in balanced mode, nothing in
/// performance mode.
pub open spec fn spec_mic_chain(mode: QualityMode) -> Option<Seq<char>> {
    match mode {
        QualityMode::Quality => Some(
            "highpass=f=120,lowpass=f=9000,afftdn=nf=-32:nr=18:tn=1,agate=threshold=0.015:ratio=3:attack=20:release=250"@,
        ),
        QualityMode::Balanced => Some("highpass=f=120,lowpass=f=9000"@),
        QualityMode::Performance => None,
    }
}

pub fn microphone_filter_chain(quality_mode: &QualityMode) -> (r: Option<String>)
    ensures
        r is Some <==> spec_mic_chain(*quality_mode) is Some,
        r matches Some(s) ==> spec_mic_chain(*quality_mode) matches Some(c) && s@ == c,
{
    match quality_mode {
        QualityMode::Quality => Some(
            String::from_str(
                "highpass=f=120,lowpass=f=9000,afftdn=nf=-32:nr=18:tn=1,agate=threshold=0.015:ratio=3:attack=20:release=250",
            ),
        ),
        QualityMode::Balanced => Some(String::from_str("highpass=f=120,lowpass=f=9000")),
        QualityMode::Performance => None,
    }
}

/// The microphone gain as FFmpeg sees it: the percentage as a multiplier,
/// clamped into `[0, 16]`, written as a decimal with trailing zeros
/// trimmed.
pub open spec fn mic_gain_seq(percent: u16) -> Seq<char> {
    let clamped: int = if percent > 1600 {
        1600
    } else {
        percent as int
    };
    let whole = clamped / 100;
    let frac = clamped % 100;
    if frac == 0 {
        dec_seq(whole)
    } else if frac % 10 == 0 {
        dec_seq(whole) + "."@ + seq![dec_digit_char(frac / 10)]
    } else {
        dec_seq(whole) + "."@ + seq![dec_digit_char(frac / 10), dec_digit_char(frac % 10)]
    }
}

pub fn format_mic_gain(microphone_gain_percent: u16) -> (r: String)
    ensures
        r@ == mic_gain_seq(microphone_gain_percent),
{
    let clamped: u16 = if microphone_gain_percent > 1600 {
        1600
    } else {
        microphone_gain_percent
    };
    let whole: u64 = (clamped / 100) as u64;
    let frac: u64 = (clamped % 100) as u64;
    let mut s = u64_to_string(whole);
    if frac == 0 {
        return s;
    }
    s.append(".");
    let d1: u64 = frac / 10;
    let d2: u64 = frac % 10;
    if d2 == 0 {
        s.append(digit_str(d1));
        assert(s@ =~= mic_gain_seq(microphone_gain_percent));
    } else {
        s.append(digit_str(d1));
        s.append(digit_str(d2));
        assert(s@ =~= mic_gain_seq(microphone_gain_percent));
    }
    s
}

fn digit_str(d: u64) -> (r: &'static str)
    requires
        d < 10,
    ensures
        r@ == seq![dec_digit_char(d as int)],
{
    proof {
        reveal_strlit("0");
        reveal_strlit("1");
        reveal_strlit("2");
        reveal_strlit("3");
        reveal_strlit("4");
        reveal_strlit("5");
        reveal_strlit("6");
        reveal_strlit("7");
        reveal_strlit("8");
        reveal_strlit("9");
    }
    let r = if d == 0 {
        "0"
    } else if d == 1 {
        "1"
    } else if d == 2 {
        "2"
    } else if d == 3 {
        "3"
    } else if d == 4 {
        "4"
    } else if d == 5 {
        "5"
    } else if d == 6 {
        "6"
    } else if d == 7 {
        "7"
    } else if d == 8 {
        "8"
    } else {
        "9"
    };
    assert(r@ =~= seq![dec_digit_char(d as int)]);
    r
}

/// Whether a track is resampled and its timestamps rebased before use:
/// any delay, any microphone, or any mode above performance requires it.
pub open spec fn spec_requires_resync(mode: QualityMode, delay_ms: u64, source: AudioTrackSource) -> bool {
    delay_ms > 0 || source == AudioTrackSource::Microphone || mode != QualityMode::Performance
}

pub fn requires_resync(quality_mode: &QualityMode, track: &AudioTrackInput) -> (r: bool)
    ensures
        r == spec_requires_resync(*quality_mode, track.delay_ms, track.source),
{
    track.delay_ms > 0 || track.source == AudioTrackSource::Microphone || !matches!(
        quality_mode,
        QualityMode::Performance
    )
}

/// The per-track prefix: resample-and-rebase when resync is required,
/// else the identity filter.
pub open spec fn spec_track_prefix(mode: QualityMode, delay_ms: u64, source: AudioTrackSource) -> Seq<
    char,
> {
    if spec_requires_resync(mode, delay_ms, source) {
        "aresample=async=1:first_pts=0,asetpts=PTS-STARTPTS"@
    } else {
        "anull"@
    }
}

pub fn build_track_prefix(quality_mode: &QualityMode, track: &AudioTrackInput) -> (r: String)
    ensures
        r@ == spec_track_prefix(*quality_mode, track.delay_ms, track.source),
{
    if requires_resync(quality_mode, track) {
        String::from_str("aresample=async=1:first_pts=0,asetpts=PTS-STARTPTS")
    } else {
        String::from_str("anull")
    }
}

/// The body of one track's filter chain, after the input label: prefix,
/// then `adelay` for a non-zero delay, then the microphone cleanup and
/// gain for microphone tracks.
pub open spec fn spec_track_body(
    delay_ms: u64,
    source: AudioTrackSource,
    gain: u16,
    mode: QualityMode,
) -> Seq<char> {
    let p = spec_track_prefix(mode, delay_ms, source);
    let with_delay = if delay_ms > 0 {
        p + ",adelay="@ + dec_seq(delay_ms as int) + "|"@ + dec_seq(delay_ms as int)
    } else {
        p
    };
    if source == AudioTrackSource::Microphone {
        let with_mic = match spec_mic_chain(mode) {
            Some(c) => with_delay + ","@ + c,
            None => with_delay,
        };
        if gain != 100 {
            with_mic + ",volume="@ + mic_gain_seq(gain)
        } else {
            with_mic
        }
    } else {
        with_delay
    }
}

fn build_track_body(track: &AudioTrackInput, microphone_gain_percent: u16, quality_mode: &QualityMode) -> (r:
    String)
    ensures
        r@ == spec_track_body(track.delay_ms, track.source, microphone_gain_percent, *quality_mode),
{
    let mut chain = build_track_prefix(quality_mode, track);
    if track.delay_ms > 0 {
        chain.append(",adelay=");
        chain.append(u64_to_string(track.delay_ms).as_str());
        chain.append("|");
        chain.append(u64_to_string(track.delay_ms).as_str());
    }
    if matches!(track.source, AudioTrackSource::Microphone) {
        match microphone_filter_chain(quality_mode) {
            Some(mic_filter) => {
                chain.append(",");
                chain.append(mic_filter.as_str());
            },
            None => {},
        }
        if microphone_gain_percent != 100 {
            chain.append(",volume=");
            chain.append(format_mic_gain(microphone_gain_percent).as_str());
        }
    }
    chain
}

/// One track's chain with its input index and output label.
pub open spec fn spec_track_chain(
    input_idx: int,
    delay_ms: u64,
    source: AudioTrackSource,
    gain: u16,
    mode: QualityMode,
    output_label: Seq<char>,
) -> Seq<char> {
    "["@ + dec_seq(input_idx) + ":a]"@ + spec_track_body(delay_ms, source, gain, mode)
        + output_label
}

pub fn build_track_chain(
    input_idx: usize,
    track: &AudioTrackInput,
    microphone_gain_percent: u16,
    quality_mode: &QualityMode,
    output_label: &str,
) -> (r: String)
    ensures
        r@ == spec_track_chain(
            input_idx as int,
            track.delay_ms,
            track.source,
            microphone_gain_percent,
            *quality_mode,
            output_label@,
        ),
{
    let mut chain = String::from_str("[");
    chain.append(u64_to_string(input_idx as u64).as_str());
    chain.append(":a]");
    chain.append(build_track_body(track, microphone_gain_percent, quality_mode).as_str());
    chain.append(output_label);
    chain
}

/// The mixing graph for any number of tracks: with none, the first input
/// goes through the DSP chain; with one, its chain feeds the DSP; with
/// more, every chain gets a label, the labels feed `amix`, and the mix
/// goes through the DSP.
pub open spec fn spec_mix_filter(
    tracks: Seq<AudioTrackInput>,
    gain: u16,
    mode: QualityMode,
) -> Seq<char> {
    let dsp = spec_dsp_chain(mode);
    if tracks.len() == 0 {
        match dsp {
            Some(c) => "[0:a]anull,"@ + c + "[aout]"@,
            None => "[0:a]anull[aout]"@,
        }
    } else if tracks.len() == 1 {
        let chain = spec_track_chain(1, tracks[0].delay_ms, tracks[0].source, gain, mode, ""@);
        let with_dsp = match dsp {
            Some(c) => chain + ","@ + c,
            None => chain,
        };
        with_dsp + "[aout]"@
    } else {
        let parts = Seq::new(
            tracks.len(),
            |i: int|
                spec_track_chain(
                    i + 1,
                    tracks[i].delay_ms,
                    tracks[i].source,
                    gain,
                    mode,
                    "[a"@ + dec_seq(i + 1) + "]"@,
                ),
        );
        let labels = mix_labels(tracks.len() as int);
        let amix_line = labels + "amix=inputs="@ + dec_seq(tracks.len() as int)
            + ":normalize=0:dropout_transition=2[mix]"@;
        let tail = match dsp {
            Some(c) => "[mix]"@ + c + "[aout]"@,
            None => "[mix]anull[aout]"@,
        };
        join_seq(parts.push(amix_line).push(tail), ";"@)
    }
}

/// The concatenated `[a1][a2]…[aN]` labels feeding `amix`.
pub open spec fn mix_labels(n: int) -> Seq<char>
    decreases n,
{
    if n <= 0 {
        Seq::empty()
    } else {
        mix_labels(n - 1) + "[a"@ + dec_seq(n) + "]"@
    }
}

/// Builds the complete `-filter_complex` graph for the mux stage.
pub fn build_mix_filter(
    tracks: &Vec<AudioTrackInput>,
    microphone_gain_percent: u16,
    quality_mode: &QualityMode,
) -> (r: String)
    ensures
        r@ == spec_mix_filter(tracks@, microphone_gain_percent, *quality_mode),
{
    let n = tracks.len();
    if n == 0 {
        match dsp_filter_chain(quality_mode) {
            Some(chain) => {
                let mut s = String::from_str("[0:a]anull,");
                s.append(chain.as_str());
                s.append("[aout]");
                assert(s@ =~= spec_mix_filter(tracks@, microphone_gain_percent, *quality_mode));
                return s;
            },
            None => {
                let s = String::from_str("[0:a]anull[aout]");
                return s;
            },
        }
    }
    if n == 1 {
        let mut chain = build_track_chain(1, &tracks[0], microphone_gain_percent, quality_mode, "");
        match dsp_filter_chain(quality_mode) {
            Some(dsp_chain) => {
                chain.append(",");
                chain.append(dsp_chain.as_str());
            },
            None => {},
        }
        chain.append("[aout]");
        assert(chain@ =~= spec_mix_filter(tracks@, microphone_gain_percent, *quality_mode));
        return chain;
    }

    let ghost spec_parts = Seq::new(
        tracks@.len(),
        |i: int|
            spec_track_chain(
                i + 1,
                tracks@[i].delay_ms,
                tracks@[i].source,
                microphone_gain_percent,
                *quality_mode,
                "[a"@ + dec_seq(i + 1) + "]"@,
            ),
    );
    let mut parts: Vec<String> = Vec::new();
    let mut labels = String::new();
    let mut idx: usize = 0;
    while idx < n
        invariant
            idx <= n,
            n == tracks@.len(),
            n >= 2,
            parts@.len() == idx,
            spec_parts == Seq::new(
                tracks@.len(),
                |i: int|
                    spec_track_chain(
                        i + 1,
                        tracks@[i].delay_ms,
                        tracks@[i].source,
                        microphone_gain_percent,
                        *quality_mode,
                        "[a"@ + dec_seq(i + 1) + "]"@,
                    ),
            ),
            forall|k: int| 0 <= k < idx ==> (#[trigger] parts@[k])@ == spec_parts[k],
            labels@ == mix_labels(idx as int),
        decreases n - idx,
    {
        let input_idx = idx + 1;
        let mut label = String::from_str("[a");
        label.append(u64_to_string(input_idx as u64).as_str());
        label.append("]");
        labels.append(label.as_str());
        let chain = build_track_chain(
            input_idx,
            &tracks[idx],
            microphone_gain_percent,
            quality_mode,
            label.as_str(),
        );
        parts.push(chain);
        idx = idx + 1;
    }

    let mut amix_line = labels;
    amix_line.append("amix=inputs=");
    amix_line.append(u64_to_string(n as u64).as_str());
    amix_line.append(":normalize=0:dropout_transition=2[mix]");
    parts.push(amix_line);

    let tail: String = match dsp_filter_chain(quality_mode) {
        Some(dsp_chain) => {
            let mut tl = String::from_str("[mix]");
            tl.append(dsp_chain.as_str());
            tl.append("[aout]");
            tl
        },
        None => String::from_str("[mix]anull[aout]"),
    };
    parts.push(tail);

    let r = join_strings(&parts, ";");
    proof {
        let full = parts@.map_values(|p: String| p@);
        let expect = spec_parts.push(
            mix_labels(n as int) + "amix=inputs="@ + dec_seq(n as int)
                + ":normalize=0:dropout_transition=2[mix]"@,
        ).push(
            match spec_dsp_chain(*quality_mode) {
                Some(c) => "[mix]"@ + c + "[aout]"@,
                None => "[mix]anull[aout]"@,
            },
        );
        assert(full =~~= expect);
    }
    r
}

/// The single-track `-af` chain: the track body plus the DSP chain, or
/// nothing at all when every stage is the identity.
pub open spec fn spec_single_track_filter(
    delay_ms: u64,
    source: AudioTrackSource,
    gain: u16,
    mode: QualityMode,
) -> Option<Seq<char>> {
    let segs = single_track_segments(delay_ms, source, gain, mode);
    if segs.len() == 0 {
        None
    } else {
        Some(join_seq(segs, ","@))
    }
}

/// Builds the `-af` chain for a lone audio track.
pub fn build_single_track_filter(
    track: &AudioTrackInput,
    microphone_gain_percent: u16,
    quality_mode: &QualityMode,
) -> (r: Option<String>)
    ensures
        r is Some <==> spec_single_track_filter(
            track.delay_ms,
            track.source,
            microphone_gain_percent,
            *quality_mode,
        ) is Some,
        r matches Some(s) ==> (spec_single_track_filter(
            track.delay_ms,
            track.source,
            microphone_gain_percent,
            *quality_mode,
        ) matches Some(c) && s@ == c),
{
    let mut segments: Vec<String> = Vec::new();
    let prefix = build_track_prefix(quality_mode, track);
    proof {
        reveal_strlit("anull");
        reveal_strlit("aresample=async=1:first_pts=0,asetpts=PTS-STARTPTS");
    }
    if requires_resync(quality_mode, track) {
        assert(prefix@ != "anull"@) by {
            assert(prefix@.len() != "anull"@.len());
        }
        segments.push(prefix);
    } else {
        assert(prefix@ == "anull"@);
    }

    if track.delay_ms > 0 {
        let mut d = String::from_str("adelay=");
        d.append(u64_to_string(track.delay_ms).as_str());
        d.append("|");
        d.append(u64_to_string(track.delay_ms).as_str());
        segments.push(d);
    }
    if matches!(track.source, AudioTrackSource::Microphone) {
        match microphone_filter_chain(quality_mode) {
            Some(mic_filter) => {
                segments.push(mic_filter);
            },
            None => {},
        }
        if microphone_gain_percent != 100 {
            let mut v = String::from_str("volume=");
            v.append(format_mic_gain(microphone_gain_percent).as_str());
            segments.push(v);
        }
    }
    match dsp_filter_chain(quality_mode) {
        Some(dsp_chain) => {
            segments.push(dsp_chain);
        },
        None => {},
    }

    proof {
        let spec_segs = single_track_segments(
            track.delay_ms,
            track.source,
            microphone_gain_percent,
            *quality_mode,
        );
        assert(segments@.map_values(|p: String| p@) =~= spec_segs);
    }
    if segments.len() == 0 {
        None
    } else {
        Some(join_strings(&segments, ","))
    }
}

/// The segment list behind `spec_single_track_filter`.
pub open spec fn single_track_segments(
    delay_ms: u64,
    source: AudioTrackSource,
    gain: u16,
    mode: QualityMode,
) -> Seq<Seq<char>> {
    let prefix = spec_track_prefix(mode, delay_ms, source);
    let segs0: Seq<Seq<char>> = if prefix == "anull"@ {
        Seq::empty()
    } else {
        seq![prefix]
    };
    let segs1: Seq<Seq<char>> = if delay_ms > 0 {
        segs0.push("adelay="@ + dec_seq(delay_ms as int) + "|"@ + dec_seq(delay_ms as int))
    } else {
        segs0
    };
    let segs2: Seq<Seq<char>> = if source == AudioTrackSource::Microphone {
        let with_mic = match spec_mic_chain(mode) {
            Some(c) => segs1.push(c),
            None => segs1,
        };
        if gain != 100 {
            with_mic.push("volume="@ + mic_gain_seq(gain))
        } else {
            with_mic
        }
    } else {
        segs1
    };
    match spec_dsp_chain(mode) {
        Some(c) => segs2.push(c),
        None => segs2,
    }
}

} // verus!
