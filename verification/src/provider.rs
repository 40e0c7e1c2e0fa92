//! Enumeration model for capturable targets: stable identifiers, the window
//! filtering rules, monitor labels, and the ordering of the target list.

use vstd::prelude::*;

use crate::models::{CaptureTarget, TargetKind};
use crate::text::{
    all_space, eq_ignore_case, has_sub, is_blank, lower_chars_vec, lower_has_sub, lower_seq,
    trim_seq, trim_string,
};

verus! {

/// Salt mixed into monitor handles when deriving stable IDs.
pub const MONITOR_SALT: u64 = 0x045D_9F3B;

/// Salt mixed into window handles when deriving stable IDs.
pub const WINDOW_SALT: u64 = 0x27D4_EB2D;

/// The 64-to-32-bit mix behind stable target IDs: a fixed avalanche of the
/// salted handle, truncated, with zero clamped to one.
pub open spec fn stable_id_spec(base: u64, salt: u64) -> u32 {
    let v0 = base ^ salt;
    let v1 = v0 ^ (v0 >> 33);
    let v2 = vstd::wrapping::u64_specs::wrapping_mul(v1, 0xff51_afd7_ed55_8ccd);
    let v3 = v2 ^ (v2 >> 33);
    let v4 = vstd::wrapping::u64_specs::wrapping_mul(v3, 0xc4ce_b9fe_1a85_ec53);
    let v5 = v4 ^ (v4 >> 33);
    let t = v5 as u32;
    if t >= 1 {
        t
    } else {
        1u32
    }
}

/// The stable, non-zero 32-bit ID of an OS handle under a given salt. Being
/// a pure function of `(base, salt)`, the same handle yields the same ID on
/// every call and in every enumeration.
pub fn stable_target_id(base: u64, salt: u64) -> (r: u32)
    ensures
        r == stable_id_spec(base, salt),
        r >= 1,
{
    let v0 = base ^ salt;
    let v1 = v0 ^ (v0 >> 33u64);
    let v2 = v1.wrapping_mul(0xff51_afd7_ed55_8ccd);
    let v3 = v2 ^ (v2 >> 33u64);
    let v4 = v3.wrapping_mul(0xc4ce_b9fe_1a85_ec53);
    let v5 = v4 ^ (v4 >> 33u64);
    let t = v5 as u32;
    if t >= 1 {
        t
    } else {
        1
    }
}

/// Determinism of the ID mix, stated on its own: equal handle and salt give
/// equal IDs, and an ID is never zero.
pub proof fn lemma_stable_id_deterministic(b1: u64, s1: u64, b2: u64, s2: u64)
    ensures
        (b1 == b2 && s1 == s2) ==> stable_id_spec(b1, s1) == stable_id_spec(b2, s2),
        stable_id_spec(b1, s1) >= 1,
{
}

/// Monitors sort before windows.
pub open spec fn spec_kind_rank(k: TargetKind) -> int {
    match k {
        TargetKind::Monitor => 0,
        TargetKind::Window => 1,
    }
}

pub fn kind_rank(kind: &TargetKind) -> (r: u8)
    ensures
        r as int == spec_kind_rank(*kind),
{
    match kind {
        TargetKind::Monitor => 0,
        TargetKind::Window => 1,
    }
}

/// Strict lexicographic order on character sequences, by code point; a
/// proper prefix sorts first.
pub open spec fn seq_lt(a: Seq<char>, b: Seq<char>) -> bool
    decreases a.len(),
{
    if b.len() == 0 {
        false
    } else if a.len() == 0 {
        true
    } else if a[0] == b[0] {
        seq_lt(a.drop_first(), b.drop_first())
    } else {
        (a[0] as int) < (b[0] as int)
    }
}

proof fn lemma_seq_lt_connected(a: Seq<char>, b: Seq<char>)
    ensures
        a != b ==> seq_lt(a, b) || seq_lt(b, a),
    decreases a.len(),
{
    if a.len() == 0 && b.len() == 0 {
        assert(a =~= b);
    }
    if a.len() > 0 && b.len() > 0 && a[0] == b[0] {
        lemma_seq_lt_connected(a.drop_first(), b.drop_first());
        if a.drop_first() == b.drop_first() {
            assert forall|k: int| 0 <= k < a.len() implies a[k] == b[k] by {
                if k > 0 {
                    assert(a[k] == a.drop_first()[k - 1]);
                    assert(b[k] == b.drop_first()[k - 1]);
                }
            }
            assert(a =~= b);
        }
    }
}

proof fn lemma_seq_lt_asym(a: Seq<char>, b: Seq<char>)
    ensures
        seq_lt(a, b) ==> !seq_lt(b, a),
    decreases a.len(),
{
    if a.len() > 0 && b.len() > 0 && a[0] == b[0] {
        lemma_seq_lt_asym(a.drop_first(), b.drop_first());
    }
}

proof fn lemma_seq_lt_trans(a: Seq<char>, b: Seq<char>, c: Seq<char>)
    ensures
        (seq_lt(a, b) && seq_lt(b, c)) ==> seq_lt(a, c),
    decreases a.len(),
{
    if seq_lt(a, b) && seq_lt(b, c) {
        if a.len() > 0 && b.len() > 0 && c.len() > 0 && a[0] == b[0] && b[0] == c[0] {
            lemma_seq_lt_trans(a.drop_first(), b.drop_first(), c.drop_first());
        }
    }
}

/// The name key a target sorts by: its name, case-folded.
pub open spec fn sort_name(t: CaptureTarget) -> Seq<char> {
    lower_seq(t.name@)
}

/// Primary targets sort before the rest.
pub open spec fn primary_rank(t: CaptureTarget) -> int {
    if t.is_primary {
        0
    } else {
        1
    }
}

/// The total preorder targets are listed in: monitors before windows,
/// primary first, then case-insensitive name, then ID.
pub open spec fn target_le(a: CaptureTarget, b: CaptureTarget) -> bool {
    if spec_kind_rank(a.kind) != spec_kind_rank(b.kind) {
        spec_kind_rank(a.kind) < spec_kind_rank(b.kind)
    } else if primary_rank(a) != primary_rank(b) {
        primary_rank(a) < primary_rank(b)
    } else if sort_name(a) != sort_name(b) {
        seq_lt(sort_name(a), sort_name(b))
    } else {
        a.id <= b.id
    }
}

/// The order is total.
pub proof fn lemma_target_le_total(a: CaptureTarget, b: CaptureTarget)
    ensures
        target_le(a, b) || target_le(b, a),
{
    lemma_seq_lt_connected(sort_name(a), sort_name(b));
}

/// The order is transitive.
pub proof fn lemma_target_le_trans(a: CaptureTarget, b: CaptureTarget, c: CaptureTarget)
    ensures
        (target_le(a, b) && target_le(b, c)) ==> target_le(a, c),
{
    lemma_seq_lt_trans(sort_name(a), sort_name(b), sort_name(c));
    lemma_seq_lt_asym(sort_name(a), sort_name(b));
    lemma_seq_lt_asym(sort_name(b), sort_name(c));
}

/// A target list in the order `get_targets` presents.
pub open spec fn targets_sorted(s: Seq<CaptureTarget>) -> bool {
    forall|i: int, j: int| 0 <= i < j < s.len() ==> #[trigger] target_le(s[i], s[j])
}

fn name_lt(a: &Vec<char>, b: &Vec<char>) -> (r: bool)
    ensures
        r == seq_lt(a@, b@),
{
    let la = a.len();
    let lb = b.len();
    let min = if la < lb {
        la
    } else {
        lb
    };
    let mut i: usize = 0;
    while i < min
        invariant
            i <= min,
            la == a@.len(),
            lb == b@.len(),
            min == if la < lb {
                la as int
            } else {
                lb as int
            },
            forall|k: int| 0 <= k < i ==> a@[k] == b@[k],
        decreases min - i,
    {
        let ca = a[i];
        let cb = b[i];
        if ca != cb {
            proof {
                lemma_seq_lt_skip(a@, b@, i as int);
                assert(a@.skip(i as int)[0] == a@[i as int]);
                assert(b@.skip(i as int)[0] == b@[i as int]);
            }
            return ca < cb;
        }
        i = i + 1;
    }
    proof {
        lemma_seq_lt_skip(a@, b@, min as int);
    }
    la < lb
}

proof fn lemma_seq_lt_skip(a: Seq<char>, b: Seq<char>, i: int)
    requires
        0 <= i <= a.len(),
        i <= b.len(),
        forall|k: int| 0 <= k < i ==> a[k] == b[k],
    ensures
        seq_lt(a, b) == seq_lt(a.skip(i), b.skip(i)),
    decreases i,
{
    if i > 0 {
        assert(a.len() > 0 && b.len() > 0 && a[0] == b[0]);
        assert(seq_lt(a, b) == seq_lt(a.drop_first(), b.drop_first()));
        let a1 = a.drop_first();
        let b1 = b.drop_first();
        assert(forall|k: int| 0 <= k < i - 1 ==> a1[k] == b1[k]);
        lemma_seq_lt_skip(a1, b1, i - 1);
        assert(a1.skip(i - 1) =~= a.skip(i));
        assert(b1.skip(i - 1) =~= b.skip(i));
    } else {
        assert(a.skip(0) =~= a);
        assert(b.skip(0) =~= b);
    }
}

/// The executable form of `target_le`.
pub fn target_le_exec(a: &CaptureTarget, b: &CaptureTarget) -> (r: bool)
    ensures
        r == target_le(*a, *b),
{
    let ra = kind_rank(&a.kind);
    let rb = kind_rank(&b.kind);
    if ra != rb {
        return ra < rb;
    }
    if a.is_primary != b.is_primary {
        return a.is_primary;
    }
    let na = lower_chars_vec(a.name.as_str());
    let nb = lower_chars_vec(b.name.as_str());
    if !crate::text::vec_chars_eq(&na, &nb) {
        return name_lt(&na, &nb);
    }
    a.id <= b.id
}

/// Sorts targets as `get_targets` presents them: same elements, ordered by
/// `target_le`.
pub fn sort_targets(targets: Vec<CaptureTarget>) -> (r: Vec<CaptureTarget>)
    ensures
        r@.to_multiset() == targets@.to_multiset(),
        targets_sorted(r@),
{
    broadcast use vstd::seq_lib::group_to_multiset_ensures;
    broadcast use vstd::seq_lib::to_multiset_insert;

    let ghost orig = targets@;
    let mut v = targets;
    if v.len() <= 1 {
        return v;
    }
    let mut i: usize = 1;
    while i < v.len()
        invariant
            1 <= i <= v@.len(),
            v@.len() == orig.len(),
            v@.to_multiset() == orig.to_multiset(),
            forall|p: int, q: int| 0 <= p < q < i ==> #[trigger] target_le(v@[p], v@[q]),
        decreases v@.len() - i,
    {
        let ghost v0 = v@;
        let x = v.remove(i);
        let ghost v1 = v@;
        let mut j: usize = i;
        while j > 0 && !target_le_exec(&v[j - 1], &x)
            invariant
                j <= i,
                i < v0.len(),
                v@ == v1,
                v1.len() == v0.len() - 1,
                forall|p: int, q: int| 0 <= p < q < i ==> #[trigger] target_le(v1[p], v1[q]),
                forall|k: int| j <= k < i ==> !#[trigger] target_le(v1[k], x),
            decreases j,
        {
            j = j - 1;
        }
        v.insert(j, x);
        proof {
            broadcast use vstd::seq_lib::group_to_multiset_ensures;
            broadcast use vstd::seq_lib::to_multiset_insert;
            broadcast use vstd::multiset::group_multiset_axioms;

            assert(v@ == v1.insert(j as int, x));
            assert(v0.contains(v0[i as int]));
            assert(v0.to_multiset().count(x) > 0);
            assert(v1.to_multiset() =~= v0.to_multiset().remove(x));
            assert(v@.to_multiset() =~= v1.to_multiset().insert(x));
            assert(v@.to_multiset() =~= orig.to_multiset());
            assert forall|p: int, q: int| 0 <= p < q < i + 1 implies #[trigger] target_le(
                v@[p],
                v@[q],
            ) by {
                if q < j {
                    assert(v@[p] == v1[p] && v@[q] == v1[q]);
                } else if p < j && q == j {
                    assert(v@[q] == x);
                    assert(target_le(v1[j - 1], x));
                    if p < j - 1 {
                        assert(target_le(v1[p], v1[j - 1]));
                        lemma_target_le_trans(v1[p], v1[j - 1], x);
                    }
                } else if p < j && q > j {
                    assert(v@[p] == v1[p] && v@[q] == v1[q - 1]);
                    if q - 1 >= i {
                        assert(false);
                    }
                    assert(target_le(v1[p], v1[q - 1]));
                } else if p == j {
                    assert(v@[p] == x && v@[q] == v1[q - 1]);
                    assert(!target_le(v1[q - 1], x));
                    lemma_target_le_total(x, v1[q - 1]);
                } else {
                    assert(v@[p] == v1[p - 1] && v@[q] == v1[q - 1]);
                    assert(!target_le(v1[p - 1], x));
                    assert(target_le(v1[p - 1], v1[q - 1]));
                }
            }
        }
        i = i + 1;
    }
    v
}

/// Window titles that disqualify a window from capture: blank, or naming the
/// on-screen keyboard surface in either localisation.
pub open spec fn excluded_title(t: Seq<char>) -> bool {
    let norm = lower_seq(trim_seq(t));
    all_space(t) || has_sub(norm, lower_seq("windows input experience"@)) || has_sub(
        norm,
        lower_seq("experiencia de entrada de windows"@),
    )
}

pub fn should_exclude_window_title(title: &str) -> (r: bool)
    ensures
        r == excluded_title(title@),
{
    if is_blank(title) {
        return true;
    }
    let trimmed = trim_string(title);
    lower_has_sub(trimmed.as_str(), "windows input experience") || lower_has_sub(
        trimmed.as_str(),
        "experiencia de entrada de windows",
    )
}

/// System-shell process names whose windows are never offered for capture.
pub open spec fn excluded_process(p: Seq<char>) -> bool {
    let norm = lower_seq(trim_seq(p));
    norm == lower_seq("textinputhost.exe"@) || norm == lower_seq("shellexperiencehost.exe"@)
        || norm == lower_seq("searchhost.exe"@) || norm == lower_seq(
        "startmenuexperiencehost.exe"@,
    ) || norm == lower_seq("lockapp.exe"@)
}

pub fn should_exclude_window_process(process_name: &str) -> (r: bool)
    ensures
        r == excluded_process(process_name@),
{
    let trimmed = trim_string(process_name);
    eq_ignore_case(trimmed.as_str(), "textinputhost.exe") || eq_ignore_case(
        trimmed.as_str(),
        "shellexperiencehost.exe",
    ) || eq_ignore_case(trimmed.as_str(), "searchhost.exe") || eq_ignore_case(
        trimmed.as_str(),
        "startmenuexperiencehost.exe",
    ) || eq_ignore_case(trimmed.as_str(), "lockapp.exe")
}

/// Repeatedly removes a leading `\\.\` from an already-trimmed name.
pub open spec fn strip_display_prefix(s: Seq<char>) -> Seq<char>
    decreases s.len(),
{
    let p = "\\\\.\\"@;
    if s.len() >= 4 && s.subrange(0, 4) == p {
        strip_display_prefix(s.skip(4))
    } else {
        s
    }
}

/// The display form of a device name: trimmed, with any `\\.\` prefixes
/// removed, trimmed again.
pub open spec fn normalized_device_name(s: Seq<char>) -> Seq<char> {
    trim_seq(strip_display_prefix(trim_seq(s)))
}

pub fn normalize_display_device_name(device_name: &str) -> (r: String)
    ensures
        r@ == normalized_device_name(device_name@),
{
    let mut cur = trim_string(device_name);
    loop
        invariant
            strip_display_prefix(cur@) == strip_display_prefix(trim_seq(device_name@)),
        ensures
            cur@ == strip_display_prefix(trim_seq(device_name@)),
        decreases cur@.len(),
    {
        let s = cur.as_str();
        let n = s.unicode_len();
        let has_prefix: bool = if n >= 4 {
            proof {
                reveal_strlit("\\\\.\\");
            }
            s.get_char(0) == '\\' && s.get_char(1) == '\\' && s.get_char(2) == '.' && s.get_char(3)
                == '\\'
        } else {
            false
        };
        proof {
            reveal_strlit("\\\\.\\");
            let p = "\\\\.\\"@;
            assert(p.len() == 4);
            if cur@.len() >= 4 {
                if cur@.subrange(0, 4) == p {
                    assert(cur@.subrange(0, 4)[0] == cur@[0]);
                    assert(cur@.subrange(0, 4)[1] == cur@[1]);
                    assert(cur@.subrange(0, 4)[2] == cur@[2]);
                    assert(cur@.subrange(0, 4)[3] == cur@[3]);
                }
                if has_prefix {
                    assert(cur@.subrange(0, 4) =~= p);
                }
            }
        }
        if !has_prefix {
            break;
        }
        let rest = s.substring_char(4, n);
        cur = String::from_str(rest);
    }
    trim_string(cur.as_str())
}

/// The label shown for a monitor: `Principal`, the friendly name, and the
/// normalized display name (when it adds information), joined by ` - `;
/// `Monitor` when all of those are empty.
pub open spec fn monitor_label_parts(
    friendly: Seq<char>,
    device: Option<Seq<char>>,
    is_primary: bool,
) -> Seq<Seq<char>> {
    let f = trim_seq(friendly);
    let d = match device {
        Some(s) => normalized_device_name(s),
        None => Seq::empty(),
    };
    let base: Seq<Seq<char>> = if is_primary {
        seq!["Principal"@]
    } else {
        Seq::empty()
    };
    let with_friendly: Seq<Seq<char>> = if f.len() > 0 {
        base.push(f)
    } else {
        base
    };
    if d.len() > 0 && !has_sub(lower_seq(f), lower_seq(d)) {
        with_friendly.push(d)
    } else {
        with_friendly
    }
}

pub open spec fn monitor_label_spec(
    friendly: Seq<char>,
    device: Option<Seq<char>>,
    is_primary: bool,
) -> Seq<char> {
    let parts = monitor_label_parts(friendly, device, is_primary);
    if parts.len() == 0 {
        "Monitor"@
    } else {
        crate::text::join_seq(parts, " - "@)
    }
}

pub fn format_monitor_label(friendly_name: &str, device_name: Option<&str>, is_primary: bool) -> (r:
    String)
    ensures
        r@ == monitor_label_spec(
            friendly_name@,
            match device_name {
                Some(d) => Some(d@),
                None => None,
            },
            is_primary,
        ),
{
    let friendly = trim_string(friendly_name);
    let display: String = match device_name {
        Some(d) => normalize_display_device_name(d),
        None => String::new(),
    };

    let mut parts: Vec<String> = Vec::new();
    if is_primary {
        parts.push(String::from_str("Principal"));
    }

    let friendly_empty = friendly.as_str().unicode_len() == 0;
    if !friendly_empty {
        parts.push(friendly.clone());
    }

    let display_empty = display.as_str().unicode_len() == 0;
    if !display_empty && !lower_has_sub(friendly.as_str(), display.as_str()) {
        parts.push(display.clone());
    }

    let ghost spec_parts = monitor_label_parts(
        friendly_name@,
        match device_name {
            Some(d) => Some(d@),
            None => None,
        },
        is_primary,
    );
    assert(parts@.map_values(|p: String| p@) =~= spec_parts);

    if parts.len() == 0 {
        String::from_str("Monitor")
    } else {
        crate::text::join_strings(&parts, " - ")
    }
}

/// What the OS reports about one monitor. `info` is absent when the
/// geometry query failed; `width`/`height` are absent when the size query
/// failed.
#[derive(Debug, Clone)]
pub struct MonitorDescriptor {
    pub handle: u64,
    pub name: Option<String>,
    pub device_name: Option<String>,
    pub info: Option<MonitorGeometry>,
    pub width: Option<u32>,
    pub height: Option<u32>,
}

/// A monitor's placement in the virtual screen.
#[derive(Debug, Clone, Copy, PartialEq, Eq, Structural)]
pub struct MonitorGeometry {
    pub origin_x: i32,
    pub origin_y: i32,
    pub width: u32,
    pub height: u32,
    pub is_primary: bool,
}

/// What the OS reports about one window. Optional fields are absent when
/// the corresponding query failed.
#[derive(Debug, Clone)]
pub struct WindowDescriptor {
    pub handle: u64,
    pub title: Option<String>,
    pub rect: Option<WindowRect>,
    pub minimized: bool,
    pub cloaked: bool,
    pub has_monitor: bool,
    pub process_name: Option<String>,
}

/// A window's bounding rectangle, in virtual-screen coordinates.
#[derive(Debug, Clone, Copy, PartialEq, Eq, Structural)]
pub struct WindowRect {
    pub left: i32,
    pub top: i32,
    pub right: i32,
    pub bottom: i32,
}

/// The geometry used for a monitor: what the OS reported, or the fallback.
pub open spec fn monitor_geometry(m: MonitorDescriptor) -> MonitorGeometry {
    match m.info {
        Some(g) => g,
        None => MonitorGeometry {
            origin_x: 0,
            origin_y: 0,
            width: 1920,
            height: 1080,
            is_primary: false,
        },
    }
}

/// A monitor's capture width: the reported width, else the screen width,
/// floored at one.
pub open spec fn monitor_width(m: MonitorDescriptor) -> u32 {
    let w = match m.width {
        Some(w) => w,
        None => monitor_geometry(m).width,
    };
    if w >= 1 {
        w
    } else {
        1u32
    }
}

pub open spec fn monitor_height(m: MonitorDescriptor) -> u32 {
    let h = match m.height {
        Some(h) => h,
        None => monitor_geometry(m).height,
    };
    if h >= 1 {
        h
    } else {
        1u32
    }
}

pub open spec fn monitor_is_primary(m: MonitorDescriptor, primary_handle: Option<u64>) -> bool {
    monitor_geometry(m).is_primary || primary_handle == Some(m.handle)
}

/// The friendly name a monitor label starts from.
pub open spec fn monitor_friendly(m: MonitorDescriptor) -> Seq<char> {
    match m.name {
        Some(n) => n@,
        None => match m.device_name {
            Some(d) => d@,
            None => "Monitor"@,
        },
    }
}

pub open spec fn monitor_device(m: MonitorDescriptor) -> Option<Seq<char>> {
    match m.device_name {
        Some(d) => Some(d@),
        None => None,
    }
}

/// The capture target a monitor descriptor denotes.
pub open spec fn matches_monitor(
    t: CaptureTarget,
    m: MonitorDescriptor,
    primary_handle: Option<u64>,
) -> bool {
    let geo = monitor_geometry(m);
    &&& t.id == stable_id_spec(m.handle, MONITOR_SALT)
    &&& t.name@ == monitor_label_spec(
        monitor_friendly(m),
        monitor_device(m),
        monitor_is_primary(m, primary_handle),
    )
    &&& t.width == monitor_width(m)
    &&& t.height == monitor_height(m)
    &&& t.origin_x == geo.origin_x
    &&& t.origin_y == geo.origin_y
    &&& t.screen_width == geo.width
    &&& t.screen_height == geo.height
    &&& t.is_primary == monitor_is_primary(m, primary_handle)
    &&& t.kind == TargetKind::Monitor
}

pub fn build_monitor_target(m: &MonitorDescriptor, primary_handle: Option<u64>) -> (t: CaptureTarget)
    ensures
        matches_monitor(t, *m, primary_handle),
{
    let geo: MonitorGeometry = match &m.info {
        Some(g) => *g,
        None => MonitorGeometry {
            origin_x: 0,
            origin_y: 0,
            width: 1920,
            height: 1080,
            is_primary: false,
        },
    };
    let w0: u32 = match m.width {
        Some(w) => w,
        None => geo.width,
    };
    let width: u32 = if w0 >= 1 {
        w0
    } else {
        1
    };
    let h0: u32 = match m.height {
        Some(h) => h,
        None => geo.height,
    };
    let height: u32 = if h0 >= 1 {
        h0
    } else {
        1
    };
    let is_primary = geo.is_primary || (match primary_handle {
        Some(p) => p == m.handle,
        None => false,
    });
    let friendly: String = match &m.name {
        Some(n) => n.clone(),
        None => match &m.device_name {
            Some(d) => d.clone(),
            None => String::from_str("Monitor"),
        },
    };
    let name = format_monitor_label(
        friendly.as_str(),
        match &m.device_name {
            Some(d) => Some(d.as_str()),
            None => None,
        },
        is_primary,
    );
    CaptureTarget {
        id: stable_target_id(m.handle, MONITOR_SALT),
        name,
        width,
        height,
        origin_x: geo.origin_x,
        origin_y: geo.origin_y,
        screen_width: geo.width,
        screen_height: geo.height,
        is_primary,
        kind: TargetKind::Monitor,
    }
}

/// A window rectangle's capture width, floored at one.
pub open spec fn window_rect_width(rc: WindowRect) -> int {
    let d = rc.right - rc.left;
    if d >= 1 {
        d
    } else {
        1
    }
}

pub open spec fn window_rect_height(rc: WindowRect) -> int {
    let d = rc.bottom - rc.top;
    if d >= 1 {
        d
    } else {
        1
    }
}

/// Whether a window is offered for capture: it must have a title that is
/// neither blank nor excluded, a rectangle at least 64 pixels each way, be
/// neither minimized nor cloaked, lie on a monitor, and not belong to an
/// excluded shell process.
pub open spec fn window_kept(w: WindowDescriptor) -> bool {
    match w.title {
        None => false,
        Some(title) => {
            &&& !all_space(title@)
            &&& !excluded_title(title@)
            &&& (match w.rect {
                None => false,
                Some(rc) => window_rect_width(rc) >= 64 && window_rect_height(rc) >= 64,
            })
            &&& !w.minimized
            &&& !w.cloaked
            &&& w.has_monitor
            &&& (match w.process_name {
                Some(p) => !excluded_process(p@),
                None => true,
            })
        },
    }
}

/// The capture target a kept window denotes.
pub open spec fn matches_window(t: CaptureTarget, w: WindowDescriptor) -> bool {
    match (w.title, w.rect) {
        (Some(title), Some(rc)) => {
            &&& t.id == stable_id_spec(w.handle, WINDOW_SALT)
            &&& t.name@ == trim_seq(title@)
            &&& t.width == window_rect_width(rc)
            &&& t.height == window_rect_height(rc)
            &&& t.origin_x == rc.left
            &&& t.origin_y == rc.top
            &&& t.screen_width == window_rect_width(rc)
            &&& t.screen_height == window_rect_height(rc)
            &&& !t.is_primary
            &&& t.kind == TargetKind::Window
        },
        _ => false,
    }
}

pub fn build_window_target(w: &WindowDescriptor) -> (r: Option<CaptureTarget>)
    ensures
        r is Some <==> window_kept(*w),
        r matches Some(t) ==> matches_window(t, *w),
{
    let title_raw: &String = match &w.title {
        Some(t) => t,
        None => {
            return None;
        },
    };
    let title = trim_string(title_raw.as_str());
    if title.as_str().unicode_len() == 0 {
        proof {
            crate::text::lemma_blank_iff_all_space(title_raw@);
        }
        return None;
    }
    proof {
        crate::text::lemma_blank_iff_all_space(title_raw@);
    }
    if should_exclude_window_title(title_raw.as_str()) {
        return None;
    }
    let rc: WindowRect = match &w.rect {
        Some(rc) => *rc,
        None => {
            return None;
        },
    };
    let dw: i64 = rc.right as i64 - rc.left as i64;
    let dh: i64 = rc.bottom as i64 - rc.top as i64;
    let width64: i64 = if dw >= 1 {
        dw
    } else {
        1
    };
    let height64: i64 = if dh >= 1 {
        dh
    } else {
        1
    };
    if width64 < 64 || height64 < 64 {
        return None;
    }
    let width: u32 = width64 as u32;
    let height: u32 = height64 as u32;
    if w.minimized || w.cloaked {
        return None;
    }
    if !w.has_monitor {
        return None;
    }
    match &w.process_name {
        Some(p) => {
            if should_exclude_window_process(p.as_str()) {
                return None;
            }
        },
        None => {},
    }
    Some(
        CaptureTarget {
            id: stable_target_id(w.handle, WINDOW_SALT),
            name: title,
            width,
            height,
            origin_x: rc.left,
            origin_y: rc.top,
            screen_width: width,
            screen_height: height,
            is_primary: false,
            kind: TargetKind::Window,
        },
    )
}

/// How many of a sequence of windows are kept.
pub open spec fn kept_count(ws: Seq<WindowDescriptor>) -> int
    decreases ws.len(),
{
    if ws.len() == 0 {
        0
    } else {
        kept_count(ws.drop_last()) + if window_kept(ws.last()) {
            1int
        } else {
            0int
        }
    }
}

proof fn lemma_kept_count_nonneg(ws: Seq<WindowDescriptor>)
    ensures
        0 <= kept_count(ws) <= ws.len(),
    decreases ws.len(),
{
    if ws.len() > 0 {
        lemma_kept_count_nonneg(ws.drop_last());
    }
}

/// Whether a target is the one some listed monitor denotes.
pub open spec fn from_monitor(
    t: CaptureTarget,
    ms: Seq<MonitorDescriptor>,
    primary_handle: Option<u64>,
) -> bool {
    exists|k: int| 0 <= k < ms.len() && matches_monitor(t, #[trigger] ms[k], primary_handle)
}

/// Whether a target is the one some kept listed window denotes.
pub open spec fn from_window(t: CaptureTarget, ws: Seq<WindowDescriptor>) -> bool {
    exists|k: int|
        0 <= k < ws.len() && window_kept(#[trigger] ws[k]) && matches_window(t, ws[k])
}

pub open spec fn msg_no_capture_sources() -> Seq<char> {
    "No se encontraron fuentes de captura disponibles"@
}

/// Builds the sorted target list out of what the OS enumerated: one target
/// per monitor, one per kept window, in the `target_le` order; an error
/// exactly when nothing is capturable.
pub fn assemble_targets(
    monitors: &Vec<MonitorDescriptor>,
    windows: &Vec<WindowDescriptor>,
    primary_handle: Option<u64>,
) -> (r: Result<Vec<CaptureTarget>, String>)
    ensures
        r is Err <==> (monitors@.len() == 0 && kept_count(windows@) == 0),
        r matches Err(m) ==> m@ == msg_no_capture_sources(),
        r matches Ok(ts) ==> {
            &&& targets_sorted(ts@)
            &&& ts@.len() == monitors@.len() + kept_count(windows@)
            &&& forall|ti: int|
                0 <= ti < ts@.len() ==> from_monitor(#[trigger] ts@[ti], monitors@, primary_handle)
                    || from_window(ts@[ti], windows@)
        },
{
    let mut targets: Vec<CaptureTarget> = Vec::new();

    let nm = monitors.len();
    let mut i: usize = 0;
    while i < nm
        invariant
            i <= nm,
            nm == monitors@.len(),
            targets@.len() == i,
            forall|ti: int|
                0 <= ti < targets@.len() ==> from_monitor(
                    #[trigger] targets@[ti],
                    monitors@,
                    primary_handle,
                ),
        decreases nm - i,
    {
        let t = build_monitor_target(&monitors[i], primary_handle);
        targets.push(t);
        i = i + 1;
    }

    let nw = windows.len();
    let mut j: usize = 0;
    while j < nw
        invariant
            j <= nw,
            nw == windows@.len(),
            nm == monitors@.len(),
            targets@.len() == nm + kept_count(windows@.take(j as int)),
            forall|ti: int|
                0 <= ti < targets@.len() ==> from_monitor(
                    #[trigger] targets@[ti],
                    monitors@,
                    primary_handle,
                ) || from_window(targets@[ti], windows@),
        decreases nw - j,
    {
        proof {
            assert(windows@.take(j + 1).drop_last() =~= windows@.take(j as int));
            assert(windows@.take(j + 1).last() == windows@[j as int]);
        }
        match build_window_target(&windows[j]) {
            Some(t) => {
                targets.push(t);
            },
            None => {},
        }
        j = j + 1;
    }
    proof {
        assert(windows@.take(nw as int) =~= windows@);
    }

    proof {
        lemma_kept_count_nonneg(windows@);
    }
    if targets.len() == 0 {
        return Err(String::from_str("No se encontraron fuentes de captura disponibles"));
    }

    let ghost pre = targets@;
    let sorted = sort_targets(targets);
    proof {
        broadcast use vstd::seq_lib::group_to_multiset_ensures;

        assert forall|ti: int| 0 <= ti < sorted@.len() implies from_monitor(
            #[trigger] sorted@[ti],
            monitors@,
            primary_handle,
        ) || from_window(sorted@[ti], windows@) by {
            let t = sorted@[ti];
            assert(sorted@.contains(t));
            assert(sorted@.to_multiset().count(t) > 0);
            assert(pre.to_multiset().count(t) > 0);
            assert(pre.contains(t));
            let pi = choose|pi: int| 0 <= pi < pre.len() && pre[pi] == t;
            assert(from_monitor(pre[pi], monitors@, primary_handle) || from_window(
                pre[pi],
                windows@,
            ));
        }
        assert(sorted@.len() == sorted@.to_multiset().len());
        assert(pre.len() == pre.to_multiset().len());
    }
    Ok(sorted)
}

/// Enumerates and offers capture targets.
pub trait ScreenProvider {
    fn get_targets(&self) -> Result<Vec<CaptureTarget>, String>;

    fn is_supported(&self) -> bool;
}

/// The OS-backed screen provider. On this portable build the graphics
/// capture backend is absent, so it reports itself unsupported and yields
/// no targets.
#[derive(Debug, Clone, Copy, PartialEq, Eq, Structural)]
pub struct WindowsCaptureScreenProvider;

impl WindowsCaptureScreenProvider {
    pub fn new() -> (r: Self)
        ensures
            r == WindowsCaptureScreenProvider,
    {
        WindowsCaptureScreenProvider
    }
}

impl Default for WindowsCaptureScreenProvider {
    fn default() -> (r: Self)
        ensures
            r == WindowsCaptureScreenProvider,
    {
        WindowsCaptureScreenProvider
    }
}

impl ScreenProvider for WindowsCaptureScreenProvider {
    fn get_targets(&self) -> Result<Vec<CaptureTarget>, String> {
        Err(String::from_str("El backend windows-capture solo está disponible en Windows"))
    }

    fn is_supported(&self) -> bool {
        false
    }
}

} // verus!
