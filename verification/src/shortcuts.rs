//! Global keyboard shortcuts: binding validation, the shortcut grammar
//! (`modifier+…+key`), and the polling trigger decisions.

use vstd::prelude::*;

use crate::text::{
    all_space, dec_value, is_dec_digit, lower_seq, trim_seq, trim_string, upper_seq,
};

verus! {

/// The three bindable actions' shortcut strings.
#[derive(Debug, Clone)]
pub struct ShortcutBindings {
    pub start: String,
    pub pause_resume: String,
    pub stop: String,
}

pub open spec fn msg_bindings_blank() -> Seq<char> {
    "Todos los atajos deben tener una combinación válida"@
}

pub open spec fn msg_bindings_duplicate() -> Seq<char> {
    "Cada acción debe tener un atajo distinto"@
}

/// Two shortcut strings collide when they agree after trimming and
/// case-folding.
pub open spec fn same_shortcut(a: Seq<char>, b: Seq<char>) -> bool {
    lower_seq(trim_seq(a)) == lower_seq(trim_seq(b))
}

/// Accepts binding sets whose three shortcuts are non-blank and pairwise
/// distinct (ignoring case); the first violated rule names the error.
pub fn validate_bindings_shape(bindings: &ShortcutBindings) -> (r: Result<(), String>)
    ensures
        (all_space(bindings.start@) || all_space(bindings.pause_resume@) || all_space(
            bindings.stop@,
        )) ==> (r matches Err(e) && e@ == msg_bindings_blank()),
        (!all_space(bindings.start@) && !all_space(bindings.pause_resume@) && !all_space(
            bindings.stop@,
        ) && (same_shortcut(bindings.start@, bindings.pause_resume@) || same_shortcut(
            bindings.start@,
            bindings.stop@,
        ) || same_shortcut(bindings.pause_resume@, bindings.stop@))) ==> (r matches Err(e) && e@
            == msg_bindings_duplicate()),
        r is Ok <==> (!all_space(bindings.start@) && !all_space(bindings.pause_resume@)
            && !all_space(bindings.stop@) && !same_shortcut(bindings.start@, bindings.pause_resume@)
            && !same_shortcut(bindings.start@, bindings.stop@) && !same_shortcut(
            bindings.pause_resume@,
            bindings.stop@,
        )),
{
    if crate::text::is_blank(bindings.start.as_str()) || crate::text::is_blank(
        bindings.pause_resume.as_str(),
    ) || crate::text::is_blank(bindings.stop.as_str()) {
        return Err(String::from_str("Todos los atajos deben tener una combinación válida"));
    }

    let a = trim_string(bindings.start.as_str());
    let b = trim_string(bindings.pause_resume.as_str());
    let c = trim_string(bindings.stop.as_str());
    if crate::text::eq_ignore_case(a.as_str(), b.as_str()) || crate::text::eq_ignore_case(
        a.as_str(),
        c.as_str(),
    ) || crate::text::eq_ignore_case(b.as_str(), c.as_str()) {
        return Err(String::from_str("Cada acción debe tener un atajo distinto"));
    }

    Ok(())
}

/// The modifier bits, as the OS hotkey interface defines them.
pub const MOD_ALT: u32 = 1;

pub const MOD_CONTROL: u32 = 2;

pub const MOD_SHIFT: u32 = 4;

pub const MOD_WIN: u32 = 8;

/// A parsed shortcut: its modifier bits and its main virtual key.
#[derive(Debug, Clone, Copy, PartialEq, Eq, Structural)]
pub struct ParsedShortcut {
    pub modifiers: u32,
    pub vk: u32,
}

/// The bindable actions, with their event payloads.
#[derive(Debug, Clone, Copy, PartialEq, Eq, Structural)]
pub enum ShortcutAction {
    Start,
    PauseResume,
    Stop,
}

impl ShortcutAction {
    /// The event payload the UI receives for this action.
    pub fn event_payload(&self) -> (r: &'static str)
        ensures
            self == ShortcutAction::Start ==> r@ == "start"@,
            self == ShortcutAction::PauseResume ==> r@ == "pauseResume"@,
            self == ShortcutAction::Stop ==> r@ == "stop"@,
    {
        match self {
            ShortcutAction::Start => "start",
            ShortcutAction::PauseResume => "pauseResume",
            ShortcutAction::Stop => "stop",
        }
    }

    pub fn index(&self) -> (r: usize)
        ensures
            r == match self {
                ShortcutAction::Start => 0int,
                ShortcutAction::PauseResume => 1int,
                ShortcutAction::Stop => 2int,
            },
    {
        match self {
            ShortcutAction::Start => 0,
            ShortcutAction::PauseResume => 1,
            ShortcutAction::Stop => 2,
        }
    }
}

/// The modifier bit a token names, if any (case-insensitive).
pub open spec fn mod_of_token(t: Seq<char>) -> Option<u32> {
    let l = lower_seq(t);
    if l == lower_seq("ctrl"@) || l == lower_seq("control"@) {
        Some(MOD_CONTROL)
    } else if l == lower_seq("alt"@) {
        Some(MOD_ALT)
    } else if l == lower_seq("shift"@) {
        Some(MOD_SHIFT)
    } else if l == lower_seq("meta"@) || l == lower_seq("win"@) || l == lower_seq("super"@) || l
        == lower_seq("cmd"@) || l == lower_seq("command"@) {
        Some(MOD_WIN)
    } else {
        None
    }
}

/// The virtual key a (non-modifier) token names: a single letter or digit
/// by its code, a named key, or `F1`..`F24`.
pub open spec fn spec_virtual_key(token: Seq<char>) -> Option<u32> {
    let t = trim_seq(token);
    let u = upper_seq(t);
    if t.len() == 1 && 'a' <= lower_seq(t)[0] <= 'z' {
        Some(upper_seq(t)[0] as u32)
    } else if t.len() == 1 && is_dec_digit(t[0]) {
        Some(t[0] as u32)
    } else if u == "SPACE"@ || u == "SPACEBAR"@ {
        Some(0x20u32)
    } else if u == "ENTER"@ || u == "RETURN"@ {
        Some(0x0Du32)
    } else if u == "TAB"@ {
        Some(0x09u32)
    } else if u == "ESC"@ || u == "ESCAPE"@ {
        Some(0x1Bu32)
    } else if u == "BACKSPACE"@ {
        Some(0x08u32)
    } else if u == "DELETE"@ || u == "DEL"@ {
        Some(0x2Eu32)
    } else if u == "INSERT"@ {
        Some(0x2Du32)
    } else if u == "HOME"@ {
        Some(0x24u32)
    } else if u == "END"@ {
        Some(0x23u32)
    } else if u == "PAGEUP"@ {
        Some(0x21u32)
    } else if u == "PAGEDOWN"@ {
        Some(0x22u32)
    } else if u == "UP"@ || u == "ARROWUP"@ {
        Some(0x26u32)
    } else if u == "DOWN"@ || u == "ARROWDOWN"@ {
        Some(0x28u32)
    } else if u == "LEFT"@ || u == "ARROWLEFT"@ {
        Some(0x25u32)
    } else if u == "RIGHT"@ || u == "ARROWRIGHT"@ {
        Some(0x27u32)
    } else if u.len() >= 2 && u[0] == 'F' && is_fkey_number(u.skip(1)) {
        Some((0x70 + dec_value(u.skip(1)) - 1) as u32)
    } else {
        None
    }
}

/// Whether a digit run names a function key 1..24.
pub open spec fn is_fkey_number(d: Seq<char>) -> bool {
    d.len() > 0 && (forall|k: int| 0 <= k < d.len() ==> is_dec_digit(d[k])) && 1 <= dec_value(d)
        <= 24
}

pub open spec fn msg_unsupported_key(token: Seq<char>) -> Seq<char> {
    "Tecla no soportada en atajo: '"@ + token + "'"@
}

/// Parses one non-modifier token into its virtual key; an unknown token
/// is rejected, naming it.
pub fn parse_virtual_key(token: &str) -> (r: Result<u32, String>)
    ensures
        r matches Ok(vk) ==> spec_virtual_key(token@) == Some(vk),
        r is Err <==> spec_virtual_key(token@) is None,
        r matches Err(e) ==> e@ == msg_unsupported_key(token@),
{
    let trimmed = trim_string(token);
    let t = trimmed.as_str();
    let n = t.unicode_len();
    if n == 1 {
        let ch = t.get_char(0);
        let low = crate::text::to_lower_char(ch);
        if 'a' <= low && low <= 'z' {
            let up = crate::text::to_upper_char(ch);
            assert(upper_seq(trim_seq(token@))[0] == crate::text::upper_char(ch));
            return Ok(up as u32);
        }
        if crate::text::is_dec_digit_exec(ch) {
            return Ok(ch as u32);
        }
    }
    let upper = crate::text::upper_chars_vec(t);
    let vk: Option<u32> = if eq_lit(&upper, "SPACE") || eq_lit(&upper, "SPACEBAR") {
        Some(0x20)
    } else if eq_lit(&upper, "ENTER") || eq_lit(&upper, "RETURN") {
        Some(0x0D)
    } else if eq_lit(&upper, "TAB") {
        Some(0x09)
    } else if eq_lit(&upper, "ESC") || eq_lit(&upper, "ESCAPE") {
        Some(0x1B)
    } else if eq_lit(&upper, "BACKSPACE") {
        Some(0x08)
    } else if eq_lit(&upper, "DELETE") || eq_lit(&upper, "DEL") {
        Some(0x2E)
    } else if eq_lit(&upper, "INSERT") {
        Some(0x2D)
    } else if eq_lit(&upper, "HOME") {
        Some(0x24)
    } else if eq_lit(&upper, "END") {
        Some(0x23)
    } else if eq_lit(&upper, "PAGEUP") {
        Some(0x21)
    } else if eq_lit(&upper, "PAGEDOWN") {
        Some(0x22)
    } else if eq_lit(&upper, "UP") || eq_lit(&upper, "ARROWUP") {
        Some(0x26)
    } else if eq_lit(&upper, "DOWN") || eq_lit(&upper, "ARROWDOWN") {
        Some(0x28)
    } else if eq_lit(&upper, "LEFT") || eq_lit(&upper, "ARROWLEFT") {
        Some(0x25)
    } else if eq_lit(&upper, "RIGHT") || eq_lit(&upper, "ARROWRIGHT") {
        Some(0x27)
    } else {
        None
    };
    match vk {
        Some(v) => {
            return Ok(v);
        },
        None => {},
    }

    if upper.len() >= 2 && upper[0] == 'F' {
        let mut all_digits = true;
        let mut idx: usize = 1;
        let m = upper.len();
        while idx < m
            invariant
                1 <= idx <= m,
                m == upper@.len(),
                all_digits == (forall|k: int| 1 <= k < idx ==> is_dec_digit(upper@[k])),
            decreases m - idx,
        {
            if !crate::text::is_dec_digit_exec(upper[idx]) {
                all_digits = false;
            }
            idx = idx + 1;
        }
        if all_digits {
            let mut val: u64 = 0;
            let mut j: usize = 1;
            let mut overflowed = false;
            while j < m
                invariant
                    1 <= j <= m,
                    m == upper@.len(),
                    forall|k: int| 1 <= k < m ==> is_dec_digit(upper@[k]),
                    !overflowed ==> val == dec_value(upper@.subrange(1, j as int)),
                    overflowed ==> dec_value(upper@.subrange(1, j as int)) > 24,
                decreases m - j,
            {
                proof {
                    assert(upper@.subrange(1, j + 1).drop_last() =~= upper@.subrange(1, j as int));
                    crate::text::lemma_dec_value_nonneg(upper@.subrange(1, j as int));
                }
                if overflowed || val > 24 {
                    overflowed = true;
                    proof {
                        crate::text::lemma_dec_value_step_grows(upper@.subrange(1, j + 1));
                    }
                } else {
                    let d = crate::text::dec_digit_val_exec(upper[j]);
                    val = val * 10 + d;
                }
                j = j + 1;
            }
            proof {
                assert(upper@.subrange(1, m as int) =~= upper@.skip(1));
            }
            if !overflowed && 1 <= val && val <= 24 {
                return Ok(0x70 + (val as u32) - 1);
            }
            proof {
                assert(!is_fkey_number(upper@.skip(1)));
            }
        } else {
            proof {
                let k0 = choose|k: int| 1 <= k < m && !is_dec_digit(upper@[k]);
                assert(upper@.subrange(1, m as int) =~= upper@.skip(1));
                assert(upper@.skip(1)[k0 - 1] == upper@[k0]);
                assert(!is_fkey_number(upper@.skip(1)));
            }
        }
    }

    let mut msg = String::from_str("Tecla no soportada en atajo: '");
    msg.append(token);
    msg.append("'");
    assert(msg@ =~= msg_unsupported_key(token@));
    Err(msg)
}

fn eq_lit(v: &Vec<char>, lit: &str) -> (r: bool)
    ensures
        r == (v@ == lit@),
{
    let lv = crate::text::chars_vec(lit);
    crate::text::vec_chars_eq(v, &lv)
}

/// The index of the first `+` in `s`, or -1.
pub open spec fn first_plus(s: Seq<char>) -> int
    decreases s.len(),
{
    if s.len() == 0 {
        -1
    } else if s[0] == '+' {
        0
    } else {
        let r = first_plus(s.drop_first());
        if r < 0 {
            -1
        } else {
            r + 1
        }
    }
}

/// `s` split at every `+`, keeping empty pieces.
pub open spec fn split_raw(s: Seq<char>) -> Seq<Seq<char>>
    decreases s.len(),
{
    let i = first_plus(s);
    if i < 0 || i >= s.len() {
        seq![s]
    } else {
        seq![s.take(i)] + split_raw(s.skip(i + 1))
    }
}

/// The trimmed, non-blank pieces of a split.
pub open spec fn filter_tokens(parts: Seq<Seq<char>>) -> Seq<Seq<char>>
    decreases parts.len(),
{
    if parts.len() == 0 {
        Seq::empty()
    } else {
        filter_tokens(parts.drop_last()) + (if all_space(parts.last()) {
            Seq::<Seq<char>>::empty()
        } else {
            seq![trim_seq(parts.last())]
        })
    }
}

/// The tokens of a shortcut string.
pub open spec fn shortcut_tokens(s: Seq<char>) -> Seq<Seq<char>> {
    filter_tokens(split_raw(s))
}

/// The left fold of shortcut parsing: modifiers accumulate; the first
/// non-modifier token is the main key; a second main key or an unknown
/// key fails; so does a shortcut without a main key.
pub open spec fn spec_parse_from(
    tokens: Seq<Seq<char>>,
    i: int,
    mods: u32,
    key: Option<u32>,
) -> Option<(u32, u32)>
    decreases tokens.len() - i,
{
    if i < 0 || i >= tokens.len() {
        match key {
            Some(k) => Some((mods, k)),
            None => None,
        }
    } else {
        match mod_of_token(tokens[i]) {
            Some(m) => spec_parse_from(tokens, i + 1, mods | m, key),
            None => match key {
                Some(_) => None,
                None => match spec_virtual_key(tokens[i]) {
                    Some(vk) => spec_parse_from(tokens, i + 1, mods, Some(vk)),
                    None => None,
                },
            },
        }
    }
}

/// What a shortcut string parses to, if anything.
pub open spec fn spec_parse_shortcut(s: Seq<char>) -> Option<(u32, u32)> {
    if shortcut_tokens(s).len() == 0 {
        None
    } else {
        spec_parse_from(shortcut_tokens(s), 0, 0, None)
    }
}

proof fn lemma_first_plus_at(t: Seq<char>, j: int)
    requires
        0 <= j <= t.len(),
        forall|k: int| 0 <= k < j ==> t[k] != '+',
        j < t.len() ==> t[j] == '+',
    ensures
        first_plus(t) == if j < t.len() {
            j
        } else {
            -1
        },
    decreases j,
{
    if j == 0 {
    } else {
        assert(t[0] != '+');
        let t1 = t.drop_first();
        assert(forall|k: int| 0 <= k < j - 1 ==> t1[k] == t[k + 1]);
        lemma_first_plus_at(t1, j - 1);
    }
}

fn split_raw_exec(s: &str) -> (r: Vec<String>)
    ensures
        r@.map_values(|p: String| p@) == split_raw(s@),
{
    let cs = crate::text::chars_vec(s);
    let n = cs.len();
    let mut out: Vec<String> = Vec::new();
    let mut start: usize = 0;
    let mut i: usize = 0;
    proof {
        assert(s@.skip(0) =~= s@);
        assert(out@.map_values(|p: String| p@) =~= Seq::<Seq<char>>::empty());
    }
    while i < n
        invariant
            start <= i <= n,
            n == s@.len(),
            cs@ == s@,
            forall|k: int| start <= k < i ==> s@[k] != '+',
            split_raw(s@) == out@.map_values(|p: String| p@) + split_raw(
                s@.skip(start as int),
            ),
        decreases n - i,
    {
        if cs[i] == '+' {
            proof {
                let t = s@.skip(start as int);
                assert(forall|k: int| 0 <= k < i - start ==> t[k] == s@[start + k]);
                lemma_first_plus_at(t, i - start);
                assert(t.take(i - start) =~= s@.subrange(start as int, i as int));
                assert(t.skip(i - start + 1) =~= s@.skip(i + 1));
            }
            let ghost before = out@.map_values(|p: String| p@);
            out.push(String::from_str(s.substring_char(start, i)));
            proof {
                assert(out@.map_values(|p: String| p@) =~= before.push(
                    s@.subrange(start as int, i as int),
                ));
                assert(before.push(s@.subrange(start as int, i as int)) + split_raw(s@.skip(i + 1))
                    =~= before + (seq![s@.subrange(start as int, i as int)] + split_raw(
                    s@.skip(i + 1),
                )));
            }
            start = i + 1;
        }
        i = i + 1;
    }
    proof {
        let t = s@.skip(start as int);
        assert(forall|k: int| 0 <= k < n - start ==> t[k] == s@[start + k]);
        lemma_first_plus_at(t, n - start);
        assert(t =~= s@.subrange(start as int, n as int));
    }
    out.push(String::from_str(s.substring_char(start, n)));
    proof {
        assert(split_raw(s@) =~= out@.map_values(|p: String| p@));
    }
    out
}

pub open spec fn msg_empty_shortcut() -> Seq<char> {
    "Atajo vacío"@
}

/// Parses a whole shortcut string: `+`-separated modifiers around exactly
/// one main key. Succeeds exactly when the grammar accepts the string.
pub fn parse_shortcut(value: &str) -> (r: Result<ParsedShortcut, String>)
    ensures
        r matches Ok(p) ==> spec_parse_shortcut(value@) == Some((p.modifiers, p.vk)),
        r is Err <==> spec_parse_shortcut(value@) is None,
{
    let pieces = split_raw_exec(value);
    let np = pieces.len();
    let mut tokens: Vec<String> = Vec::new();
    let mut pi: usize = 0;
    while pi < np
        invariant
            pi <= np,
            np == pieces@.len(),
            pieces@.map_values(|p: String| p@) == split_raw(value@),
            tokens@.map_values(|p: String| p@) == filter_tokens(
                split_raw(value@).take(pi as int),
            ),
        decreases np - pi,
    {
        proof {
            assert(split_raw(value@).take(pi + 1).drop_last() =~= split_raw(value@).take(
                pi as int,
            ));
            assert(split_raw(value@).take(pi + 1).last() == split_raw(value@)[pi as int]);
            assert(pieces@.map_values(|p: String| p@)[pi as int] == pieces@[pi as int]@);
        }
        if !crate::text::is_blank(pieces[pi].as_str()) {
            tokens.push(crate::text::trim_string(pieces[pi].as_str()));
            assert(tokens@.map_values(|p: String| p@) =~= filter_tokens(
                split_raw(value@).take(pi + 1),
            ));
        } else {
            assert(tokens@.map_values(|p: String| p@) =~= filter_tokens(
                split_raw(value@).take(pi + 1),
            ));
        }
        pi = pi + 1;
    }
    proof {
        assert(split_raw(value@).take(np as int) =~= split_raw(value@));
    }

    let nt = tokens.len();
    if nt == 0 {
        return Err(String::from_str("Atajo vacío"));
    }

    let ghost toks = shortcut_tokens(value@);
    let mut modifiers: u32 = 0;
    let mut key: Option<u32> = None;
    let mut ti: usize = 0;
    while ti < nt
        invariant
            ti <= nt,
            nt == tokens@.len(),
            nt > 0,
            tokens@.map_values(|p: String| p@) == toks,
            toks == shortcut_tokens(value@),
            spec_parse_from(toks, 0, 0, None) == spec_parse_from(
                toks,
                ti as int,
                modifiers,
                key,
            ),
        decreases nt - ti,
    {
        proof {
            assert(tokens@.map_values(|p: String| p@)[ti as int] == tokens@[ti as int]@);
        }
        let token = &tokens[ti];
        let t = token.as_str();
        if crate::text::eq_ignore_case(t, "ctrl") || crate::text::eq_ignore_case(t, "control") {
            modifiers = modifiers | MOD_CONTROL;
        } else if crate::text::eq_ignore_case(t, "alt") {
            modifiers = modifiers | MOD_ALT;
        } else if crate::text::eq_ignore_case(t, "shift") {
            modifiers = modifiers | MOD_SHIFT;
        } else if crate::text::eq_ignore_case(t, "meta") || crate::text::eq_ignore_case(t, "win")
            || crate::text::eq_ignore_case(t, "super") || crate::text::eq_ignore_case(t, "cmd")
            || crate::text::eq_ignore_case(t, "command") {
            modifiers = modifiers | MOD_WIN;
        } else {
            if key.is_some() {
                let mut m = String::from_str("Atajo inválido '");
                m.append(value);
                m.append("'. Solo puede haber una tecla principal.");
                return Err(m);
            }
            match parse_virtual_key(t) {
                Ok(vk) => {
                    key = Some(vk);
                },
                Err(e) => {
                    return Err(e);
                },
            }
        }
        ti = ti + 1;
    }

    match key {
        Some(vk) => Ok(ParsedShortcut { modifiers, vk }),
        None => {
            let mut m = String::from_str("Atajo inválido '");
            m.append(value);
            m.append("'. Falta la tecla principal.");
            Err(m)
        },
    }
}

pub open spec fn msg_duplicate_shortcut(shortcut: Seq<char>) -> Seq<char> {
    "El atajo '"@ + shortcut
        + "' está duplicado. Cada acción debe tener una combinación distinta."@
}

/// Parses the three bindings and refuses duplicated parsed shortcuts;
/// the result lists them in start, pause/resume, stop order. It fails
/// exactly when a binding does not parse or two bindings parse to the
/// same shortcut; a duplicate names the offending binding, a parse
/// failure carries the parser's own error.
pub fn parse_bindings(bindings: &ShortcutBindings) -> (r: Result<Vec<(ShortcutAction, ParsedShortcut)>, String>)
    ensures
        r matches Ok(v) ==> {
            &&& v@.len() == 3
            &&& spec_parse_shortcut(bindings.start@) == Some(
                (v@[0].1.modifiers, v@[0].1.vk),
            )
            &&& spec_parse_shortcut(bindings.pause_resume@) == Some(
                (v@[1].1.modifiers, v@[1].1.vk),
            )
            &&& spec_parse_shortcut(bindings.stop@) == Some((v@[2].1.modifiers, v@[2].1.vk))
            &&& v@[0].1 != v@[1].1 && v@[0].1 != v@[2].1 && v@[1].1 != v@[2].1
            &&& v@[0].0 == ShortcutAction::Start
            &&& v@[1].0 == ShortcutAction::PauseResume
            &&& v@[2].0 == ShortcutAction::Stop
        },
        r is Err <==> ({
            let ps = spec_parse_shortcut(bindings.start@);
            let pp = spec_parse_shortcut(bindings.pause_resume@);
            let pt = spec_parse_shortcut(bindings.stop@);
            ps is None || pp is None || pt is None || ps == pp || ps == pt || pp == pt
        }),
        ({
            let ps = spec_parse_shortcut(bindings.start@);
            let pp = spec_parse_shortcut(bindings.pause_resume@);
            ps is Some && pp is Some && pp == ps
        }) ==> (r matches Err(e) && e@ == msg_duplicate_shortcut(bindings.pause_resume@)),
        ({
            let ps = spec_parse_shortcut(bindings.start@);
            let pp = spec_parse_shortcut(bindings.pause_resume@);
            let pt = spec_parse_shortcut(bindings.stop@);
            ps is Some && pp is Some && pp != ps && pt is Some && (pt == ps || pt == pp)
        }) ==> (r matches Err(e) && e@ == msg_duplicate_shortcut(bindings.stop@)),
{
    let start = match parse_shortcut(bindings.start.as_str()) {
        Ok(p) => p,
        Err(e) => {
            return Err(e);
        },
    };
    let pause_resume = match parse_shortcut(bindings.pause_resume.as_str()) {
        Ok(p) => p,
        Err(e) => {
            return Err(e);
        },
    };
    if pause_resume == start {
        let mut m = String::from_str("El atajo '");
        m.append(bindings.pause_resume.as_str());
        m.append("' está duplicado. Cada acción debe tener una combinación distinta.");
        return Err(m);
    }
    let stop = match parse_shortcut(bindings.stop.as_str()) {
        Ok(p) => p,
        Err(e) => {
            return Err(e);
        },
    };
    if stop == start || stop == pause_resume {
        let mut m = String::from_str("El atajo '");
        m.append(bindings.stop.as_str());
        m.append("' está duplicado. Cada acción debe tener una combinación distinta.");
        return Err(m);
    }
    let mut v: Vec<(ShortcutAction, ParsedShortcut)> = Vec::new();
    v.push((ShortcutAction::Start, start));
    v.push((ShortcutAction::PauseResume, pause_resume));
    v.push((ShortcutAction::Stop, stop));
    Ok(v)
}

/// Milliseconds since the last emission, or nothing if none happened:
/// whether a new event may fire under the cooldown.
pub fn can_emit_now(ms_since_last_emit: Option<u64>, cooldown_ms: u64) -> (r: bool)
    ensures
        r == match ms_since_last_emit {
            Some(ms) => ms >= cooldown_ms,
            None => true,
        },
{
    match ms_since_last_emit {
        Some(ms) => ms >= cooldown_ms,
        None => true,
    }
}

/// One poll of a binding: whether the whole combination is held and
/// whether it was freshly pressed. A required modifier that is not held
/// vetoes both; otherwise the main key's own state decides.
pub fn evaluate_combo_state(
    shortcut: &ParsedShortcut,
    main_key_state: u16,
    ctrl_down: bool,
    alt_down: bool,
    shift_down: bool,
    win_down: bool,
) -> (r: (bool, bool))
    ensures
        ({
            let main_down = main_key_state & 0x8000 != 0;
            let just_pressed = main_key_state & 0x0001 != 0;
            let mods_ok = (shortcut.modifiers & MOD_CONTROL != 0 ==> ctrl_down) && (
            shortcut.modifiers & MOD_ALT != 0 ==> alt_down) && (shortcut.modifiers & MOD_SHIFT != 0
                ==> shift_down) && (shortcut.modifiers & MOD_WIN != 0 ==> win_down);
            if !(main_down || just_pressed) || !mods_ok {
                r == (false, false)
            } else {
                r == (main_down, just_pressed)
            }
        }),
{
    let main_down = is_key_state_down(main_key_state);
    let just_pressed = was_key_pressed_since_last_poll(main_key_state);
    if !main_down && !just_pressed {
        return (false, false);
    }
    if shortcut.modifiers & MOD_CONTROL != 0 && !ctrl_down {
        return (false, false);
    }
    if shortcut.modifiers & MOD_ALT != 0 && !alt_down {
        return (false, false);
    }
    if shortcut.modifiers & MOD_SHIFT != 0 && !shift_down {
        return (false, false);
    }
    if shortcut.modifiers & MOD_WIN != 0 && !win_down {
        return (false, false);
    }
    (main_down, just_pressed)
}

/// The high bit of the polled key state: the key is held down.
pub fn is_key_state_down(state: u16) -> (r: bool)
    ensures
        r == (state & 0x8000 != 0),
{
    state & 0x8000 != 0
}

/// The low bit of the polled key state: the key was pressed since the
/// last poll.
pub fn was_key_pressed_since_last_poll(state: u16) -> (r: bool)
    ensures
        r == (state & 0x0001 != 0),
{
    state & 0x0001 != 0
}

/// Whether one poll fires a binding's event: a fresh press (either the
/// since-last-poll bit or a down edge) inside the cooldown window.
pub fn shortcut_should_emit(
    combo_down: bool,
    combo_just_pressed: bool,
    was_down: bool,
    ms_since_last_emit: Option<u64>,
    cooldown_ms: u64,
) -> (r: bool)
    ensures
        r == ((combo_just_pressed || (combo_down && !was_down)) && (match ms_since_last_emit {
            Some(ms) => ms >= cooldown_ms,
            None => true,
        })),
{
    (combo_just_pressed || (combo_down && !was_down)) && can_emit_now(
        ms_since_last_emit,
        cooldown_ms,
    )
}

} // verus!
