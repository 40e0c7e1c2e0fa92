//! Verified text helpers: decimal rendering of integers, character folding,
//! substring search, trimming and joining. Error messages and FFmpeg filter
//! strings throughout the crate are specified with these.

use vstd::prelude::*;

verus! {

/// ASCII whitespace recognised by the trimming helpers.
pub open spec fn is_space(c: char) -> bool {
    c == ' ' || c == '\t' || c == '\n' || c == '\r'
}

/// ASCII lower-casing of a single character; other characters are unchanged.
pub open spec fn lower_char(c: char) -> char {
    match c {
        'A' => 'a',
        'B' => 'b',
        'C' => 'c',
        'D' => 'd',
        'E' => 'e',
        'F' => 'f',
        'G' => 'g',
        'H' => 'h',
        'I' => 'i',
        'J' => 'j',
        'K' => 'k',
        'L' => 'l',
        'M' => 'm',
        'N' => 'n',
        'O' => 'o',
        'P' => 'p',
        'Q' => 'q',
        'R' => 'r',
        'S' => 's',
        'T' => 't',
        'U' => 'u',
        'V' => 'v',
        'W' => 'w',
        'X' => 'x',
        'Y' => 'y',
        'Z' => 'z',
        _ => c,
    }
}

/// ASCII lower-casing of a whole character sequence.
pub open spec fn lower_seq(s: Seq<char>) -> Seq<char> {
    s.map_values(|c: char| lower_char(c))
}

pub fn to_lower_char(c: char) -> (r: char)
    ensures
        r == lower_char(c),
{
    match c {
        'A' => 'a',
        'B' => 'b',
        'C' => 'c',
        'D' => 'd',
        'E' => 'e',
        'F' => 'f',
        'G' => 'g',
        'H' => 'h',
        'I' => 'i',
        'J' => 'j',
        'K' => 'k',
        'L' => 'l',
        'M' => 'm',
        'N' => 'n',
        'O' => 'o',
        'P' => 'p',
        'Q' => 'q',
        'R' => 'r',
        'S' => 's',
        'T' => 't',
        'U' => 'u',
        'V' => 'v',
        'W' => 'w',
        'X' => 'x',
        'Y' => 'y',
        'Z' => 'z',
        _ => c,
    }
}

/// ASCII upper-casing of a single character; other characters are unchanged.
pub open spec fn upper_char(c: char) -> char {
    match c {
        'a' => 'A',
        'b' => 'B',
        'c' => 'C',
        'd' => 'D',
        'e' => 'E',
        'f' => 'F',
        'g' => 'G',
        'h' => 'H',
        'i' => 'I',
        'j' => 'J',
        'k' => 'K',
        'l' => 'L',
        'm' => 'M',
        'n' => 'N',
        'o' => 'O',
        'p' => 'P',
        'q' => 'Q',
        'r' => 'R',
        's' => 'S',
        't' => 'T',
        'u' => 'U',
        'v' => 'V',
        'w' => 'W',
        'x' => 'X',
        'y' => 'Y',
        'z' => 'Z',
        _ => c,
    }
}

/// ASCII upper-casing of a whole character sequence.
pub open spec fn upper_seq(s: Seq<char>) -> Seq<char> {
    s.map_values(|c: char| upper_char(c))
}

pub fn to_upper_char(c: char) -> (r: char)
    ensures
        r == upper_char(c),
{
    match c {
        'a' => 'A',
        'b' => 'B',
        'c' => 'C',
        'd' => 'D',
        'e' => 'E',
        'f' => 'F',
        'g' => 'G',
        'h' => 'H',
        'i' => 'I',
        'j' => 'J',
        'k' => 'K',
        'l' => 'L',
        'm' => 'M',
        'n' => 'N',
        'o' => 'O',
        'p' => 'P',
        'q' => 'Q',
        'r' => 'R',
        's' => 'S',
        't' => 'T',
        'u' => 'U',
        'v' => 'V',
        'w' => 'W',
        'x' => 'X',
        'y' => 'Y',
        'z' => 'Z',
        _ => c,
    }
}

/// The upper-cased characters of a string slice.
pub fn upper_chars_vec(s: &str) -> (r: Vec<char>)
    ensures
        r@ == upper_seq(s@),
{
    let cs = chars_vec(s);
    let n = cs.len();
    let mut v: Vec<char> = Vec::new();
    let mut i: usize = 0;
    while i < n
        invariant
            i <= n,
            n == cs@.len(),
            cs@ == s@,
            v@ == upper_seq(s@).take(i as int),
        decreases n - i,
    {
        v.push(to_upper_char(cs[i]));
        assert(v@ =~= upper_seq(s@).take(i as int + 1));
        i = i + 1;
    }
    assert(v@ =~= upper_seq(s@));
    v
}

pub fn is_space_char(c: char) -> (r: bool)
    ensures
        r == is_space(c),
{
    c == ' ' || c == '\t' || c == '\n' || c == '\r'
}

/// The characters of a string slice, as a vector.
pub fn chars_vec(s: &str) -> (r: Vec<char>)
    ensures
        r@ == s@,
{
    let n = s.unicode_len();
    let mut v: Vec<char> = Vec::new();
    let mut i: usize = 0;
    while i < n
        invariant
            i <= n,
            n == s@.len(),
            v@ == s@.take(i as int),
        decreases n - i,
    {
        v.push(s.get_char(i));
        assert(v@ =~= s@.take(i as int + 1));
        i = i + 1;
    }
    assert(v@ =~= s@);
    v
}

/// Whether `needle` occurs contiguously inside `hay`.
pub open spec fn has_sub(hay: Seq<char>, needle: Seq<char>) -> bool {
    exists|i: int|
        0 <= i && i + needle.len() <= hay.len() && #[trigger] hay.subrange(i, i + needle.len())
            == needle
}

fn match_at(hay: &Vec<char>, needle: &Vec<char>, at: usize) -> (r: bool)
    requires
        at + needle@.len() <= hay@.len(),
    ensures
        r == (hay@.subrange(at as int, at + needle@.len()) == needle@),
{
    let m = needle.len();
    let hlen = hay.len();
    let mut j: usize = 0;
    while j < m
        invariant
            j <= m,
            m == needle@.len(),
            hlen == hay@.len(),
            at + m <= hlen,
            hay@.subrange(at as int, at + j) == needle@.subrange(0, j as int),
        decreases m - j,
    {
        if hay[at + j] != needle[j] {
            assert(hay@.subrange(at as int, at + m)[j as int] != needle@[j as int]);
            return false;
        }
        assert(hay@.subrange(at as int, at + j + 1) =~= needle@.subrange(0, j + 1));
        j = j + 1;
    }
    assert(hay@.subrange(at as int, at + m) =~= needle@);
    true
}

fn vec_has_sub(hay: &Vec<char>, needle: &Vec<char>) -> (r: bool)
    ensures
        r == has_sub(hay@, needle@),
{
    let n = hay.len();
    let m = needle.len();
    if m > n {
        assert(!has_sub(hay@, needle@));
        return false;
    }
    if m == 0 {
        assert(has_sub(hay@, needle@)) by {
            assert(hay@.subrange(0, 0 + needle@.len() as int) =~= needle@);
        }
        return true;
    }
    let last = n - m;
    let mut i: usize = 0;
    loop
        invariant
            1 <= m <= n,
            n == hay@.len(),
            m == needle@.len(),
            last == n - m,
            i <= last + 1,
            forall|k: int|
                0 <= k < i ==> #[trigger] hay@.subrange(k, k + needle@.len()) != needle@,
        ensures
            forall|k: int|
                0 <= k <= last ==> #[trigger] hay@.subrange(k, k + needle@.len()) != needle@,
        decreases last + 1 - i,
    {
        if i > last {
            break;
        }
        if match_at(hay, needle, i) {
            return true;
        }
        i = i + 1;
    }
    assert(!has_sub(hay@, needle@));
    false
}

/// Substring test on string slices.
pub fn str_has_sub(hay: &str, needle: &str) -> (r: bool)
    ensures
        r == has_sub(hay@, needle@),
{
    let h = chars_vec(hay);
    let n = chars_vec(needle);
    vec_has_sub(&h, &n)
}

/// Whether `p` is a prefix of `s`.
pub open spec fn has_prefix(s: Seq<char>, p: Seq<char>) -> bool {
    p.len() <= s.len() && s.subrange(0, p.len() as int) == p
}

/// Prefix test on string slices.
pub fn str_has_prefix(s: &str, p: &str) -> (r: bool)
    ensures
        r == has_prefix(s@, p@),
{
    let sv = chars_vec(s);
    let pv = chars_vec(p);
    if pv.len() > sv.len() {
        return false;
    }
    match_at(&sv, &pv, 0)
}

/// Substring test after ASCII lower-casing of both sides.
pub fn lower_has_sub(hay: &str, needle: &str) -> (r: bool)
    ensures
        r == has_sub(lower_seq(hay@), lower_seq(needle@)),
{
    let h = lower_chars_vec(hay);
    let n = lower_chars_vec(needle);
    vec_has_sub(&h, &n)
}

pub fn lower_chars_vec(s: &str) -> (r: Vec<char>)
    ensures
        r@ == lower_seq(s@),
{
    let cs = chars_vec(s);
    let n = cs.len();
    let mut v: Vec<char> = Vec::new();
    let mut i: usize = 0;
    while i < n
        invariant
            i <= n,
            n == cs@.len(),
            cs@ == s@,
            v@ == lower_seq(s@).take(i as int),
        decreases n - i,
    {
        v.push(to_lower_char(cs[i]));
        assert(v@ =~= lower_seq(s@).take(i as int + 1));
        i = i + 1;
    }
    assert(v@ =~= lower_seq(s@));
    v
}

/// Case-insensitive (ASCII) equality of two string slices.
pub fn eq_ignore_case(a: &str, b: &str) -> (r: bool)
    ensures
        r == (lower_seq(a@) == lower_seq(b@)),
{
    let av = lower_chars_vec(a);
    let bv = lower_chars_vec(b);
    let r = vec_chars_eq(&av, &bv);
    r
}

pub fn vec_chars_eq(a: &Vec<char>, b: &Vec<char>) -> (r: bool)
    ensures
        r == (a@ == b@),
{
    let n = a.len();
    if n != b.len() {
        assert(a@ != b@) by {
            assert(a@.len() != b@.len());
        }
        return false;
    }
    let mut i: usize = 0;
    while i < n
        invariant
            i <= n,
            n == a@.len() == b@.len(),
            forall|k: int| 0 <= k < i ==> a@[k] == b@[k],
        decreases n - i,
    {
        if a[i] != b[i] {
            return false;
        }
        i = i + 1;
    }
    assert(a@ =~= b@);
    true
}

/// The character of one decimal digit.
pub open spec fn dec_digit_char(d: int) -> char {
    if d == 0 {
        '0'
    } else if d == 1 {
        '1'
    } else if d == 2 {
        '2'
    } else if d == 3 {
        '3'
    } else if d == 4 {
        '4'
    } else if d == 5 {
        '5'
    } else if d == 6 {
        '6'
    } else if d == 7 {
        '7'
    } else if d == 8 {
        '8'
    } else {
        '9'
    }
}

/// The usual decimal rendering of a non-negative integer, most significant
/// digit first, with no leading zeros (except for zero itself).
pub open spec fn dec_seq(n: int) -> Seq<char>
    decreases n,
{
    if n < 10 {
        seq![dec_digit_char(n)]
    } else {
        dec_seq(n / 10).push(dec_digit_char(n % 10))
    }
}

fn dec_digit_str(d: u64) -> (r: &'static str)
    requires
        d < 10,
    ensures
        r@ == seq![dec_digit_char(d as int)],
{
    proof {
        reveal_strlit("0");
        reveal_strlit("1");
        reveal_strlit("2");
        reveal_strlit("3");
        reveal_strlit("4");
        reveal_strlit("5");
        reveal_strlit("6");
        reveal_strlit("7");
        reveal_strlit("8");
        reveal_strlit("9");
    }
    let r = if d == 0 {
        "0"
    } else if d == 1 {
        "1"
    } else if d == 2 {
        "2"
    } else if d == 3 {
        "3"
    } else if d == 4 {
        "4"
    } else if d == 5 {
        "5"
    } else if d == 6 {
        "6"
    } else if d == 7 {
        "7"
    } else if d == 8 {
        "8"
    } else {
        "9"
    };
    assert(r@ =~= seq![dec_digit_char(d as int)]);
    r
}

/// Decimal rendering of a `u64`.
pub fn u64_to_string(n: u64) -> (r: String)
    ensures
        r@ == dec_seq(n as int),
    decreases n,
{
    if n < 10 {
        String::from_str(dec_digit_str(n))
    } else {
        let mut s = u64_to_string(n / 10);
        s.append(dec_digit_str(n % 10));
        assert(s@ =~= dec_seq(n as int));
        s
    }
}

/// Decimal rendering of a `u32`.
pub fn u32_to_string(n: u32) -> (r: String)
    ensures
        r@ == dec_seq(n as int),
{
    u64_to_string(n as u64)
}

/// What remains of `s` once leading ASCII whitespace is removed.
pub open spec fn trim_start_seq(s: Seq<char>) -> Seq<char>
    decreases s.len(),
{
    if s.len() > 0 && is_space(s[0]) {
        trim_start_seq(s.drop_first())
    } else {
        s
    }
}

/// What remains of `s` once trailing ASCII whitespace is removed.
pub open spec fn trim_end_seq(s: Seq<char>) -> Seq<char>
    decreases s.len(),
{
    if s.len() > 0 && is_space(s[s.len() - 1]) {
        trim_end_seq(s.drop_last())
    } else {
        s
    }
}

/// `s` with whitespace removed from both ends.
pub open spec fn trim_seq(s: Seq<char>) -> Seq<char> {
    trim_end_seq(trim_start_seq(s))
}

proof fn lemma_trim_start_prefix(s: Seq<char>, i: int)
    requires
        0 <= i <= s.len(),
        forall|k: int| 0 <= k < i ==> is_space(s[k]),
        i < s.len() ==> !is_space(s[i]),
    ensures
        trim_start_seq(s) =~= s.subrange(i, s.len() as int),
    decreases i,
{
    if i == 0 {
        if s.len() > 0 && is_space(s[0]) {
            assert(false);
        }
        assert(trim_start_seq(s) == s);
        assert(s =~= s.subrange(0, s.len() as int));
    } else {
        assert(is_space(s[0]));
        let t = s.drop_first();
        assert(forall|k: int| 0 <= k < i - 1 ==> is_space(t[k]));
        lemma_trim_start_prefix(t, i - 1);
        assert(t.subrange(i - 1, t.len() as int) =~= s.subrange(i, s.len() as int));
    }
}

proof fn lemma_trim_end_suffix(s: Seq<char>, j: int)
    requires
        0 <= j <= s.len(),
        forall|k: int| j <= k < s.len() ==> is_space(s[k]),
        j > 0 ==> !is_space(s[j - 1]),
    ensures
        trim_end_seq(s) =~= s.subrange(0, j),
    decreases s.len() - j,
{
    if j == s.len() {
        if s.len() > 0 && is_space(s[s.len() - 1]) {
            assert(false);
        }
        assert(trim_end_seq(s) == s);
        assert(s =~= s.subrange(0, j));
    } else {
        assert(is_space(s[s.len() - 1]));
        let t = s.drop_last();
        assert(forall|k: int| j <= k < t.len() ==> is_space(t[k]));
        lemma_trim_end_suffix(t, j);
        assert(t.subrange(0, j) =~= s.subrange(0, j));
    }
}

/// `s.trim()` for ASCII whitespace, returning a fresh `String`.
pub fn trim_string(s: &str) -> (r: String)
    ensures
        r@ == trim_seq(s@),
{
    let cs = chars_vec(s);
    let n = cs.len();
    let mut from: usize = 0;
    while from < n && is_space_char(cs[from])
        invariant
            from <= n,
            n == s@.len(),
            cs@ == s@,
            forall|k: int| 0 <= k < from ==> is_space(s@[k]),
        decreases n - from,
    {
        from = from + 1;
    }
    let mut to: usize = n;
    while to > from && is_space_char(cs[to - 1])
        invariant
            from <= to <= n,
            n == s@.len(),
            cs@ == s@,
            forall|k: int| 0 <= k < from ==> is_space(s@[k]),
            from < n ==> !is_space(s@[from as int]),
            forall|k: int| to <= k < n ==> is_space(s@[k]),
        decreases to,
    {
        to = to - 1;
    }
    proof {
        lemma_trim_start_prefix(s@, from as int);
        let t = s@.subrange(from as int, s@.len() as int);
        if to == from {
            lemma_trim_end_suffix(t, 0);
        } else {
            lemma_trim_end_suffix(t, to - from);
        }
        assert(t.subrange(0, to - from) =~= s@.subrange(from as int, to as int));
    }
    let piece = s.substring_char(from, to);
    String::from_str(piece)
}

/// Whether a character sequence is entirely whitespace.
pub open spec fn all_space(s: Seq<char>) -> bool {
    forall|k: int| 0 <= k < s.len() ==> is_space(s[k])
}

/// Whether the trimmed form of `s` is empty; true exactly when `s` is
/// whitespace throughout.
pub fn is_blank(s: &str) -> (r: bool)
    ensures
        r == (trim_seq(s@).len() == 0),
        r == all_space(s@),
{
    proof {
        lemma_blank_iff_all_space(s@);
    }
    let t = trim_string(s);
    t.as_str().unicode_len() == 0
}

proof fn lemma_trim_start_all_space(s: Seq<char>)
    ensures
        (trim_start_seq(s).len() == 0) == all_space(s),
        trim_start_seq(s).len() > 0 ==> !is_space(trim_start_seq(s)[0]),
    decreases s.len(),
{
    if s.len() > 0 && is_space(s[0]) {
        let t = s.drop_first();
        lemma_trim_start_all_space(t);
        assert(forall|k: int| 0 <= k < t.len() ==> t[k] == s[k + 1]);
        if all_space(t) {
            assert forall|k: int| 0 <= k < s.len() implies is_space(s[k]) by {
                if k > 0 {
                    assert(s[k] == t[k - 1]);
                }
            }
        }
        if all_space(s) {
            assert forall|k: int| 0 <= k < t.len() implies is_space(t[k]) by {
                assert(t[k] == s[k + 1]);
            }
        }
    } else if s.len() > 0 {
        assert(!all_space(s));
    }
}

proof fn lemma_trim_end_all_space(s: Seq<char>)
    ensures
        (trim_end_seq(s).len() == 0) == all_space(s),
    decreases s.len(),
{
    if s.len() > 0 && is_space(s[s.len() - 1]) {
        let t = s.drop_last();
        lemma_trim_end_all_space(t);
        if all_space(t) {
            assert forall|k: int| 0 <= k < s.len() implies is_space(s[k]) by {
                if k < s.len() - 1 {
                    assert(s[k] == t[k]);
                }
            }
        }
        if all_space(s) {
            assert forall|k: int| 0 <= k < t.len() implies is_space(t[k]) by {
                assert(t[k] == s[k]);
            }
        }
    } else if s.len() > 0 {
        assert(!all_space(s));
    }
}

pub proof fn lemma_blank_iff_all_space(s: Seq<char>)
    ensures
        (trim_seq(s).len() == 0) == all_space(s),
{
    lemma_trim_start_all_space(s);
    lemma_trim_end_all_space(trim_start_seq(s));
    let t = trim_start_seq(s);
    if all_space(t) && t.len() > 0 {
        assert(is_space(t[0]));
        assert(false);
    }
    if trim_seq(s).len() == 0 {
        assert(all_space(t));
        assert(t.len() == 0);
        assert(all_space(s));
    }
    if all_space(s) {
        assert(t.len() == 0);
        assert(all_space(t));
    }
}

/// Joining a list of strings with a separator.
pub open spec fn join_seq(parts: Seq<Seq<char>>, sep: Seq<char>) -> Seq<char>
    decreases parts.len(),
{
    if parts.len() == 0 {
        Seq::empty()
    } else if parts.len() == 1 {
        parts[0]
    } else {
        parts[0] + sep + join_seq(parts.drop_first(), sep)
    }
}

/// `parts.join(sep)`.
pub fn join_strings(parts: &Vec<String>, sep: &str) -> (r: String)
    ensures
        r@ == join_seq(parts@.map_values(|p: String| p@), sep@),
{
    let ghost view = parts@.map_values(|p: String| p@);
    let n = parts.len();
    let mut out = String::new();
    if n == 0 {
        return out;
    }
    out.append(parts[0].as_str());
    let mut i: usize = 1;
    while i < n
        invariant
            1 <= i <= n,
            n == parts@.len(),
            view == parts@.map_values(|p: String| p@),
            out@ == join_seq(view.take(i as int), sep@),
        decreases n - i,
    {
        out.append(sep);
        out.append(parts[i].as_str());
        proof {
            lemma_join_push(view.take(i as int), view[i as int], sep@);
            assert(view.take(i as int).push(view[i as int]) =~= view.take(i + 1));
        }
        i = i + 1;
    }
    assert(view.take(n as int) =~= view);
    out
}

proof fn lemma_join_push(parts: Seq<Seq<char>>, last: Seq<char>, sep: Seq<char>)
    requires
        parts.len() >= 1,
    ensures
        join_seq(parts.push(last), sep) == join_seq(parts, sep) + sep + last,
    decreases parts.len(),
{
    if parts.len() == 1 {
        let p = parts.push(last);
        assert(p.drop_first() =~= seq![last]);
        assert(join_seq(p.drop_first(), sep) == last);
        assert(join_seq(p, sep) == parts[0] + sep + last);
    } else {
        lemma_join_push(parts.drop_first(), last, sep);
        let p = parts.push(last);
        assert(p.drop_first() =~= parts.drop_first().push(last));
        assert(join_seq(p, sep) == p[0] + sep + join_seq(p.drop_first(), sep));
        assert(join_seq(parts, sep) + sep + last == parts[0] + sep + (join_seq(
            parts.drop_first(),
            sep,
        ) + sep + last));
        assert(p[0] + sep + (join_seq(parts.drop_first(), sep) + sep + last) =~= (p[0] + sep
            + join_seq(parts.drop_first(), sep)) + sep + last);
    }
}

/// Rust's `u64` parsing restricted to what this crate needs: optional leading
/// `+`, then one or more decimal digits, and a value that fits in `u64`.
pub open spec fn is_dec_digit(c: char) -> bool {
    c == '0' || c == '1' || c == '2' || c == '3' || c == '4' || c == '5' || c == '6' || c == '7'
        || c == '8' || c == '9'
}

/// The digit value of a decimal digit character.
pub open spec fn dec_digit_val(c: char) -> int {
    if c == '0' {
        0
    } else if c == '1' {
        1
    } else if c == '2' {
        2
    } else if c == '3' {
        3
    } else if c == '4' {
        4
    } else if c == '5' {
        5
    } else if c == '6' {
        6
    } else if c == '7' {
        7
    } else if c == '8' {
        8
    } else {
        9
    }
}

/// The integer denoted by a sequence of decimal digit characters.
pub open spec fn dec_value(s: Seq<char>) -> int
    decreases s.len(),
{
    if s.len() == 0 {
        0
    } else {
        dec_value(s.drop_last()) * 10 + dec_digit_val(s[s.len() - 1])
    }
}

/// The digit part of a numeral: the input without a single leading `+`.
pub open spec fn numeral_digits(s: Seq<char>) -> Seq<char> {
    if s.len() > 0 && s[0] == '+' {
        s.drop_first()
    } else {
        s
    }
}

/// Whether `s` is a well-formed `u64` numeral whose value fits.
pub open spec fn is_u64_numeral(s: Seq<char>) -> bool {
    let d = numeral_digits(s);
    d.len() > 0 && (forall|k: int| 0 <= k < d.len() ==> is_dec_digit(d[k])) && dec_value(d)
        <= u64::MAX
}

pub fn dec_digit_val_exec(c: char) -> (r: u64)
    requires
        is_dec_digit(c),
    ensures
        r == dec_digit_val(c),
        r < 10,
{
    if c == '0' {
        0
    } else if c == '1' {
        1
    } else if c == '2' {
        2
    } else if c == '3' {
        3
    } else if c == '4' {
        4
    } else if c == '5' {
        5
    } else if c == '6' {
        6
    } else if c == '7' {
        7
    } else if c == '8' {
        8
    } else {
        9
    }
}

pub fn is_dec_digit_exec(c: char) -> (r: bool)
    ensures
        r == is_dec_digit(c),
{
    c == '0' || c == '1' || c == '2' || c == '3' || c == '4' || c == '5' || c == '6' || c == '7'
        || c == '8' || c == '9'
}

pub proof fn lemma_dec_value_nonneg(s: Seq<char>)
    ensures
        dec_value(s) >= 0,
    decreases s.len(),
{
    if s.len() > 0 {
        lemma_dec_value_nonneg(s.drop_last());
        assert(dec_digit_val(s[s.len() - 1]) >= 0);
    }
}

/// Appending a digit to a numeral already above a bound keeps it above.
pub proof fn lemma_dec_value_step_grows(s: Seq<char>)
    requires
        s.len() > 0,
    ensures
        dec_value(s.drop_last()) > 24 ==> dec_value(s) > 24,
{
    assert(dec_digit_val(s[s.len() - 1]) >= 0);
}

proof fn lemma_dec_value_mono(s: Seq<char>, k: int)
    requires
        0 <= k <= s.len(),
    ensures
        dec_value(s.take(k)) <= dec_value(s),
    decreases s.len() - k,
{
    lemma_dec_value_nonneg(s.take(k));
    if k < s.len() {
        lemma_dec_value_mono(s, k + 1);
        assert(s.take(k + 1).drop_last() =~= s.take(k));
        assert(dec_value(s.take(k + 1)) == dec_value(s.take(k)) * 10 + dec_digit_val(s[k]));
        lemma_dec_value_nonneg(s.take(k));
        assert(dec_value(s.take(k)) <= dec_value(s.take(k)) * 10 + dec_digit_val(s[k]));
    } else {
        assert(s.take(k) =~= s);
    }
}

/// `str::parse::<u64>` on an already-trimmed numeral: `Some` exactly when the
/// input is a well-formed `u64` numeral, and then its value.
pub fn parse_u64(s: &str) -> (r: Option<u64>)
    ensures
        r is Some <==> is_u64_numeral(s@),
        r is Some ==> r->0 == dec_value(numeral_digits(s@)),
{
    let cs = chars_vec(s);
    let n = cs.len();
    let start: usize = if n > 0 && cs[0] == '+' {
        1
    } else {
        0
    };
    let ghost d = numeral_digits(s@);
    assert(d =~= s@.subrange(start as int, n as int));
    if n == start {
        return None;
    }
    let mut acc: u64 = 0;
    let mut i: usize = start;
    while i < n
        invariant
            start <= i <= n,
            n == cs@.len(),
            cs@ == s@,
            d == numeral_digits(s@),
            d == s@.subrange(start as int, n as int),
            forall|k: int| start <= k < i ==> is_dec_digit(s@[k]),
            acc == dec_value(d.take(i - start)),
        decreases n - i,
    {
        let c = cs[i];
        assert(d[i - start] == s@[i as int]);
        if !is_dec_digit_exec(c) {
            assert(!is_u64_numeral(s@)) by {
                assert(0 <= i - start < numeral_digits(s@).len());
                assert(numeral_digits(s@)[i - start] == s@[i as int]);
                assert(!is_dec_digit(numeral_digits(s@)[i - start]));
            }
            return None;
        }
        let dv = dec_digit_val_exec(c);
        proof {
            assert(d.take(i - start + 1).drop_last() =~= d.take(i - start));
            assert(dec_value(d.take(i - start + 1)) == dec_value(d.take(i - start)) * 10
                + dec_digit_val(d[i - start]));
        }
        let next = match acc.checked_mul(10) {
            Some(x) => x.checked_add(dv),
            None => None,
        };
        match next {
            Some(x) => {
                acc = x;
            },
            None => {
                assert(!is_u64_numeral(s@)) by {
                    lemma_dec_value_nonneg(d.take(i - start));
                    assert(dec_value(d.take(i - start + 1)) > u64::MAX);
                    lemma_dec_value_mono(d, i - start + 1);
                    assert(dec_value(numeral_digits(s@)) > u64::MAX);
                }
                return None;
            },
        }
        i = i + 1;
    }
    assert(d.take(n - start) =~= d);
    Some(acc)
}

} // verus!
