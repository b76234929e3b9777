//! The message-table generator's compute.
//!
//! A Message Compiler run turns the adapter's message definitions into a C
//! header whose `#define` lines carry each symbol and its 32-bit ID, for
//! example `#define MSG_ERROR ((DWORD)0xC0000001L)`. The functions here
//! recognise those lines, emit the matching Rust constants, and decide —
//! by looking for the definition file's hash in the previously generated
//! output — whether a fresh generation is needed. Reading and writing the
//! files, hashing them, and running the compiler itself are the caller's
//! part.

use vstd::prelude::*;
use vstd::string::StrSliceExecFns;
use vstd::string::StringExecFns;

verus! {

/// ASCII whitespace, as it separates the fields of a define line.
pub open spec fn is_space(c: char) -> bool {
    c == ' ' || c == '\t' || c == '\r' || c == '\n' || c == '\u{B}' || c == '\u{C}'
}

/// An ASCII letter, the only material of a cast like `(DWORD)`.
pub open spec fn is_alpha(c: char) -> bool {
    ('a' <= c && c <= 'z') || ('A' <= c && c <= 'Z')
}

/// A hexadecimal digit.
pub open spec fn is_hex_digit(c: char) -> bool {
    ('0' <= c && c <= '9') || ('a' <= c && c <= 'f') || ('A' <= c && c <= 'F')
}

/// The first position at or after `j` that holds whitespace, or the end of
/// `s`: where the symbol run starting at `j` ends.
pub open spec fn nonspace_end(s: Seq<char>, j: int) -> int
    decreases s.len() - j,
{
    if j < 0 || j >= s.len() || is_space(s[j]) {
        j
    } else {
        nonspace_end(s, j + 1)
    }
}

/// The first position at or after `j` that holds no whitespace, or the end
/// of `s`.
pub open spec fn space_end(s: Seq<char>, j: int) -> int
    decreases s.len() - j,
{
    if j < 0 || j >= s.len() || !is_space(s[j]) {
        j
    } else {
        space_end(s, j + 1)
    }
}

/// The first position at or after `j` that holds no letter, or the end of
/// `s`.
pub open spec fn alpha_end(s: Seq<char>, j: int) -> int
    decreases s.len() - j,
{
    if j < 0 || j >= s.len() || !is_alpha(s[j]) {
        j
    } else {
        alpha_end(s, j + 1)
    }
}

/// The first position at or after `j` that holds no hexadecimal digit, or
/// the end of `s`.
pub open spec fn hex_end(s: Seq<char>, j: int) -> int
    decreases s.len() - j,
{
    if j < 0 || j >= s.len() || !is_hex_digit(s[j]) {
        j
    } else {
        hex_end(s, j + 1)
    }
}

/// A hexadecimal value `0x…` starting exactly at `q`: the text of the `0x`
/// and the maximal digit run after it, which must not be empty. Whatever
/// follows the digits is ignored, as in `0xC0000001L)`.
pub open spec fn spec_value_at(s: Seq<char>, q: int) -> Option<Seq<char>> {
    if 0 <= q && q + 2 <= s.len() && s[q] == '0' && s[q + 1] == 'x' {
        let h = hex_end(s, q + 2);
        if h > q + 2 {
            Some(s.subrange(q, h))
        } else {
            None
        }
    } else {
        None
    }
}

/// A hexadecimal value preceded by any run of whitespace starting at `q`.
pub open spec fn spec_spaced_value(s: Seq<char>, q: int) -> Option<Seq<char>> {
    spec_value_at(s, space_end(s, q))
}

/// A parenthesised cast such as `(DWORD)` starting exactly at `q`, followed
/// by whitespace and a hexadecimal value.
pub open spec fn spec_cast_value(s: Seq<char>, q: int) -> Option<Seq<char>> {
    if 0 <= q && q < s.len() && s[q] == '(' {
        let a = alpha_end(s, q + 1);
        if a > q + 1 && a < s.len() && s[a] == ')' {
            spec_spaced_value(s, a + 1)
        } else {
            None
        }
    } else {
        None
    }
}

/// The value part of a define line starting at `q`: an optional lone
/// opening parenthesis, then an optional parenthesised cast, then the
/// hexadecimal value, each wrapping tried in that order — the shape of
/// `((DWORD)0xC0000001L)`, `(DWORD)0x1`, `(0x1)` and `0x1` alike.
pub open spec fn spec_value_part(s: Seq<char>, q: int) -> Option<Seq<char>> {
    let lone_paren = 0 <= q && q < s.len() && s[q] == '(';
    if lone_paren && spec_cast_value(s, q + 1) is Some {
        spec_cast_value(s, q + 1)
    } else if lone_paren && spec_spaced_value(s, q + 1) is Some {
        spec_spaced_value(s, q + 1)
    } else if spec_cast_value(s, q) is Some {
        spec_cast_value(s, q)
    } else {
        spec_spaced_value(s, q)
    }
}

/// The symbol and value of one define line, when the line has the shape the
/// Message Compiler emits: `#define `, the symbol (everything up to the
/// next whitespace), at least one whitespace character, and the value part.
pub open spec fn spec_parse_define(s: Seq<char>) -> Option<(Seq<char>, Seq<char>)> {
    if s.len() < 8 || s.subrange(0, 8) != "#define "@ {
        None
    } else {
        let name_end = nonspace_end(s, 8);
        let ws_end = space_end(s, name_end);
        if name_end == 8 || ws_end == name_end {
            None
        } else {
            match spec_value_part(s, ws_end) {
                Some(value) => Some((s.subrange(8, name_end), value)),
                None => None,
            }
        }
    }
}

/// One symbol of the message table: its name and its hexadecimal ID, both
/// as written in the header.
pub struct McDefine {
    /// The symbol, such as `MSG_ERROR`.
    pub name: String,
    /// The value text, with its `0x` prefix, such as `0xC0000001`.
    pub value: String,
}

/// Whitespace test for one character.
fn ch_is_space(c: char) -> (r: bool)
    ensures
        r == is_space(c),
{
    c == ' ' || c == '\t' || c == '\r' || c == '\n' || c == '\u{B}' || c == '\u{C}'
}

/// Letter test for one character.
fn ch_is_alpha(c: char) -> (r: bool)
    ensures
        r == is_alpha(c),
{
    let v = c as u32;
    (0x61 <= v && v <= 0x7A) || (0x41 <= v && v <= 0x5A)
}

/// Hexadecimal-digit test for one character.
fn ch_is_hex(c: char) -> (r: bool)
    ensures
        r == is_hex_digit(c),
{
    let v = c as u32;
    (0x30 <= v && v <= 0x39) || (0x61 <= v && v <= 0x66) || (0x41 <= v && v <= 0x46)
}

/// Scan the hexadecimal value expected exactly at `q`; the returned pair
/// brackets the value text, `0x` included.
fn scan_value_at(line: &str, n: usize, q: usize) -> (r: Option<(usize, usize)>)
    requires
        n == line@.len(),
        q <= n,
    ensures
        r matches Some(v) ==> q <= v.0 <= v.1 <= n
            && spec_value_at(line@, q as int) == Some(line@.subrange(v.0 as int, v.1 as int)),
        r is None ==> spec_value_at(line@, q as int) is None,
{
    if n < 2 || q > n - 2 || line.get_char(q) != '0' || line.get_char(q + 1) != 'x' {
        return None;
    }
    let mut h: usize = q + 2;
    while h < n && ch_is_hex(line.get_char(h))
        invariant
            n == line@.len(),
            q + 2 <= h <= n,
            hex_end(line@, q + 2) == hex_end(line@, h as int),
        decreases n - h,
    {
        h = h + 1;
    }
    if h == q + 2 {
        None
    } else {
        Some((q, h))
    }
}

/// Scan a hexadecimal value preceded by any whitespace from `q` on.
fn scan_spaced_value(line: &str, n: usize, q: usize) -> (r: Option<(usize, usize)>)
    requires
        n == line@.len(),
        q <= n,
    ensures
        r matches Some(v) ==> q <= v.0 <= v.1 <= n
            && spec_spaced_value(line@, q as int) == Some(line@.subrange(v.0 as int, v.1 as int)),
        r is None ==> spec_spaced_value(line@, q as int) is None,
{
    let mut w: usize = q;
    while w < n && ch_is_space(line.get_char(w))
        invariant
            n == line@.len(),
            q <= w <= n,
            space_end(line@, q as int) == space_end(line@, w as int),
        decreases n - w,
    {
        w = w + 1;
    }
    scan_value_at(line, n, w)
}

/// Scan a parenthesised cast expected exactly at `q`, then whitespace, then
/// the hexadecimal value.
fn scan_cast_value(line: &str, n: usize, q: usize) -> (r: Option<(usize, usize)>)
    requires
        n == line@.len(),
        q <= n,
    ensures
        r matches Some(v) ==> v.0 <= v.1 <= n
            && spec_cast_value(line@, q as int) == Some(line@.subrange(v.0 as int, v.1 as int)),
        r is None ==> spec_cast_value(line@, q as int) is None,
{
    if q == n || line.get_char(q) != '(' {
        return None;
    }
    let mut a: usize = q + 1;
    while a < n && ch_is_alpha(line.get_char(a))
        invariant
            n == line@.len(),
            q + 1 <= a <= n,
            alpha_end(line@, q + 1) == alpha_end(line@, a as int),
        decreases n - a,
    {
        a = a + 1;
    }
    if a == q + 1 || a == n || line.get_char(a) != ')' {
        return None;
    }
    scan_spaced_value(line, n, a + 1)
}

/// Recognise one define line of the generated header; the symbol and value
/// are exactly what [`spec_parse_define`] captures from it.
pub fn parse_define(line: &str) -> (r: Option<McDefine>)
    ensures
        r matches Some(d) ==> spec_parse_define(line@) == Some((d.name@, d.value@)),
        r is None ==> spec_parse_define(line@) is None,
{
    let n = line.unicode_len();
    let prefix_ok = n >= 8 && line.get_char(0) == '#' && line.get_char(1) == 'd'
        && line.get_char(2) == 'e' && line.get_char(3) == 'f' && line.get_char(4) == 'i'
        && line.get_char(5) == 'n' && line.get_char(6) == 'e' && line.get_char(7) == ' ';
    proof {
        reveal_strlit("#define ");
        assert("#define "@.len() == 8);
        if n >= 8 {
            assert(line@.subrange(0, 8).len() == 8);
            assert(forall|t: int| 0 <= t < 8 ==> line@.subrange(0, 8)[t] == line@[t]);
            if prefix_ok {
                assert(line@.subrange(0, 8) =~= "#define "@);
            } else {
                assert(line@.subrange(0, 8) != "#define "@);
            }
        }
    }
    if !prefix_ok {
        return None;
    }
    let mut j: usize = 8;
    while j < n && !ch_is_space(line.get_char(j))
        invariant
            n == line@.len(),
            8 <= j <= n,
            nonspace_end(line@, 8) == nonspace_end(line@, j as int),
        decreases n - j,
    {
        j = j + 1;
    }
    let name_end = j;
    if name_end == 8 {
        return None;
    }
    let mut w: usize = name_end;
    while w < n && ch_is_space(line.get_char(w))
        invariant
            n == line@.len(),
            name_end <= w <= n,
            space_end(line@, name_end as int) == space_end(line@, w as int),
        decreases n - w,
    {
        w = w + 1;
    }
    let ws_end = w;
    if ws_end == name_end {
        return None;
    }
    let lone_paren = ws_end < n && line.get_char(ws_end) == '(';
    let value_span = if lone_paren {
        match scan_cast_value(line, n, ws_end + 1) {
            Some(v) => Some(v),
            None => match scan_spaced_value(line, n, ws_end + 1) {
                Some(v) => Some(v),
                None => match scan_cast_value(line, n, ws_end) {
                    Some(v) => Some(v),
                    None => scan_spaced_value(line, n, ws_end),
                },
            },
        }
    } else {
        match scan_cast_value(line, n, ws_end) {
            Some(v) => Some(v),
            None => scan_spaced_value(line, n, ws_end),
        }
    };
    match value_span {
        Some((a, b)) => {
            let name = String::from_str(line.substring_char(8, name_end));
            let value = String::from_str(line.substring_char(a, b));
            Some(McDefine { name, value })
        },
        None => None,
    }
}

/// The generated Rust line for one symbol, newline included.
pub open spec fn spec_const_line(name: Seq<char>, value: Seq<char>) -> Seq<char> {
    "pub const "@ + name + ": u32 = "@ + value + ";\n"@
}

/// The Rust constants generated from the header's lines, in order: one
/// `pub const` per line that is a define, nothing for any other line.
pub open spec fn spec_gen(lines: Seq<Seq<char>>) -> Seq<char>
    decreases lines.len(),
{
    if lines.len() == 0 {
        Seq::empty()
    } else {
        spec_gen(lines.drop_last()) + match spec_parse_define(lines.last()) {
            Some(nv) => spec_const_line(nv.0, nv.1),
            None => Seq::empty(),
        }
    }
}

/// Emit the Rust constants for a generated header, one `pub const` line per
/// define in it. The caller writes the result wherever the constants live.
pub fn gen_rust(lines: &Vec<String>) -> (r: String)
    ensures
        r@ == spec_gen(lines.deep_view()),
{
    let mut out = String::from_str("");
    proof {
        reveal_strlit("");
        assert(out@ =~= Seq::<char>::empty());
        assert(lines.deep_view().subrange(0, 0) =~= Seq::<Seq<char>>::empty());
    }
    let mut i: usize = 0;
    while i < lines.len()
        invariant
            i <= lines@.len(),
            lines.deep_view().len() == lines@.len(),
            forall|t: int| 0 <= t < lines@.len() ==> lines.deep_view()[t] == lines@[t]@,
            out@ == spec_gen(lines.deep_view().subrange(0, i as int)),
        decreases lines@.len() - i,
    {
        match parse_define(lines[i].as_str()) {
            Some(d) => {
                out.append("pub const ");
                out.append(d.name.as_str());
                out.append(": u32 = ");
                out.append(d.value.as_str());
                out.append(";\n");
            },
            None => {},
        }
        proof {
            let dv = lines.deep_view();
            let next = dv.subrange(0, i + 1);
            assert(next.drop_last() =~= dv.subrange(0, i as int));
            assert(next.last() == dv[i as int]);
            assert(out@ =~= spec_gen(next));
        }
        i = i + 1;
    }
    proof {
        assert(lines.deep_view().subrange(0, lines@.len() as int) =~= lines.deep_view());
    }
    out
}

/// Whether `needle` occurs in `hay` as a contiguous run of characters.
pub open spec fn contains_seq(hay: Seq<char>, needle: Seq<char>) -> bool {
    exists|k: int|
        0 <= k <= hay.len() - needle.len() && #[trigger] hay.subrange(k, k + needle.len())
            == needle
}

/// Whether `needle`'s characters stand in `line` starting at `k`.
fn match_at(line: &str, needle: &str, k: usize) -> (r: bool)
    requires
        k + needle@.len() <= line@.len(),
    ensures
        r == (line@.subrange(k as int, k as int + needle@.len() as int) == needle@),
{
    let n = line.unicode_len();
    let m = needle.unicode_len();
    let mut j: usize = 0;
    while j < m
        invariant
            j <= m,
            n == line@.len(),
            m == needle@.len(),
            k + m <= n,
            forall|t: int| 0 <= t < j ==> line@[k + t] == needle@[t],
        decreases m - j,
    {
        if line.get_char(k + j) != needle.get_char(j) {
            proof {
                let sub = line@.subrange(k as int, k as int + m as int);
                assert(sub[j as int] == line@[k + j]);
            }
            return false;
        }
        j = j + 1;
    }
    proof {
        assert(line@.subrange(k as int, k as int + m as int) =~= needle@);
    }
    true
}

/// Whether `needle` occurs in `line`.
pub fn contains_str(line: &str, needle: &str) -> (r: bool)
    ensures
        r == contains_seq(line@, needle@),
{
    let n = line.unicode_len();
    let m = needle.unicode_len();
    if m > n {
        return false;
    }
    if m == 0 {
        proof {
            let zero: int = 0;
            assert(line@.subrange(zero, zero + needle@.len() as int) =~= needle@);
            assert(contains_seq(line@, needle@));
        }
        return true;
    }
    let mut k: usize = 0;
    while k <= n - m
        invariant
            1 <= m <= n,
            n == line@.len(),
            m == needle@.len(),
            k <= n - m + 1,
            forall|t: int| 0 <= t < k ==> #[trigger] line@.subrange(t, t + m as int) != needle@,
        decreases n - m + 1 - k,
    {
        if match_at(line, needle, k) {
            return true;
        }
        k = k + 1;
    }
    false
}

/// The first line of a constants file: it names the definition file's hash
/// so that a later run can see the output is current.
pub fn hash_line(origin_hash: &str) -> (r: String)
    ensures
        r@ == "// Message constants of the event-message table with SHA256 "@ + origin_hash@
            + "."@,
{
    let mut out = String::from_str(
        "// Message constants of the event-message table with SHA256 ",
    );
    out.append(origin_hash);
    out.append(".");
    out
}

/// A string contains any run that stands in it between a prefix and a
/// suffix.
pub proof fn lemma_contains_infix(prefix: Seq<char>, middle: Seq<char>, suffix: Seq<char>)
    ensures
        contains_seq(prefix + middle + suffix, middle),
{
    let hay = prefix + middle + suffix;
    let k = prefix.len() as int;
    assert(hay.subrange(k, k + middle.len() as int) =~= middle);
    assert(contains_seq(hay, middle));
}

/// Writing [`hash_line`] settles the cache check: a constants file whose
/// first line is the hash line for `h` mentions `h`, so the check never
/// asks to regenerate it.
pub proof fn lemma_hash_line_is_current(lines: Seq<Seq<char>>, h: Seq<char>)
    requires
        lines.len() > 0,
        lines[0] == "// Message constants of the event-message table with SHA256 "@ + h + "."@,
    ensures
        exists|i: int| 0 <= i < lines.len() && contains_seq(#[trigger] lines[i], h),
{
    lemma_contains_infix(
        "// Message constants of the event-message table with SHA256 "@,
        h,
        "."@,
    );
    assert(contains_seq(lines[0], h));
}

/// The generator's cache check: a fresh run is needed exactly when no line
/// of the previously generated output mentions the definition file's hash.
pub fn should_regenerate(generated_lines: &Vec<String>, origin_hash: &str) -> (r: bool)
    ensures
        r == !(exists|i: int|
            0 <= i < generated_lines.deep_view().len()
                && contains_seq(generated_lines.deep_view()[i], origin_hash@)),
{
    let mut i: usize = 0;
    while i < generated_lines.len()
        invariant
            i <= generated_lines@.len(),
            generated_lines.deep_view().len() == generated_lines@.len(),
            forall|t: int| 0 <= t < generated_lines@.len()
                ==> generated_lines.deep_view()[t] == generated_lines@[t]@,
            forall|t: int| 0 <= t < i ==> !contains_seq(generated_lines.deep_view()[t], origin_hash@),
        decreases generated_lines@.len() - i,
    {
        if contains_str(generated_lines[i].as_str(), origin_hash) {
            proof {
                assert(contains_seq(generated_lines.deep_view()[i as int], origin_hash@));
            }
            return false;
        }
        i = i + 1;
    }
    true
}

} // verus!
