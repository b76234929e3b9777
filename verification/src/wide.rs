//! Wide-string encoding.
//!
//! The Event Log and registry interfaces take strings as nul-terminated
//! sequences of UTF-16 code units. `win_string` produces exactly that shape,
//! and the spec functions here say what the units are for every character.

use vstd::prelude::*;
use vstd::string::StrSliceExecFns;

verus! {

/// The UTF-16 code units of one character: a single unit for a value in the
/// basic multilingual plane, a surrogate pair for anything above it.
pub open spec fn utf16_units(c: char) -> Seq<u16> {
    if (c as u32) < 0x10000 {
        seq![c as u16]
    } else {
        seq![
            ((c as u32 - 0x10000) / 0x400 + 0xD800) as u16,
            ((c as u32 - 0x10000) % 0x400 + 0xDC00) as u16,
        ]
    }
}

/// The UTF-16 encoding of a string's characters, without a terminator.
pub open spec fn wide_of(s: Seq<char>) -> Seq<u16>
    decreases s.len(),
{
    if s.len() == 0 {
        Seq::empty()
    } else {
        wide_of(s.drop_last()) + utf16_units(s.last())
    }
}

/// The UTF-16 encoding of a string's characters followed by one nul unit:
/// the shape in which the OS takes wide strings.
pub open spec fn wide_nul_of(s: Seq<char>) -> Seq<u16> {
    wide_of(s).push(0u16)
}

/// A character's units are never nul unless the character itself is, and a
/// surrogate pair consists of one unit in `0xD800..0xDC00` followed by one
/// in `0xDC00..0xE000`.
proof fn lemma_units_shape(c: char)
    ensures
        (c as u32) < 0x10000 ==> utf16_units(c) =~= seq![c as u16],
        (c as u32) >= 0x10000 ==> utf16_units(c).len() == 2
            && 0xD800 <= utf16_units(c)[0] < 0xDC00
            && 0xDC00 <= utf16_units(c)[1] < 0xE000,
        utf16_units(c).contains(0u16) <==> c == '\0',
{
    if (c as u32) < 0x10000 {
        assert(utf16_units(c) == seq![c as u16]);
        assert(utf16_units(c)[0] == c as u16);
        if c == '\0' {
            assert(utf16_units(c).contains(0u16));
        }
    } else {
        let v = c as u32 - 0x10000;
        assert(v < 0x100000);
        assert(v / 0x400 < 0x400) by (nonlinear_arith)
            requires v < 0x100000;
        assert(v % 0x400 < 0x400) by (nonlinear_arith);
        assert(0xD800 <= v / 0x400 + 0xD800 < 0xDC00);
        assert(0xDC00 <= v % 0x400 + 0xDC00 < 0xE000);
        assert(utf16_units(c)[0] == (v / 0x400 + 0xD800) as u16);
        assert(utf16_units(c)[1] == (v % 0x400 + 0xDC00) as u16);
        assert(!utf16_units(c).contains(0u16));
    }
}

/// The encoding hides no terminator: a nul unit occurs among a string's
/// code units exactly when the nul character occurs in the string.
pub proof fn lemma_wide_nul_free(s: Seq<char>)
    ensures
        wide_of(s).contains(0u16) <==> s.contains('\0'),
    decreases s.len(),
{
    if s.len() == 0 {
        assert(!wide_of(s).contains(0u16));
        assert(!s.contains('\0'));
    } else {
        lemma_wide_nul_free(s.drop_last());
        lemma_units_shape(s.last());
        let prefix = wide_of(s.drop_last());
        let units = utf16_units(s.last());
        assert(wide_of(s) == prefix + units);
        if s.contains('\0') {
            let i = choose|i: int| 0 <= i < s.len() && s[i] == '\0';
            if i < s.len() - 1 {
                assert(s.drop_last()[i] == '\0');
                assert(s.drop_last().contains('\0'));
                let j = choose|j: int| 0 <= j < prefix.len() && prefix[j] == 0u16;
                assert(wide_of(s)[j] == 0u16);
            } else {
                assert(s.last() == '\0');
                let j = choose|j: int| 0 <= j < units.len() && units[j] == 0u16;
                assert(wide_of(s)[prefix.len() + j] == 0u16);
            }
            assert(wide_of(s).contains(0u16));
        }
        if wide_of(s).contains(0u16) {
            let j = choose|j: int| 0 <= j < wide_of(s).len() && wide_of(s)[j] == 0u16;
            if j < prefix.len() {
                assert(prefix[j] == 0u16);
                assert(prefix.contains(0u16));
                let i = choose|i: int| 0 <= i < s.drop_last().len() && s.drop_last()[i] == '\0';
                assert(s[i] == '\0');
            } else {
                assert(units[j - prefix.len()] == 0u16);
                assert(units.contains(0u16));
                assert(s.last() == '\0');
                assert(s[s.len() - 1] == '\0');
            }
            assert(s.contains('\0'));
        }
    }
}

/// A string's encoding is at least as long as the string and at most twice
/// as long.
pub proof fn lemma_wide_len(s: Seq<char>)
    ensures
        s.len() <= wide_of(s).len() <= 2 * s.len(),
    decreases s.len(),
{
    if s.len() > 0 {
        lemma_wide_len(s.drop_last());
        lemma_units_shape(s.last());
        assert(1 <= utf16_units(s.last()).len() <= 2);
    }
}

/// Append the UTF-16 units of `c` to `out`.
fn push_units(out: &mut Vec<u16>, c: char)
    ensures
        final(out)@ == old(out)@ + utf16_units(c),
{
    let v = c as u32;
    if v < 0x10000 {
        out.push(v as u16);
        assert(out@ =~= old(out)@ + utf16_units(c));
    } else {
        let off = v - 0x10000;
        assert(off < 0x100000);
        assert(off / 0x400 < 0x400) by (nonlinear_arith)
            requires off < 0x100000;
        assert(off % 0x400 < 0x400) by (nonlinear_arith);
        let hi = (off / 0x400 + 0xD800) as u16;
        let lo = (off % 0x400 + 0xDC00) as u16;
        out.push(hi);
        out.push(lo);
        assert(out@ =~= old(out)@ + utf16_units(c));
    }
}

/// Encode `s` as the OS expects wide strings: its UTF-16 code units
/// followed by one nul unit.
pub fn win_string(s: &str) -> (r: Vec<u16>)
    ensures
        r@ == wide_nul_of(s@),
        s@.len() + 1 <= r@.len() <= 2 * s@.len() + 1,
{
    let len = s.unicode_len();
    let mut out: Vec<u16> = Vec::new();
    let mut i: usize = 0;
    while i < len
        invariant
            i <= len,
            len == s@.len(),
            out@ == wide_of(s@.subrange(0, i as int)),
        decreases len - i,
    {
        let c = s.get_char(i);
        push_units(&mut out, c);
        proof {
            let next = s@.subrange(0, i + 1);
            assert(next.drop_last() =~= s@.subrange(0, i as int));
            assert(next.last() == s@[i as int]);
        }
        i = i + 1;
    }
    proof {
        assert(s@.subrange(0, len as int) =~= s@);
        lemma_wide_len(s@);
    }
    out.push(0);
    out
}

} // verus!
