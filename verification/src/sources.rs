use vstd::prelude::*;
use vstd::assert_seqs_equal;
use vstd::string::StrSliceExecFns;

use crate::text::chars_of;

verus! {

/// A decimal digit: the Unicode `Nd` category, the characters a line number
/// in a source reference may be written with.
pub open spec fn is_digit(c: char) -> bool {
    ||| (0x30 <= c as u32 && c as u32 <= 0x39)
    ||| (0x660 <= c as u32 && c as u32 <= 0x669)
    ||| (0x6F0 <= c as u32 && c as u32 <= 0x6F9)
    ||| (0x7C0 <= c as u32 && c as u32 <= 0x7C9)
    ||| (0x966 <= c as u32 && c as u32 <= 0x96F)
    ||| (0x9E6 <= c as u32 && c as u32 <= 0x9EF)
    ||| (0xA66 <= c as u32 && c as u32 <= 0xA6F)
    ||| (0xAE6 <= c as u32 && c as u32 <= 0xAEF)
    ||| (0xB66 <= c as u32 && c as u32 <= 0xB6F)
    ||| (0xBE6 <= c as u32 && c as u32 <= 0xBEF)
    ||| (0xC66 <= c as u32 && c as u32 <= 0xC6F)
    ||| (0xCE6 <= c as u32 && c as u32 <= 0xCEF)
    ||| (0xD66 <= c as u32 && c as u32 <= 0xD6F)
    ||| (0xDE6 <= c as u32 && c as u32 <= 0xDEF)
    ||| (0xE50 <= c as u32 && c as u32 <= 0xE59)
    ||| (0xED0 <= c as u32 && c as u32 <= 0xED9)
    ||| (0xF20 <= c as u32 && c as u32 <= 0xF29)
    ||| (0x1040 <= c as u32 && c as u32 <= 0x1049)
    ||| (0x1090 <= c as u32 && c as u32 <= 0x1099)
    ||| (0x17E0 <= c as u32 && c as u32 <= 0x17E9)
    ||| (0x1810 <= c as u32 && c as u32 <= 0x1819)
    ||| (0x1946 <= c as u32 && c as u32 <= 0x194F)
    ||| (0x19D0 <= c as u32 && c as u32 <= 0x19D9)
    ||| (0x1A80 <= c as u32 && c as u32 <= 0x1A89)
    ||| (0x1A90 <= c as u32 && c as u32 <= 0x1A99)
    ||| (0x1B50 <= c as u32 && c as u32 <= 0x1B59)
    ||| (0x1BB0 <= c as u32 && c as u32 <= 0x1BB9)
    ||| (0x1C40 <= c as u32 && c as u32 <= 0x1C49)
    ||| (0x1C50 <= c as u32 && c as u32 <= 0x1C59)
    ||| (0xA620 <= c as u32 && c as u32 <= 0xA629)
    ||| (0xA8D0 <= c as u32 && c as u32 <= 0xA8D9)
    ||| (0xA900 <= c as u32 && c as u32 <= 0xA909)
    ||| (0xA9D0 <= c as u32 && c as u32 <= 0xA9D9)
    ||| (0xA9F0 <= c as u32 && c as u32 <= 0xA9F9)
    ||| (0xAA50 <= c as u32 && c as u32 <= 0xAA59)
    ||| (0xABF0 <= c as u32 && c as u32 <= 0xABF9)
    ||| (0xFF10 <= c as u32 && c as u32 <= 0xFF19)
    ||| (0x104A0 <= c as u32 && c as u32 <= 0x104A9)
    ||| (0x10D30 <= c as u32 && c as u32 <= 0x10D39)
    ||| (0x11066 <= c as u32 && c as u32 <= 0x1106F)
    ||| (0x110F0 <= c as u32 && c as u32 <= 0x110F9)
    ||| (0x11136 <= c as u32 && c as u32 <= 0x1113F)
    ||| (0x111D0 <= c as u32 && c as u32 <= 0x111D9)
    ||| (0x112F0 <= c as u32 && c as u32 <= 0x112F9)
    ||| (0x11450 <= c as u32 && c as u32 <= 0x11459)
    ||| (0x114D0 <= c as u32 && c as u32 <= 0x114D9)
    ||| (0x11650 <= c as u32 && c as u32 <= 0x11659)
    ||| (0x116C0 <= c as u32 && c as u32 <= 0x116C9)
    ||| (0x11730 <= c as u32 && c as u32 <= 0x11739)
    ||| (0x118E0 <= c as u32 && c as u32 <= 0x118E9)
    ||| (0x11950 <= c as u32 && c as u32 <= 0x11959)
    ||| (0x11C50 <= c as u32 && c as u32 <= 0x11C59)
    ||| (0x11D50 <= c as u32 && c as u32 <= 0x11D59)
    ||| (0x11DA0 <= c as u32 && c as u32 <= 0x11DA9)
    ||| (0x16A60 <= c as u32 && c as u32 <= 0x16A69)
    ||| (0x16AC0 <= c as u32 && c as u32 <= 0x16AC9)
    ||| (0x16B50 <= c as u32 && c as u32 <= 0x16B59)
    ||| (0x1D7CE <= c as u32 && c as u32 <= 0x1D7FF)
    ||| (0x1E140 <= c as u32 && c as u32 <= 0x1E149)
    ||| (0x1E2F0 <= c as u32 && c as u32 <= 0x1E2F9)
    ||| (0x1E950 <= c as u32 && c as u32 <= 0x1E959)
    ||| (0x1FBF0 <= c as u32 && c as u32 <= 0x1FBF9)
}

pub fn char_is_digit(c: char) -> (b: bool)
    ensures
        b == is_digit(c),
{
    let u = c as u32;
    (0x30 <= u && u <= 0x39)
        || (0x660 <= u && u <= 0x669)
        || (0x6F0 <= u && u <= 0x6F9)
        || (0x7C0 <= u && u <= 0x7C9)
        || (0x966 <= u && u <= 0x96F)
        || (0x9E6 <= u && u <= 0x9EF)
        || (0xA66 <= u && u <= 0xA6F)
        || (0xAE6 <= u && u <= 0xAEF)
        || (0xB66 <= u && u <= 0xB6F)
        || (0xBE6 <= u && u <= 0xBEF)
        || (0xC66 <= u && u <= 0xC6F)
        || (0xCE6 <= u && u <= 0xCEF)
        || (0xD66 <= u && u <= 0xD6F)
        || (0xDE6 <= u && u <= 0xDEF)
        || (0xE50 <= u && u <= 0xE59)
        || (0xED0 <= u && u <= 0xED9)
        || (0xF20 <= u && u <= 0xF29)
        || (0x1040 <= u && u <= 0x1049)
        || (0x1090 <= u && u <= 0x1099)
        || (0x17E0 <= u && u <= 0x17E9)
        || (0x1810 <= u && u <= 0x1819)
        || (0x1946 <= u && u <= 0x194F)
        || (0x19D0 <= u && u <= 0x19D9)
        || (0x1A80 <= u && u <= 0x1A89)
        || (0x1A90 <= u && u <= 0x1A99)
        || (0x1B50 <= u && u <= 0x1B59)
        || (0x1BB0 <= u && u <= 0x1BB9)
        || (0x1C40 <= u && u <= 0x1C49)
        || (0x1C50 <= u && u <= 0x1C59)
        || (0xA620 <= u && u <= 0xA629)
        || (0xA8D0 <= u && u <= 0xA8D9)
        || (0xA900 <= u && u <= 0xA909)
        || (0xA9D0 <= u && u <= 0xA9D9)
        || (0xA9F0 <= u && u <= 0xA9F9)
        || (0xAA50 <= u && u <= 0xAA59)
        || (0xABF0 <= u && u <= 0xABF9)
        || (0xFF10 <= u && u <= 0xFF19)
        || (0x104A0 <= u && u <= 0x104A9)
        || (0x10D30 <= u && u <= 0x10D39)
        || (0x11066 <= u && u <= 0x1106F)
        || (0x110F0 <= u && u <= 0x110F9)
        || (0x11136 <= u && u <= 0x1113F)
        || (0x111D0 <= u && u <= 0x111D9)
        || (0x112F0 <= u && u <= 0x112F9)
        || (0x11450 <= u && u <= 0x11459)
        || (0x114D0 <= u && u <= 0x114D9)
        || (0x11650 <= u && u <= 0x11659)
        || (0x116C0 <= u && u <= 0x116C9)
        || (0x11730 <= u && u <= 0x11739)
        || (0x118E0 <= u && u <= 0x118E9)
        || (0x11950 <= u && u <= 0x11959)
        || (0x11C50 <= u && u <= 0x11C59)
        || (0x11D50 <= u && u <= 0x11D59)
        || (0x11DA0 <= u && u <= 0x11DA9)
        || (0x16A60 <= u && u <= 0x16A69)
        || (0x16AC0 <= u && u <= 0x16AC9)
        || (0x16B50 <= u && u <= 0x16B59)
        || (0x1D7CE <= u && u <= 0x1D7FF)
        || (0x1E140 <= u && u <= 0x1E149)
        || (0x1E2F0 <= u && u <= 0x1E2F9)
        || (0x1E950 <= u && u <= 0x1E959)
        || (0x1FBF0 <= u && u <= 0x1FBF9)
}

/// Whitespace as `str::trim` understands it: the Unicode `White_Space` set.
pub open spec fn is_space(c: char) -> bool {
    ||| c == ' '
    ||| c == '\t'
    ||| c == '\n'
    ||| c == '\r'
    ||| c == '\u{000B}'
    ||| c == '\u{000C}'
    ||| c == '\u{0085}'
    ||| c == '\u{00A0}'
    ||| c == '\u{1680}'
    ||| (('\u{2000}' as u32) <= (c as u32) && (c as u32) <= ('\u{200A}' as u32))
    ||| c == '\u{2028}'
    ||| c == '\u{2029}'
    ||| c == '\u{202F}'
    ||| c == '\u{205F}'
    ||| c == '\u{3000}'
}

pub fn char_is_space(c: char) -> (b: bool)
    ensures
        b == is_space(c),
{
    let u = c as u32;
    u == (' ' as u32) || u == ('\t' as u32) || u == ('\n' as u32) || u == ('\r' as u32)
        || u == ('\u{000B}' as u32) || u == ('\u{000C}' as u32) || u == ('\u{0085}' as u32)
        || u == ('\u{00A0}' as u32) || u == ('\u{1680}' as u32)
        || (('\u{2000}' as u32) <= u && u <= ('\u{200A}' as u32)) || u == ('\u{2028}' as u32)
        || u == ('\u{2029}' as u32) || u == ('\u{202F}' as u32) || u == ('\u{205F}' as u32)
        || u == ('\u{3000}' as u32)
}

/// `t` with leading and trailing whitespace removed.
pub open spec fn trim_spaces(t: Seq<char>) -> Seq<char>
    decreases t.len(),
{
    if t.len() > 0 && is_space(t[0]) {
        trim_spaces(t.drop_first())
    } else if t.len() > 0 && is_space(t[t.len() - 1]) {
        trim_spaces(t.drop_last())
    } else {
        t
    }
}

/// The index of the first colon at or after `i`, or the length when there is none.
pub open spec fn seek_colon(s: Seq<char>, i: int) -> int
    decreases s.len() - i,
{
    if i < 0 || i >= s.len() {
        s.len() as int
    } else if s[i] == ':' {
        i
    } else {
        seek_colon(s, i + 1)
    }
}

/// The index of the first non-digit at or after `i`, or the length when all
/// remaining characters are digits.
pub open spec fn seek_nondigit(s: Seq<char>, i: int) -> int
    decreases s.len() - i,
{
    if i < 0 || i >= s.len() {
        s.len() as int
    } else if is_digit(s[i]) {
        seek_nondigit(s, i + 1)
    } else {
        i
    }
}

pub proof fn lemma_seek_colon(s: Seq<char>, i: int)
    requires
        0 <= i <= s.len(),
    ensures
        i <= seek_colon(s, i) <= s.len(),
        seek_colon(s, i) < s.len() ==> s[seek_colon(s, i)] == ':',
        forall|k: int| i <= k < seek_colon(s, i) ==> s[k] != ':',
    decreases s.len() - i,
{
    if i < s.len() && s[i] != ':' {
        lemma_seek_colon(s, i + 1);
    }
}

pub proof fn lemma_seek_nondigit(s: Seq<char>, i: int)
    requires
        0 <= i <= s.len(),
    ensures
        i <= seek_nondigit(s, i) <= s.len(),
        seek_nondigit(s, i) < s.len() ==> !is_digit(s[seek_nondigit(s, i)]),
        forall|k: int| i <= k < seek_nondigit(s, i) ==> is_digit(s[k]),
    decreases s.len() - i,
{
    if i < s.len() && is_digit(s[i]) {
        lemma_seek_nondigit(s, i + 1);
    }
}

/// The raw `path:line` tokens of `s` from position `i` on: each token is a
/// maximal run of non-colon characters, the colon after it, and the maximal
/// non-empty run of digits after that; tokens are found left to right and do
/// not overlap.
pub open spec fn raw_tokens_from(s: Seq<char>, i: int) -> Seq<Seq<char>>
    decreases s.len() - i,
    via raw_tokens_from_decreases
{
    if i < 0 || i >= s.len() {
        Seq::empty()
    } else if s[i] == ':' {
        raw_tokens_from(s, i + 1)
    } else {
        let j = seek_colon(s, i);
        if j >= s.len() {
            Seq::empty()
        } else if j + 1 < s.len() && is_digit(s[j + 1]) {
            let k = seek_nondigit(s, j + 1);
            seq![s.subrange(i, k)] + raw_tokens_from(s, k)
        } else {
            raw_tokens_from(s, j + 1)
        }
    }
}

#[via_fn]
proof fn raw_tokens_from_decreases(s: Seq<char>, i: int) {
    if 0 <= i < s.len() && s[i] != ':' {
        lemma_seek_colon(s, i);
        let j = seek_colon(s, i);
        if j < s.len() {
            assert(j != i);
            if j + 1 < s.len() && is_digit(s[j + 1]) {
                lemma_seek_nondigit(s, j + 1);
            }
        }
    }
}

/// The individual source references packed into a location string: the raw
/// tokens, each with surrounding whitespace removed.
pub open spec fn source_refs(s: Seq<char>) -> Seq<Seq<char>> {
    raw_tokens_from(s, 0).map_values(|t: Seq<char>| trim_spaces(t))
}

/// Removing a trailing whitespace character commutes with the front-first
/// definition of `trim_spaces`.
proof fn lemma_trim_drop_last(t: Seq<char>)
    requires
        t.len() > 0,
        is_space(t[t.len() - 1]),
    ensures
        trim_spaces(t) == trim_spaces(t.drop_last()),
    decreases t.len(),
{
    if is_space(t[0]) {
        if t.len() == 1 {
            assert(t.drop_first() =~= Seq::<char>::empty());
            assert(t.drop_last() =~= Seq::<char>::empty());
        } else {
            lemma_trim_drop_last(t.drop_first());
            assert(t.drop_first().drop_last() =~= t.drop_last().drop_first());
            assert(t.drop_last().len() > 0 && is_space(t.drop_last()[0]));
        }
    }
}

fn find_colon(s: &str, cs: &Vec<char>, i: usize) -> (j: usize)
    requires
        cs@ == s@,
        i <= cs@.len(),
    ensures
        j == seek_colon(s@, i as int),
{
    let n = cs.len();
    let mut j = i;
    while j < n && *cs.get(j).unwrap() != ':'
        invariant
            cs@ == s@,
            n == cs@.len(),
            i <= j <= n,
            seek_colon(s@, i as int) == seek_colon(s@, j as int),
        decreases n - j,
    {
        j = j + 1;
    }
    j
}

fn find_nondigit(s: &str, cs: &Vec<char>, i: usize) -> (j: usize)
    requires
        cs@ == s@,
        i <= cs@.len(),
    ensures
        j == seek_nondigit(s@, i as int),
{
    let n = cs.len();
    let mut j = i;
    while j < n && char_is_digit(*cs.get(j).unwrap())
        invariant
            cs@ == s@,
            n == cs@.len(),
            i <= j <= n,
            seek_nondigit(s@, i as int) == seek_nondigit(s@, j as int),
        decreases n - j,
    {
        j = j + 1;
    }
    j
}

/// The substring of `s` between the character positions `from` and `to`, with
/// surrounding whitespace removed.
fn trimmed_substring(s: &str, cs: &Vec<char>, from: usize, to: usize) -> (t: String)
    requires
        cs@ == s@,
        from <= to <= cs@.len(),
    ensures
        t@ == trim_spaces(s@.subrange(from as int, to as int)),
{
    let mut a = from;
    let mut b = to;
    while a < b && char_is_space(*cs.get(a).unwrap())
        invariant
            cs@ == s@,
            from <= a <= b <= cs@.len(),
            b == to,
            trim_spaces(s@.subrange(from as int, to as int)) == trim_spaces(
                s@.subrange(a as int, b as int),
            ),
        decreases b - a,
    {
        proof {
            assert(s@.subrange(a as int, b as int).drop_first() =~= s@.subrange(
                a + 1 as int,
                b as int,
            ));
        }
        a = a + 1;
    }
    while a < b && char_is_space(*cs.get(b - 1).unwrap())
        invariant
            cs@ == s@,
            a <= b <= cs@.len(),
            trim_spaces(s@.subrange(from as int, to as int)) == trim_spaces(
                s@.subrange(a as int, b as int),
            ),
            a < b ==> !is_space(s@[a as int]),
        decreases b - a,
    {
        proof {
            let t = s@.subrange(a as int, b as int);
            lemma_trim_drop_last(t);
            assert(t.drop_last() =~= s@.subrange(a as int, b - 1 as int));
        }
        b = b - 1;
    }
    proof {
        let t = s@.subrange(a as int, b as int);
        if a < b {
            assert(!is_space(t[0]));
            assert(!is_space(t[t.len() - 1]));
        } else {
            assert(t =~= Seq::<char>::empty());
        }
    }
    s.substring_char(a, b).to_owned()
}

/// The individual `path:line` references packed into a source-location string,
/// in order, each with surrounding whitespace removed.
pub fn extract_source_refs(s: &str) -> (v: Vec<String>)
    ensures
        v@.map_values(|t: String| t@) == source_refs(s@),
{
    let cs = chars_of(s);
    let n = cs.len();
    let mut out: Vec<String> = Vec::new();
    let mut i: usize = 0;
    proof {
        assert(out@.map_values(|t: String| t@) + raw_tokens_from(s@, 0).map_values(
            |t: Seq<char>| trim_spaces(t),
        ) =~= source_refs(s@));
    }
    while i < n
        invariant
            cs@ == s@,
            n == cs@.len(),
            i <= n,
            out@.map_values(|t: String| t@) + raw_tokens_from(s@, i as int).map_values(
                |t: Seq<char>| trim_spaces(t),
            ) == source_refs(s@),
        decreases n - i,
    {
        if *cs.get(i).unwrap() == ':' {
            i = i + 1;
        } else {
            proof {
                lemma_seek_colon(s@, i as int);
            }
            let j = find_colon(s, &cs, i);
            if j >= n {
                proof {
                    assert(raw_tokens_from(s@, i as int) =~= Seq::<Seq<char>>::empty());
                    assert(out@.map_values(|t: String| t@) + raw_tokens_from(
                        s@,
                        n as int,
                    ).map_values(|t: Seq<char>| trim_spaces(t)) =~= source_refs(s@));
                }
                i = n;
            } else if j + 1 < n && char_is_digit(*cs.get(j + 1).unwrap()) {
                proof {
                    lemma_seek_nondigit(s@, j + 1 as int);
                }
                let k = find_nondigit(s, &cs, j + 1);
                let tok = trimmed_substring(s, &cs, i, k);
                proof {
                    let trim = |t: Seq<char>| trim_spaces(t);
                    let strview = |t: String| t@;
                    let raw_i = raw_tokens_from(s@, i as int);
                    let raw_k = raw_tokens_from(s@, k as int);
                    assert(raw_i == seq![s@.subrange(i as int, k as int)] + raw_k);
                    assert_seqs_equal!(
                        raw_i.map_values(trim)
                            == seq![trim_spaces(s@.subrange(i as int, k as int))]
                                + raw_k.map_values(trim)
                    );
                    assert_seqs_equal!(
                        out@.push(tok).map_values(strview)
                            == out@.map_values(strview).push(tok@)
                    );
                    assert_seqs_equal!(
                        out@.push(tok).map_values(strview) + raw_k.map_values(trim)
                            == out@.map_values(strview) + raw_i.map_values(trim)
                    );
                }
                out.push(tok);
                i = k;
            } else {
                i = j + 1;
            }
        }
    }
    proof {
        assert(raw_tokens_from(s@, n as int) =~= Seq::<Seq<char>>::empty());
        assert(out@.map_values(|t: String| t@) =~= out@.map_values(|t: String| t@)
            + raw_tokens_from(s@, n as int).map_values(|t: Seq<char>| trim_spaces(t)));
    }
    out
}

} // verus!
