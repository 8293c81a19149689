//! Cleaning a user-supplied file stem so that it can name a stored sound on
//! any platform.

use vstd::prelude::*;
use crate::text::{is_control_char, is_whitespace_char, char_is_control, char_is_whitespace, push_char};

verus! {

/// Longest stem, in characters, that is kept after cleaning.
pub const MAX_STEM_CHARS: usize = 48;

/// Characters that no platform accepts inside a file name.
pub open spec fn is_forbidden_name_char(c: char) -> bool {
    c == '/' || c == '\\' || c == ':' || c == '*' || c == '?' || c == '"' || c == '<' || c == '>'
        || c == '|'
}

/// A character that survives cleaning: neither a control character nor forbidden.
pub open spec fn keeps_in_stem(c: char) -> bool {
    !is_control_char(c) && !is_forbidden_name_char(c)
}

/// The characters of `s` that survive cleaning, in order.
pub open spec fn kept_chars(s: Seq<char>) -> Seq<char>
    decreases s.len(),
{
    if s.len() == 0 {
        seq![]
    } else {
        let k = kept_chars(s.drop_last());
        if keeps_in_stem(s.last()) {
            k.push(s.last())
        } else {
            k
        }
    }
}

/// The first `n` items of `s` (all of them when `s` is shorter).
pub open spec fn clip(s: Seq<char>, n: nat) -> Seq<char> {
    if s.len() <= n {
        s
    } else {
        s.take(n as int)
    }
}

/// The class of characters a trimming pass removes: `'.'` when `dots`,
/// white space otherwise.
pub open spec fn trimmed_class(c: char, dots: bool) -> bool {
    if dots {
        c == '.'
    } else {
        is_whitespace_char(c)
    }
}

/// `s` without its leading characters of the class.
pub open spec fn trim_start(s: Seq<char>, dots: bool) -> Seq<char>
    decreases s.len(),
{
    if s.len() > 0 && trimmed_class(s[0], dots) {
        trim_start(s.drop_first(), dots)
    } else {
        s
    }
}

/// `s` without its trailing characters of the class.
pub open spec fn trim_end(s: Seq<char>, dots: bool) -> Seq<char>
    decreases s.len(),
{
    if s.len() > 0 && trimmed_class(s.last(), dots) {
        trim_end(s.drop_last(), dots)
    } else {
        s
    }
}

/// `s` without leading and trailing characters of the class
/// (`str::trim` for white space, `str::trim_matches('.')` for dots).
pub open spec fn trim_both(s: Seq<char>, dots: bool) -> Seq<char> {
    trim_end(trim_start(s, dots), dots)
}

/// The stem a sound file is stored under, before the fallback name applies.
pub open spec fn trimmed_stem(stem: Seq<char>) -> Seq<char> {
    let cleaned = clip(kept_chars(stem), MAX_STEM_CHARS as nat);
    trim_both(trim_both(trim_both(cleaned, false), true), false)
}

/// The name used when nothing of the stem survives cleaning.
pub open spec fn fallback_stem() -> Seq<char> {
    "提示音"@
}

/// The stem a sound file is stored under.
pub open spec fn sanitized_stem(stem: Seq<char>) -> Seq<char> {
    let t = trimmed_stem(stem);
    if t.len() == 0 {
        fallback_stem()
    } else {
        t
    }
}

fn char_is_forbidden(c: char) -> (r: bool)
    ensures
        r == is_forbidden_name_char(c),
{
    c == '/' || c == '\\' || c == ':' || c == '*' || c == '?' || c == '"' || c == '<' || c == '>'
        || c == '|'
}

fn in_trimmed_class(c: char, dots: bool) -> (r: bool)
    ensures
        r == trimmed_class(c, dots),
{
    if dots {
        c == '.'
    } else {
        char_is_whitespace(c)
    }
}

proof fn lemma_trim_start_step(s: Seq<char>, i: int, dots: bool)
    requires
        0 <= i < s.len(),
        trimmed_class(s[i], dots),
    ensures
        trim_start(s.subrange(i, s.len() as int), dots) == trim_start(
            s.subrange(i + 1, s.len() as int),
            dots,
        ),
{
    assert(s.subrange(i, s.len() as int).drop_first() =~= s.subrange(i + 1, s.len() as int));
}

proof fn lemma_trim_end_step(s: Seq<char>, i: int, j: int, dots: bool)
    requires
        0 <= i < j <= s.len(),
        trimmed_class(s[j - 1], dots),
    ensures
        trim_end(s.subrange(i, j), dots) == trim_end(s.subrange(i, j - 1), dots),
{
    assert(s.subrange(i, j).drop_last() =~= s.subrange(i, j - 1));
}

/// Narrows `lo..hi` of `v` to the part that trimming the class leaves.
fn trim_range(v: &Vec<char>, lo: usize, hi: usize, dots: bool) -> (r: (usize, usize))
    requires
        lo <= hi <= v.len(),
    ensures
        lo <= r.0 <= r.1 <= hi,
        v@.subrange(r.0 as int, r.1 as int) == trim_both(v@.subrange(lo as int, hi as int), dots),
{
    let ghost s = v@.subrange(lo as int, hi as int);
    let mut i: usize = lo;
    while i < hi && in_trimmed_class(v[i], dots)
        invariant
            lo <= i <= hi <= v.len(),
            s == v@.subrange(lo as int, hi as int),
            trim_start(s, dots) == trim_start(v@.subrange(i as int, hi as int), dots),
        decreases hi - i,
    {
        proof {
            let w = v@.subrange(0, hi as int);
            lemma_trim_start_step(w, i as int, dots);
            assert(w.subrange(i as int, hi as int) =~= v@.subrange(i as int, hi as int));
            assert(w.subrange(i + 1, hi as int) =~= v@.subrange(i + 1, hi as int));
        }
        i = i + 1;
    }
    assert(trim_start(v@.subrange(i as int, hi as int), dots) == v@.subrange(i as int, hi as int));
    let mut j: usize = hi;
    while j > i && in_trimmed_class(v[j - 1], dots)
        invariant
            lo <= i <= j <= hi <= v.len(),
            trim_both(s, dots) == trim_end(v@.subrange(i as int, j as int), dots),
        decreases j - i,
    {
        proof {
            lemma_trim_end_step(v@, i as int, j as int, dots);
        }
        j = j - 1;
    }
    (i, j)
}

/// Removes every character that is illegal in a file name on some platform,
/// keeps at most [`MAX_STEM_CHARS`] characters, trims white space and dots at
/// both ends, and falls back to a fixed name when nothing is left.
pub fn sanitize_stem(stem: &str) -> (r: String)
    ensures
        r@ == sanitized_stem(stem@),
{
    let mut cleaned: Vec<char> = Vec::new();
    for c in it: stem.chars()
        invariant
            it.seq() == stem@,
            cleaned@ == clip(kept_chars(stem@.take(it.index() as int)), MAX_STEM_CHARS as nat),
    {
        let ghost i = it.index() as int;
        let ghost k = kept_chars(stem@.take(i));
        proof {
            assert(stem@.take(i + 1).drop_last() =~= stem@.take(i));
            assert(stem@.take(i + 1).last() == c);
        }
        if !char_is_control(c) && !char_is_forbidden(c) {
            if cleaned.len() < MAX_STEM_CHARS {
                cleaned.push(c);
                assert(cleaned@ =~= clip(k.push(c), MAX_STEM_CHARS as nat));
            } else {
                assert(clip(k.push(c), MAX_STEM_CHARS as nat) =~= clip(k, MAX_STEM_CHARS as nat));
            }
        }
    }
    assert(stem@.take(stem@.len() as int) =~= stem@);
    let n = cleaned.len();
    assert(cleaned@.subrange(0, n as int) =~= cleaned@);
    let (a1, b1) = trim_range(&cleaned, 0, n, false);
    let (a2, b2) = trim_range(&cleaned, a1, b1, true);
    let (a3, b3) = trim_range(&cleaned, a2, b2, false);
    if a3 == b3 {
        return String::from_str("提示音");
    }
    let mut out = String::new();
    let mut k: usize = a3;
    while k < b3
        invariant
            a3 <= k <= b3 <= cleaned.len(),
            out@ == cleaned@.subrange(a3 as int, k as int),
        decreases b3 - k,
    {
        push_char(&mut out, cleaned[k]);
        assert(out@ =~= cleaned@.subrange(a3 as int, k + 1));
        k = k + 1;
    }
    out
}


proof fn lemma_kept_chars(s: Seq<char>)
    ensures
        kept_chars(s).len() <= s.len(),
        forall|i: int| 0 <= i < kept_chars(s).len() ==> keeps_in_stem(#[trigger] kept_chars(s)[i]),
        (forall|i: int| 0 <= i < s.len() ==> keeps_in_stem(#[trigger] s[i])) ==> kept_chars(s)
            == s,
    decreases s.len(),
{
    if s.len() > 0 {
        lemma_kept_chars(s.drop_last());
        if forall|i: int| 0 <= i < s.len() ==> keeps_in_stem(#[trigger] s[i]) {
            assert(forall|i: int|
                0 <= i < s.drop_last().len() ==> keeps_in_stem(#[trigger] s.drop_last()[i])
                    && s.drop_last()[i] == s[i]);
            assert(keeps_in_stem(s[s.len() - 1]));
            assert(s.drop_last().push(s.last()) =~= s);
        }
    }
}

proof fn lemma_trim_start(s: Seq<char>, dots: bool)
    ensures
        trim_start(s, dots).len() <= s.len(),
        trim_start(s, dots) == s.skip(s.len() - trim_start(s, dots).len()),
        trim_start(s, dots).len() > 0 ==> !trimmed_class(trim_start(s, dots)[0], dots),
        s.len() > 0 && !trimmed_class(s[0], dots) ==> trim_start(s, dots) == s,
    decreases s.len(),
{
    if s.len() > 0 && trimmed_class(s[0], dots) {
        lemma_trim_start(s.drop_first(), dots);
        let t = trim_start(s, dots);
        assert(s.drop_first().skip(s.drop_first().len() - t.len()) =~= s.skip(s.len() - t.len()));
    } else {
        assert(s.skip(0) =~= s);
    }
}

proof fn lemma_trim_end(s: Seq<char>, dots: bool)
    ensures
        trim_end(s, dots).len() <= s.len(),
        trim_end(s, dots) == s.take(trim_end(s, dots).len() as int),
        trim_end(s, dots).len() > 0 ==> !trimmed_class(trim_end(s, dots).last(), dots),
        s.len() > 0 && !trimmed_class(s.last(), dots) ==> trim_end(s, dots) == s,
    decreases s.len(),
{
    if s.len() > 0 && trimmed_class(s.last(), dots) {
        lemma_trim_end(s.drop_last(), dots);
        let t = trim_end(s, dots);
        assert(s.drop_last().take(t.len() as int) =~= s.take(t.len() as int));
    } else {
        assert(s.take(s.len() as int) =~= s);
    }
}

/// What a trimming pass leaves is a contiguous part of its input whose ends
/// are outside the trimmed class.
proof fn lemma_trim_both(s: Seq<char>, dots: bool)
    ensures
        ({
            let t = trim_both(s, dots);
            &&& t.len() <= s.len()
            &&& (forall|i: int| 0 <= i < s.len() ==> keeps_in_stem(#[trigger] s[i])) ==> (forall|
                i: int,
            | 0 <= i < t.len() ==> keeps_in_stem(#[trigger] t[i]))
            &&& t.len() > 0 ==> !trimmed_class(t[0], dots) && !trimmed_class(t.last(), dots)
        }),
{
    lemma_trim_start(s, dots);
    let u = trim_start(s, dots);
    lemma_trim_end(u, dots);
    let t = trim_end(u, dots);
    let off = s.len() - u.len();
    assert forall|i: int| 0 <= i < t.len() implies #[trigger] t[i] == s[off + i] by {
        assert(t[i] == u.take(t.len() as int)[i]);
        assert(u[i] == s.skip(off)[i]);
    }
    if t.len() > 0 {
        assert(t[0] == u.take(t.len() as int)[0]);
    }
}

proof fn lemma_fallback_stem()
    ensures
        fallback_stem().len() == 3,
        forall|i: int| 0 <= i < fallback_stem().len() ==> keeps_in_stem(#[trigger] fallback_stem()[i]),
        !is_whitespace_char(fallback_stem()[0]),
        !is_whitespace_char(fallback_stem().last()),
{
    reveal_strlit("提示音");
}

/// A stored stem is never empty, holds at most [`MAX_STEM_CHARS`] characters,
/// none of them a control character or one that is forbidden in file names,
/// and neither begins nor ends with white space.
pub proof fn sanitized_stem_is_a_valid_name(stem: Seq<char>)
    ensures
        ({
            let r = sanitized_stem(stem);
            &&& 0 < r.len() <= MAX_STEM_CHARS
            &&& forall|i: int| 0 <= i < r.len() ==> keeps_in_stem(#[trigger] r[i])
            &&& !is_whitespace_char(r[0])
            &&& !is_whitespace_char(r.last())
        }),
{
    lemma_fallback_stem();
    lemma_kept_chars(stem);
    let k = kept_chars(stem);
    let c = clip(k, MAX_STEM_CHARS as nat);
    assert(forall|i: int| 0 <= i < c.len() ==> keeps_in_stem(#[trigger] c[i])) by {
        assert forall|i: int| 0 <= i < c.len() implies keeps_in_stem(#[trigger] c[i]) by {
            assert(c[i] == k[i]);
        }
    }
    let t1 = trim_both(c, false);
    lemma_trim_both(c, false);
    let t2 = trim_both(t1, true);
    lemma_trim_both(t1, true);
    lemma_trim_both(t2, false);
}

/// A stem that is already a valid name (non-empty, at most
/// [`MAX_STEM_CHARS`] kept characters, no white space or dot at either end)
/// is stored unchanged.
pub proof fn sanitized_stem_keeps_clean_stems(stem: Seq<char>)
    requires
        0 < stem.len() <= MAX_STEM_CHARS,
        forall|i: int| 0 <= i < stem.len() ==> keeps_in_stem(#[trigger] stem[i]),
        !is_whitespace_char(stem[0]) && stem[0] != '.',
        !is_whitespace_char(stem.last()) && stem.last() != '.',
    ensures
        sanitized_stem(stem) == stem,
{
    lemma_kept_chars(stem);
    lemma_trim_start(stem, false);
    lemma_trim_end(stem, false);
    lemma_trim_start(stem, true);
    lemma_trim_end(stem, true);
}

} // verus!
