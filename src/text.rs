//! Character-level text helpers: whitespace, word splitting, joining.
use vstd::prelude::*;

verus! {

/// Unicode `White_Space`, as `char::is_whitespace` decides it.
pub open spec fn is_ws(c: char) -> bool {
    c == ' ' || ('\t' <= c && c <= '\r') || c == '\u{85}' || c == '\u{A0}' || c == '\u{1680}'
        || ('\u{2000}' <= c && c <= '\u{200A}') || c == '\u{2028}' || c == '\u{2029}'
        || c == '\u{202F}' || c == '\u{205F}' || c == '\u{3000}'
}

pub fn is_whitespace_char(c: char) -> (r: bool)
    ensures
        r == is_ws(c),
{
    c == ' ' || ('\t' <= c && c <= '\r') || c == '\u{85}' || c == '\u{A0}' || c == '\u{1680}'
        || ('\u{2000}' <= c && c <= '\u{200A}') || c == '\u{2028}' || c == '\u{2029}'
        || c == '\u{202F}' || c == '\u{205F}' || c == '\u{3000}'
}

/// A word starts at `i`: a non-whitespace char at the start or after whitespace.
pub open spec fn starts_word(s: Seq<char>, i: int) -> bool {
    &&& 0 <= i < s.len()
    &&& !is_ws(s[i])
    &&& (i == 0 || is_ws(s[i - 1]))
}

/// Number of whitespace-separated words.
pub open spec fn word_count(s: Seq<char>) -> nat
    decreases s.len(),
{
    if s.len() == 0 {
        0
    } else {
        word_count(s.drop_last()) + if starts_word(s, s.len() - 1) {
            1nat
        } else {
            0nat
        }
    }
}

proof fn lemma_word_count_step(s: Seq<char>, i: int)
    requires
        0 <= i < s.len(),
    ensures
        word_count(s.subrange(0, i + 1)) == word_count(s.subrange(0, i)) + if starts_word(s, i) {
            1nat
        } else {
            0nat
        },
{
    let t = s.subrange(0, i + 1);
    assert(t.drop_last() =~= s.subrange(0, i));
    assert(starts_word(t, i) == starts_word(s, i));
}

/// Counts whitespace-separated words.
pub fn count_words(text: &str) -> (r: usize)
    ensures
        r == word_count(text@),
{
    let n = text.unicode_len();
    let mut count: usize = 0;
    let mut prev_ws = true;
    let mut i: usize = 0;
    while i < n
        invariant
            n == text@.len(),
            i <= n,
            count == word_count(text@.subrange(0, i as int)),
            count <= i,
            i > 0 ==> prev_ws == is_ws(text@[i - 1]),
            i == 0 ==> prev_ws,
        decreases n - i,
    {
        let c = text.get_char(i);
        let ws = is_whitespace_char(c);
        proof {
            lemma_word_count_step(text@, i as int);
        }
        if !ws && prev_ws {
            count = count + 1;
        }
        prev_ws = ws;
        i = i + 1;
    }
    assert(text@.subrange(0, n as int) =~= text@);
    count
}

/// The words of `s`, in order: maximal runs of non-whitespace characters.
pub open spec fn words_of(s: Seq<char>) -> Seq<Seq<char>>
    decreases s.len(),
{
    words_from(s, 0, 0)
}

/// Words of `s[start..]`, where `s[from..start]` is the pending partial word.
pub open spec fn words_from(s: Seq<char>, from: int, start: int) -> Seq<Seq<char>>
    decreases s.len() - start,
{
    if start >= s.len() || start < 0 || from < 0 || from > start {
        if 0 <= from < start <= s.len() {
            seq![s.subrange(from, start)]
        } else {
            seq![]
        }
    } else if is_ws(s[start]) {
        let rest = words_from(s, start + 1, start + 1);
        if from < start {
            seq![s.subrange(from, start)] + rest
        } else {
            rest
        }
    } else {
        words_from(s, from, start + 1)
    }
}

/// Splits on whitespace, dropping empty pieces.
pub fn split_words(text: &str) -> (r: Vec<String>)
    ensures
        r@.map_values(|w: String| w@) == words_of(text@),
{
    let n = text.unicode_len();
    let mut out: Vec<String> = Vec::new();
    let mut from: usize = 0;
    let mut i: usize = 0;
    while i < n
        invariant
            n == text@.len(),
            from <= i <= n,
            out@.map_values(|w: String| w@) + words_from(text@, from as int, i as int) == words_of(
                text@,
            ),
        decreases n - i,
    {
        let c = text.get_char(i);
        if is_whitespace_char(c) {
            if from < i {
                let w = text.substring_char(from, i);
                let ws = String::from_str(w);
                let ghost old_out = out@;
                out.push(ws);
                assert(out@.map_values(|w: String| w@) =~= old_out.map_values(|w: String| w@).push(
                    text@.subrange(from as int, i as int),
                ));
            }
            from = i + 1;
        }
        i = i + 1;
    }
    if from < n {
        let w = text.substring_char(from, n);
        let ws = String::from_str(w);
        let ghost old_out = out@;
        out.push(ws);
        assert(out@.map_values(|w: String| w@) =~= old_out.map_values(|w: String| w@).push(
            text@.subrange(from as int, n as int),
        ));
    }
    assert(out@.map_values(|w: String| w@) =~= words_of(text@)) by {
        let ws = words_from(text@, from as int, n as int);
        if from < n {
            assert(ws == seq![text@.subrange(from as int, n as int)]);
        } else {
            assert(ws =~= seq![]);
        }
    }
    out
}

/// The pieces of `parts`, each followed by `sep` but the last.
pub open spec fn join_spec(parts: Seq<Seq<char>>, sep: Seq<char>) -> Seq<char>
    decreases parts.len(),
{
    if parts.len() == 0 {
        seq![]
    } else if parts.len() == 1 {
        parts[0]
    } else {
        join_spec(parts.drop_last(), sep) + sep + parts.last()
    }
}

/// Joins `parts` with `sep` between consecutive pieces.
pub fn join_strings(parts: &Vec<String>, sep: &str) -> (r: String)
    ensures
        r@ == join_spec(parts@.map_values(|p: String| p@), sep@),
{
    let mut out = String::new();
    let mut i: usize = 0;
    while i < parts.len()
        invariant
            i <= parts@.len(),
            out@ == join_spec(parts@.subrange(0, i as int).map_values(|p: String| p@), sep@),
        decreases parts@.len() - i,
    {
        let ghost pre = parts@.subrange(0, i as int).map_values(|p: String| p@);
        let ghost post = parts@.subrange(0, i as int + 1).map_values(|p: String| p@);
        assert(post.drop_last() =~= pre);
        if i > 0 {
            out.append(sep);
        }
        out.append(parts[i].as_str());
        proof {
            if i == 0 {
                assert(out@ =~= post[0]);
            } else {
                assert(out@ =~= join_spec(pre, sep@) + sep@ + post.last());
            }
        }
        i = i + 1;
    }
    assert(parts@.subrange(0, parts@.len() as int) =~= parts@);
    out
}

/// Relies on `str::to_lowercase`: the result depends on the characters alone.
#[verifier::external_body]
pub(crate) fn lowercase(s: &str) -> (r: String)
    ensures
        r@ == lower_of(s@),
{
    s.to_lowercase()
}

/// What `str::to_lowercase` returns for the given characters.
pub uninterp spec fn lower_of(s: Seq<char>) -> Seq<char>;

/// Copies a string.
pub fn copy_str(s: &String) -> (r: String)
    ensures
        r@ == s@,
{
    String::from_str(s.as_str())
}

/// Equality of two strings by their characters.
pub fn str_eq(a: &str, b: &str) -> (r: bool)
    ensures
        r == (a@ == b@),
{
    let n = a.unicode_len();
    let m = b.unicode_len();
    if n != m {
        return false;
    }
    let mut i: usize = 0;
    while i < n
        invariant
            n == a@.len(),
            m == b@.len(),
            n == m,
            i <= n,
            a@.subrange(0, i as int) == b@.subrange(0, i as int),
        decreases n - i,
    {
        if a.get_char(i) != b.get_char(i) {
            assert(a@[i as int] != b@[i as int]);
            return false;
        }
        assert(a@.subrange(0, i + 1) =~= a@.subrange(0, i as int).push(a@[i as int]));
        assert(b@.subrange(0, i + 1) =~= b@.subrange(0, i as int).push(b@[i as int]));
        i = i + 1;
    }
    assert(a@ =~= a@.subrange(0, n as int));
    assert(b@ =~= b@.subrange(0, n as int));
    true
}

/// `s` ends with `suffix`.
pub fn ends_with_str(s: &str, suffix: &str) -> (r: bool)
    ensures
        r == (suffix@.len() <= s@.len() && s@.subrange(s@.len() - suffix@.len(), s@.len() as int)
            == suffix@),
{
    let n = s.unicode_len();
    let m = suffix.unicode_len();
    if m > n {
        return false;
    }
    let tail = s.substring_char(n - m, n);
    str_eq(tail, suffix)
}

} // verus!
