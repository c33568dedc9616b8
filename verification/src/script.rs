//! Reading shell scripts as text: lines, trimming and whitespace-separated
//! tokens, with the meaning that Rust's `str::lines`, `str::trim` and
//! `str::split_whitespace` give them.
//!
//! Text is held as a vector of characters and a line or a token as a range of
//! positions in it, so that nothing is copied while a script is scanned.

use vstd::prelude::*;

verus! {

/// A character with the Unicode `White_Space` property, the set that
/// `char::is_whitespace` tests for.
pub open spec fn is_white_space(c: char) -> bool {
    ||| ('\u{9}' <= c && c <= '\u{d}')
    ||| c == ' '
    ||| c == '\u{85}'
    ||| c == '\u{a0}'
    ||| c == '\u{1680}'
    ||| ('\u{2000}' <= c && c <= '\u{200a}')
    ||| c == '\u{2028}'
    ||| c == '\u{2029}'
    ||| c == '\u{202f}'
    ||| c == '\u{205f}'
    ||| c == '\u{3000}'
}

/// Whether `c` is white space.
pub fn white_space(c: char) -> (r: bool)
    ensures
        r == is_white_space(c),
{
    ('\u{9}' <= c && c <= '\u{d}') || c == ' ' || c == '\u{85}' || c == '\u{a0}' || c == '\u{1680}'
        || ('\u{2000}' <= c && c <= '\u{200a}') || c == '\u{2028}' || c == '\u{2029}' || c
        == '\u{202f}' || c == '\u{205f}' || c == '\u{3000}'
}

/// `s` without its leading white space.
pub open spec fn trim_start(s: Seq<char>) -> Seq<char>
    decreases s.len(),
{
    if s.len() > 0 && is_white_space(s[0]) {
        trim_start(s.drop_first())
    } else {
        s
    }
}

/// `s` without its trailing white space.
pub open spec fn trim_end(s: Seq<char>) -> Seq<char>
    decreases s.len(),
{
    if s.len() > 0 && is_white_space(s.last()) {
        trim_end(s.drop_last())
    } else {
        s
    }
}

/// `s` without leading and trailing white space, as `str::trim` gives it.
pub open spec fn trim(s: Seq<char>) -> Seq<char> {
    trim_end(trim_start(s))
}

/// Trimming the start leaves no white space in front.
pub proof fn lemma_trim_start_front(s: Seq<char>)
    ensures
        trim_start(s).len() == 0 || !is_white_space(trim_start(s)[0]),
    decreases s.len(),
{
    if s.len() > 0 && is_white_space(s[0]) {
        lemma_trim_start_front(s.drop_first());
    }
}

/// Trimming the end keeps a prefix, and leaves no white space at the back.
pub proof fn lemma_trim_end_prefix(s: Seq<char>)
    ensures
        trim_end(s).len() <= s.len(),
        trim_end(s) == s.take(trim_end(s).len() as int),
        trim_end(s).len() == 0 || !is_white_space(trim_end(s).last()),
        s.len() > 0 && !is_white_space(s[0]) ==> trim_end(s).len() > 0,
    decreases s.len(),
{
    if s.len() > 0 && is_white_space(s.last()) {
        lemma_trim_end_prefix(s.drop_last());
        assert(s.drop_last().take(trim_end(s).len() as int) =~= s.take(trim_end(s).len() as int));
        if !is_white_space(s[0]) && s.len() == 1 {
            assert(s.last() == s[0]);
        }
        if s.len() > 1 {
            assert(s.drop_last()[0] == s[0]);
        }
    } else {
        assert(s.take(s.len() as int) =~= s);
    }
}

/// Trimming twice trims no more than trimming once.
pub proof fn law_trim_idempotent(s: Seq<char>)
    ensures
        trim(trim(s)) == trim(s),
{
    let u = trim_start(s);
    let t = trim_end(u);
    lemma_trim_start_front(s);
    lemma_trim_end_prefix(u);
    if t.len() > 0 {
        assert(t[0] == u[0]);
    }
    assert(trim_start(t) == t);
    lemma_trim_end_prefix(t);
    if t.len() > 0 {
        assert(trim_end(t) == t);
    }
}

/// The bounds of the trimmed text of `cs[lo..hi]`.
pub fn trim_range(cs: &Vec<char>, lo: usize, hi: usize) -> (r: (usize, usize))
    requires
        lo <= hi <= cs.len(),
    ensures
        lo <= r.0 <= r.1 <= hi,
        cs@.subrange(r.0 as int, r.1 as int) == trim(cs@.subrange(lo as int, hi as int)),
{
    let ghost s = cs@;
    let mut a = lo;
    while a < hi && white_space(cs[a])
        invariant
            lo <= a <= hi <= cs.len(),
            s == cs@,
            trim_start(s.subrange(lo as int, hi as int)) == trim_start(s.subrange(a as int, hi as int)),
        decreases hi - a,
    {
        assert(s.subrange(a as int, hi as int).drop_first() =~= s.subrange(a + 1, hi as int));
        a = a + 1;
    }
    assert(trim_start(s.subrange(a as int, hi as int)) == s.subrange(a as int, hi as int));
    let mut b = hi;
    while b > a && white_space(cs[b - 1])
        invariant
            lo <= a <= b <= hi <= cs.len(),
            s == cs@,
            trim_end(s.subrange(a as int, hi as int)) == trim_end(s.subrange(a as int, b as int)),
        decreases b - a,
    {
        assert(s.subrange(a as int, b as int).drop_last() =~= s.subrange(a as int, b - 1));
        b = b - 1;
    }
    assert(trim_end(s.subrange(a as int, b as int)) == s.subrange(a as int, b as int));
    (a, b)
}

/// The length of the first line of `s`: the position of its first `\n`, or
/// the length of `s` when it has none.
pub open spec fn line_end(s: Seq<char>) -> nat
    decreases s.len(),
{
    if s.len() == 0 || s[0] == '\n' {
        0
    } else {
        1 + line_end(s.drop_first())
    }
}

/// The first line ends within `s`.
pub proof fn lemma_line_end_bound(s: Seq<char>)
    ensures
        line_end(s) <= s.len(),
        line_end(s) < s.len() ==> s[line_end(s) as int] == '\n',
        forall|j: int| 0 <= j < line_end(s) ==> s[j] != '\n',
    decreases s.len(),
{
    if s.len() > 0 && s[0] != '\n' {
        lemma_line_end_bound(s.drop_first());
        assert forall|j: int| 0 <= j < line_end(s) implies s[j] != '\n' by {
            if j > 0 {
                assert(s.drop_first()[j - 1] == s[j]);
            }
        }
    }
}

/// A line whose first `m` characters are not `\n`, and that ends at `m`,
/// is `m` characters long.
pub proof fn lemma_line_end_at(s: Seq<char>, m: int)
    requires
        0 <= m <= s.len(),
        forall|j: int| 0 <= j < m ==> s[j] != '\n',
        m == s.len() || s[m] == '\n',
    ensures
        line_end(s) == m,
    decreases m,
{
    if m > 0 {
        assert forall|j: int| 0 <= j < m - 1 implies s.drop_first()[j] != '\n' by {
            assert(s[j + 1] != '\n');
        }
        lemma_line_end_at(s.drop_first(), m - 1);
    }
}

/// A line with the `\r` that precedes its `\n` removed.
pub open spec fn strip_cr(l: Seq<char>) -> Seq<char> {
    if l.len() > 0 && l.last() == '\r' {
        l.drop_last()
    } else {
        l
    }
}

/// The lines of `s`, as `str::lines` gives them: the text is cut after each
/// `\n`, the `\n` is dropped with a `\r` just before it, and a last line
/// without `\n` counts only when it is not empty.
pub open spec fn lines_of(s: Seq<char>) -> Seq<Seq<char>>
    decreases s.len(),
{
    if s.len() == 0 {
        Seq::empty()
    } else {
        let k = line_end(s);
        proof {
            lemma_line_end_bound(s);
        }
        if k < s.len() {
            seq![strip_cr(s.take(k as int))] + lines_of(s.skip(k as int + 1))
        } else {
            seq![s]
        }
    }
}

/// A run of characters that are not white space, at the start of `s`: the
/// length of the first word.
pub open spec fn word_len(s: Seq<char>) -> nat
    decreases s.len(),
{
    if s.len() == 0 || is_white_space(s[0]) {
        0
    } else {
        1 + word_len(s.drop_first())
    }
}

/// The first word of `s` is a prefix of it.
pub proof fn lemma_word_len_bound(s: Seq<char>)
    ensures
        word_len(s) <= s.len(),
    decreases s.len(),
{
    if s.len() > 0 && !is_white_space(s[0]) {
        lemma_word_len_bound(s.drop_first());
    }
}

/// A word that runs for `m` characters and stops at white space or the end
/// is `m` characters long.
pub proof fn lemma_word_len_at(s: Seq<char>, m: int)
    requires
        0 <= m <= s.len(),
        forall|j: int| 0 <= j < m ==> !is_white_space(#[trigger] s[j]),
        m == s.len() || is_white_space(s[m]),
    ensures
        word_len(s) == m,
    decreases m,
{
    if m > 0 {
        assert forall|j: int| 0 <= j < m - 1 implies !is_white_space(#[trigger] s.drop_first()[j]) by {
            assert(!is_white_space(s[j + 1]));
        }
        lemma_word_len_at(s.drop_first(), m - 1);
    }
}

/// The words of `s`, as `str::split_whitespace` gives them: the maximal runs
/// of characters that are not white space, in order.
pub open spec fn tokens(s: Seq<char>) -> Seq<Seq<char>>
    decreases s.len(),
{
    if s.len() == 0 {
        Seq::empty()
    } else if is_white_space(s[0]) {
        tokens(s.drop_first())
    } else {
        let w = word_len(s);
        proof {
            lemma_word_len_bound(s);
        }
        seq![s.take(w as int)] + tokens(s.skip(w as int))
    }
}

/// The texts of position ranges of `s`.
pub open spec fn range_texts(s: Seq<char>, ranges: Seq<(usize, usize)>) -> Seq<Seq<char>> {
    ranges.map_values(|r: (usize, usize)| s.subrange(r.0 as int, r.1 as int))
}

/// The words of `cs[lo..hi]`, as ranges of positions in `cs`.
pub fn token_ranges(cs: &Vec<char>, lo: usize, hi: usize) -> (r: Vec<(usize, usize)>)
    requires
        lo <= hi <= cs.len(),
    ensures
        range_texts(cs@, r@) == tokens(cs@.subrange(lo as int, hi as int)),
        forall|k: int| 0 <= k < r@.len() ==> lo <= (#[trigger] r@[k]).0 <= r@[k].1 <= hi,
{
    let ghost s = cs@;
    let mut out: Vec<(usize, usize)> = Vec::new();
    let mut i = lo;
    while i < hi
        invariant
            lo <= i <= hi <= cs.len(),
            s == cs@,
            tokens(s.subrange(lo as int, hi as int)) == range_texts(s, out@) + tokens(
                s.subrange(i as int, hi as int),
            ),
            forall|k: int| 0 <= k < out@.len() ==> lo <= (#[trigger] out@[k]).0 <= out@[k].1 <= hi,
        decreases hi - i,
    {
        let ghost t = s.subrange(i as int, hi as int);
        if white_space(cs[i]) {
            assert(t.drop_first() =~= s.subrange(i + 1, hi as int));
            i = i + 1;
        } else {
            let mut j = i;
            while j < hi && !white_space(cs[j])
                invariant
                    i <= j <= hi <= cs.len(),
                    s == cs@,
                    t == s.subrange(i as int, hi as int),
                    forall|m: int| 0 <= m < j - i ==> !is_white_space(#[trigger] t[m]),
                decreases hi - j,
            {
                j = j + 1;
            }
            proof {
                lemma_word_len_at(t, j - i);
                assert(t.take(j - i) =~= s.subrange(i as int, j as int));
                assert(t.skip(j - i) =~= s.subrange(j as int, hi as int));
                assert(range_texts(s, out@.push((i, j))) =~= range_texts(s, out@).push(
                    s.subrange(i as int, j as int),
                ));
            }
            out.push((i, j));
            i = j;
        }
    }
    assert(tokens(s.subrange(hi as int, hi as int)) =~= Seq::<Seq<char>>::empty()) by {
        assert(s.subrange(hi as int, hi as int).len() == 0);
    }
    out
}

/// The lines of `cs`, as ranges of positions in it.
pub fn line_ranges(cs: &Vec<char>) -> (r: Vec<(usize, usize)>)
    ensures
        range_texts(cs@, r@) == lines_of(cs@),
        forall|k: int| 0 <= k < r@.len() ==> (#[trigger] r@[k]).0 <= r@[k].1 <= cs.len(),
{
    let ghost s = cs@;
    let n = cs.len();
    let mut out: Vec<(usize, usize)> = Vec::new();
    let mut start: usize = 0;
    assert(s.skip(0) =~= s);
    assert(range_texts(s, out@) =~= Seq::<Seq<char>>::empty());
    while start < n
        invariant
            start <= n == cs.len(),
            s == cs@,
            lines_of(s) == range_texts(s, out@) + lines_of(s.skip(start as int)),
            forall|k: int| 0 <= k < out@.len() ==> (#[trigger] out@[k]).0 <= out@[k].1 <= n,
        decreases n - start,
    {
        let ghost t = s.skip(start as int);
        let mut e = start;
        while e < n && cs[e] != '\n'
            invariant
                start <= e <= n == cs.len(),
                s == cs@,
                t == s.skip(start as int),
                forall|j: int| 0 <= j < e - start ==> t[j] != '\n',
            decreases n - e,
        {
            e = e + 1;
        }
        proof {
            lemma_line_end_at(t, e - start);
        }
        if e < n {
            let b = if e > start && cs[e - 1] == '\r' { e - 1 } else { e };
            proof {
                assert(t.take(e - start) =~= s.subrange(start as int, e as int));
                assert(strip_cr(t.take(e - start)) =~= s.subrange(start as int, b as int));
                assert(t.skip(e - start + 1) =~= s.skip(e + 1));
                assert(range_texts(s, out@.push((start, b))) =~= range_texts(s, out@).push(
                    s.subrange(start as int, b as int),
                ));
            }
            out.push((start, b));
            start = e + 1;
        } else {
            proof {
                assert(t =~= s.subrange(start as int, n as int));
                assert(range_texts(s, out@.push((start, n))) =~= range_texts(s, out@).push(
                    s.subrange(start as int, n as int),
                ));
                assert(s.skip(n as int) =~= Seq::<char>::empty());
            }
            out.push((start, n));
            start = n;
        }
    }
    proof {
        assert(s.skip(n as int) =~= Seq::<char>::empty());
    }
    out
}

} // verus!
