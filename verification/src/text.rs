//! Character-level helpers shared by the modules that build and inspect text.

use vstd::prelude::*;
use vstd::string::*;

verus! {

/// The characters of `s`, in order.
pub fn to_chars(s: &str) -> (v: Vec<char>)
    ensures
        v@ == s@,
{
    let mut v: Vec<char> = Vec::new();
    for c in it: s.chars()
        invariant
            v@ == it.seq().take(it.index() as int),
            it.seq() == s@,
    {
        v.push(c);
    }
    v
}

/// Whether two strings hold the same characters.
pub fn str_eq(a: &str, b: &str) -> (r: bool)
    ensures
        r == (a@ == b@),
{
    let x = a.to_owned();
    let y = b.to_owned();
    x == y
}

/// `a` followed by `b`, as a new string.
pub fn concat2(a: &str, b: &str) -> (r: String)
    ensures
        r@ == a@ + b@,
{
    let mut r = String::from_str(a);
    r.append(b);
    r
}

/// `a`, `b` and `c` joined, as a new string.
pub fn concat3(a: &str, b: &str, c: &str) -> (r: String)
    ensures
        r@ == a@ + b@ + c@,
{
    let mut r = String::from_str(a);
    r.append(b);
    r.append(c);
    r
}

/// Appends one character.
#[verifier::external_body]
pub fn push_char(s: &mut String, c: char)
    ensures
        final(s)@ == old(s)@.push(c),
{
    s.push(c);
}

/// `n` spaces.
pub open spec fn spaces(n: nat) -> Seq<char> {
    Seq::new(n, |i: int| ' ')
}

/// The decimal digit for `d`, which is below ten.
pub open spec fn digit_char(d: nat) -> char {
    if d == 0 { '0' } else if d == 1 { '1' } else if d == 2 { '2' } else if d == 3 { '3' }
    else if d == 4 { '4' } else if d == 5 { '5' } else if d == 6 { '6' } else if d == 7 { '7' }
    else if d == 8 { '8' } else { '9' }
}

/// The decimal numeral of `n`, without leading zeros.
pub open spec fn decimal(n: nat) -> Seq<char>
    decreases n,
{
    if n < 10 {
        seq![digit_char(n)]
    } else {
        decimal(n / 10).push(digit_char(n % 10))
    }
}

fn digit(d: u64) -> (c: char)
    requires
        d < 10,
    ensures
        c == digit_char(d as nat),
{
    if d == 0 { '0' } else if d == 1 { '1' } else if d == 2 { '2' } else if d == 3 { '3' }
    else if d == 4 { '4' } else if d == 5 { '5' } else if d == 6 { '6' } else if d == 7 { '7' }
    else if d == 8 { '8' } else { '9' }
}

/// Appends the decimal numeral of `n`.
pub fn push_decimal(out: &mut String, n: u128)
    ensures
        final(out)@ == old(out)@ + decimal(n as nat),
    decreases n,
{
    if n >= 10 {
        push_decimal(out, n / 10);
    }
    push_char(out, digit((n % 10) as u64));
}

/// The decimal numeral of `n`, with a minus sign in front when it is negative.
pub open spec fn signed_decimal(n: int) -> Seq<char> {
    if n < 0 {
        seq!['-'] + decimal((-n) as nat)
    } else {
        decimal(n as nat)
    }
}

/// Appends the decimal numeral of a signed integer.
pub fn push_signed(out: &mut String, n: i64)
    ensures
        final(out)@ == old(out)@ + signed_decimal(n as int),
{
    if n < 0 {
        push_char(out, '-');
        let m: i128 = -(n as i128);
        push_decimal(out, m as u128);
        assert(out@ =~= old(out)@ + signed_decimal(n as int));
    } else {
        push_decimal(out, n as u128);
    }
}

/// Joins `parts` with `sep` between consecutive parts.
pub open spec fn join(parts: Seq<Seq<char>>, sep: Seq<char>) -> Seq<char>
    decreases parts.len(),
{
    if parts.len() == 0 {
        Seq::empty()
    } else if parts.len() == 1 {
        parts[0]
    } else {
        join(parts.drop_last(), sep) + sep + parts.last()
    }
}

/// Joining one more part adds the separator and the part, unless it is the
/// first part.
pub proof fn lemma_join_push(parts: Seq<Seq<char>>, sep: Seq<char>, x: Seq<char>)
    ensures
        join(parts.push(x), sep) == if parts.len() == 0 { x } else { join(parts, sep) + sep + x },
{
    assert(parts.push(x).drop_last() =~= parts);
}

/// Joins strings with a separator.
pub fn join_strings(parts: &Vec<String>, sep: &str) -> (r: String)
    ensures
        r@ == join(parts@.map_values(|s: String| s@), sep@),
{
    let ghost views = parts@.map_values(|s: String| s@);
    let mut out = String::new();
    for i in 0..parts.len()
        invariant
            views == parts@.map_values(|s: String| s@),
            out@ == join(views.take(i as int), sep@),
    {
        proof {
            lemma_join_push(views.take(i as int), sep@, views[i as int]);
            assert(views.take(i as int).push(views[i as int]) =~= views.take(i + 1));
        }
        if i > 0 {
            out.append(sep);
        }
        out.append(parts[i].as_str());
    }
    proof {
        assert(views.take(parts@.len() as int) =~= views);
    }
    out
}

/// Whether `s` is one of `items`.
pub fn contains_string(items: &[String], s: &str) -> (r: bool)
    ensures
        r == items@.map_values(|x: String| x@).contains(s@),
{
    let mut i: usize = 0;
    while i < items.len()
        invariant
            i <= items@.len(),
            forall|j: int| 0 <= j < i ==> items@[j]@ != s@,
        decreases items@.len() - i,
    {
        if str_eq(items[i].as_str(), s) {
            proof {
                assert(items@.map_values(|x: String| x@)[i as int] == s@);
            }
            return true;
        }
        i = i + 1;
    }
    proof {
        let v = items@.map_values(|x: String| x@);
        if v.contains(s@) {
            let j = choose|j: int| 0 <= j < v.len() && #[trigger] v[j] == s@;
            assert(items@[j]@ == s@);
        }
    }
    false
}

} // verus!

verus! {

/// Whether `c` is one of the ASCII digits `0` to `9`.
pub open spec fn is_ascii_digit(c: char) -> bool {
    '0' <= c && c <= '9'
}

/// The value of an ASCII digit.
pub open spec fn digit_value(c: char) -> nat {
    (c as int - '0' as int) as nat
}

/// Whether every character of `d` is an ASCII digit.
pub open spec fn all_digits(d: Seq<char>) -> bool {
    forall|i: int| 0 <= i < d.len() ==> is_ascii_digit(#[trigger] d[i])
}

/// The number a string of decimal digits denotes.
pub open spec fn digits_value(d: Seq<char>) -> nat
    decreases d.len(),
{
    if d.len() == 0 {
        0
    } else {
        digits_value(d.drop_last()) * 10 + digit_value(d.last())
    }
}

/// The number `str::parse` reads from `t` for an unsigned integer type whose
/// largest value is `max`: an optional `+` and then one or more decimal
/// digits, whose value is at most `max`. `None` for anything else.
pub open spec fn parsed_unsigned(t: Seq<char>, max: nat) -> Option<nat> {
    let d = if t.len() > 0 && t[0] == '+' { t.drop_first() } else { t };
    if d.len() == 0 || !all_digits(d) || digits_value(d) > max {
        None
    } else {
        Some(digits_value(d))
    }
}

/// A longer string of digits denotes no smaller a number.
pub proof fn lemma_digits_value_prefix(d: Seq<char>, i: int)
    requires
        0 <= i <= d.len(),
    ensures
        digits_value(d.take(i)) <= digits_value(d),
    decreases d.len(),
{
    if i == d.len() {
        assert(d.take(i) =~= d);
    } else {
        lemma_digits_value_prefix(d.drop_last(), i);
        assert(d.drop_last().take(i) =~= d.take(i));
    }
}

/// The number the digits `cs[lo..hi]` denote, or `None` when they are not
/// all ASCII digits or the number is larger than `max`.
fn digits_to_bounded(cs: &Vec<char>, lo: usize, hi: usize, max: u128) -> (r: Option<u128>)
    requires
        lo <= hi <= cs.len(),
        max <= u64::MAX,
    ensures
        r matches Some(n) ==> all_digits(cs@.subrange(lo as int, hi as int)) && n == digits_value(
            cs@.subrange(lo as int, hi as int),
        ) && n <= max,
        r is None ==> !all_digits(cs@.subrange(lo as int, hi as int)) || digits_value(
            cs@.subrange(lo as int, hi as int),
        ) > max,
{
    let ghost d = cs@.subrange(lo as int, hi as int);
    let mut acc: u128 = 0;
    let mut i = lo;
    while i < hi
        invariant
            lo <= i <= hi <= cs.len(),
            d == cs@.subrange(lo as int, hi as int),
            acc == digits_value(cs@.subrange(lo as int, i as int)),
            acc <= max,
            max <= u64::MAX,
            forall|j: int| lo <= j < i ==> is_ascii_digit(#[trigger] cs@[j]),
        decreases hi - i,
    {
        let c = cs[i];
        if !('0' <= c && c <= '9') {
            proof {
                assert(d[i - lo] == c);
            }
            return None;
        }
        let dv: u128 = ((c as u32) - ('0' as u32)) as u128;
        let next: u128 = acc * 10 + dv;
        proof {
            let p = cs@.subrange(lo as int, i + 1);
            assert(p.drop_last() =~= cs@.subrange(lo as int, i as int));
            assert(digits_value(p) == next);
        }
        if next > max {
            proof {
                lemma_digits_value_prefix(d, i + 1 - lo);
                assert(d.take(i + 1 - lo) =~= cs@.subrange(lo as int, i + 1));
            }
            return None;
        }
        acc = next;
        i = i + 1;
    }
    proof {
        assert(cs@.subrange(lo as int, hi as int) =~= d);
        assert forall|j: int| 0 <= j < d.len() implies is_ascii_digit(#[trigger] d[j]) by {
            assert(d[j] == cs@[lo + j]);
        }
    }
    Some(acc)
}

/// Reads the unsigned integer written in `cs[lo..hi]` as `str::parse::<usize>`
/// does.
pub fn parse_usize_range(cs: &Vec<char>, lo: usize, hi: usize) -> (r: Option<usize>)
    requires
        lo <= hi <= cs.len(),
    ensures
        r matches Some(n) ==> parsed_unsigned(cs@.subrange(lo as int, hi as int), usize::MAX as nat)
            == Some(n as nat),
        r is None ==> parsed_unsigned(cs@.subrange(lo as int, hi as int), usize::MAX as nat) is None,
{
    let ghost t = cs@.subrange(lo as int, hi as int);
    let start: usize = if lo < hi && cs[lo] == '+' { lo + 1 } else { lo };
    proof {
        if lo < hi && cs@[lo as int] == '+' {
            assert(t.drop_first() =~= cs@.subrange(lo + 1, hi as int));
        } else {
            assert(t =~= cs@.subrange(lo as int, hi as int));
        }
    }
    if start >= hi {
        return None;
    }
    match digits_to_bounded(cs, start, hi, usize::MAX as u128) {
        Some(n) => Some(n as usize),
        None => None,
    }
}

/// Reads an unsigned integer as `str::parse::<usize>` does.
pub fn parse_usize(t: &str) -> (r: Option<usize>)
    ensures
        r matches Some(n) ==> parsed_unsigned(t@, usize::MAX as nat) == Some(n as nat),
        r is None ==> parsed_unsigned(t@, usize::MAX as nat) is None,
{
    let cs = to_chars(t);
    proof {
        assert(cs@.subrange(0, cs@.len() as int) =~= t@);
    }
    parse_usize_range(&cs, 0, cs.len())
}

} // verus!

verus! {

/// Whether `t` occurs in `s`.
pub open spec fn has_substring(s: Seq<char>, t: Seq<char>) -> bool {
    exists|i: int| 0 <= i && i + t.len() <= s.len() && #[trigger] s.subrange(i, i + t.len()) == t
}

/// Whether `cs[i..i + t.len()]` is `t`.
fn occurs_at(cs: &Vec<char>, ts: &Vec<char>, i: usize) -> (r: bool)
    requires
        i + ts.len() <= cs.len(),
    ensures
        r == (cs@.subrange(i as int, i + ts@.len()) == ts@),
{
    let n = cs.len();
    let mut k: usize = 0;
    while k < ts.len()
        invariant
            n == cs@.len(),
            k <= ts@.len(),
            i + ts@.len() <= cs@.len(),
            forall|j: int| 0 <= j < k ==> cs@[i + j] == ts@[j],
        decreases ts@.len() - k,
    {
        if cs[i + k] != ts[k] {
            proof {
                assert(cs@.subrange(i as int, i + ts@.len())[k as int] != ts@[k as int]);
            }
            return false;
        }
        k = k + 1;
    }
    proof {
        assert(cs@.subrange(i as int, i + ts@.len()) =~= ts@);
    }
    true
}

/// Whether `t` occurs in `s`, as `str::contains` tells.
pub fn contains_text(s: &str, t: &str) -> (r: bool)
    ensures
        r == has_substring(s@, t@),
{
    let cs = to_chars(s);
    let ts = to_chars(t);
    if ts.len() > cs.len() {
        return false;
    }
    if ts.len() == 0 {
        proof {
            assert(cs@.subrange(0, 0 + ts@.len() as int) =~= ts@);
        }
        return true;
    }
    let n = cs.len();
    let last = n - ts.len();
    let mut i: usize = 0;
    while i <= last
        invariant
            n == cs@.len(),
            ts@.len() >= 1,
            last + ts@.len() == cs@.len(),
            cs@ == s@,
            ts@ == t@,
            forall|j: int| 0 <= j < i ==> #[trigger] cs@.subrange(j, j + ts@.len()) != ts@,
        decreases last + 1 - i,
    {
        if occurs_at(&cs, &ts, i) {
            return true;
        }
        i = i + 1;
    }
    false
}

} // verus!

verus! {

/// The integer `str::parse::<i64>` reads from `t`: an optional `+` or `-`
/// and then one or more decimal digits, within the range of `i64`. `None`
/// for anything else.
pub open spec fn parsed_i64(t: Seq<char>) -> Option<int> {
    if t.len() > 0 && t[0] == '-' {
        let d = t.drop_first();
        if d.len() == 0 || !all_digits(d) || digits_value(d) > 9223372036854775808 {
            None
        } else {
            Some(-(digits_value(d) as int))
        }
    } else {
        match parsed_unsigned(t, i64::MAX as nat) {
            Some(n) => Some(n as int),
            None => None,
        }
    }
}

/// Reads a signed integer as `str::parse::<i64>` does.
pub fn parse_i64(t: &str) -> (r: Option<i64>)
    ensures
        r matches Some(n) ==> parsed_i64(t@) == Some(n as int),
        r is None ==> parsed_i64(t@) is None,
{
    let cs = to_chars(t);
    let n = cs.len();
    if n > 0 && cs[0] == '-' {
        proof {
            assert(t@.drop_first() =~= cs@.subrange(1, n as int));
        }
        if n == 1 {
            return None;
        }
        match digits_to_bounded(&cs, 1, n, 9223372036854775808u128) {
            Some(m) => {
                let v: i128 = -(m as i128);
                Some(v as i64)
            },
            None => None,
        }
    } else {
        let start: usize = if n > 0 && cs[0] == '+' { 1 } else { 0 };
        proof {
            if n > 0 && cs@[0] == '+' {
                assert(t@.drop_first() =~= cs@.subrange(1, n as int));
            } else {
                assert(t@ =~= cs@.subrange(0, n as int));
            }
        }
        if start >= n {
            return None;
        }
        match digits_to_bounded(&cs, start, n, 9223372036854775807u128) {
            Some(m) => Some(m as i64),
            None => None,
        }
    }
}

/// The pieces of `s` between its commas, as `str::split(',')` gives them:
/// one more piece than there are commas.
pub open spec fn split_commas(s: Seq<char>) -> Seq<Seq<char>>
    decreases s.len(),
{
    if s.len() == 0 {
        seq![Seq::empty()]
    } else {
        let p = split_commas(s.drop_last());
        if s.last() == ',' {
            p.push(Seq::empty())
        } else {
            p.update(p.len() - 1, p.last().push(s.last()))
        }
    }
}

/// Splitting gives at least one piece.
pub proof fn lemma_split_commas_len(s: Seq<char>)
    ensures
        split_commas(s).len() >= 1,
    decreases s.len(),
{
    if s.len() > 0 {
        lemma_split_commas_len(s.drop_last());
    }
}

/// The pieces of `cs[lo..hi]` between its commas, as position ranges.
pub fn comma_ranges(cs: &Vec<char>, lo: usize, hi: usize) -> (r: Vec<(usize, usize)>)
    requires
        lo <= hi <= cs.len(),
    ensures
        r@.len() == split_commas(cs@.subrange(lo as int, hi as int)).len(),
        forall|k: int|
            0 <= k < r@.len() ==> lo <= (#[trigger] r@[k]).0 <= r@[k].1 <= hi && cs@.subrange(
                r@[k].0 as int,
                r@[k].1 as int,
            ) == split_commas(cs@.subrange(lo as int, hi as int))[k],
{
    let mut out: Vec<(usize, usize)> = Vec::new();
    let mut start = lo;
    let mut i = lo;
    proof {
        assert(cs@.subrange(lo as int, lo as int) =~= Seq::<char>::empty());
    }
    while i < hi
        invariant
            lo <= start <= i <= hi <= cs.len(),
            out@.len() + 1 == split_commas(cs@.subrange(lo as int, i as int)).len(),
            forall|k: int|
                0 <= k < out@.len() ==> lo <= (#[trigger] out@[k]).0 <= out@[k].1 <= hi
                    && cs@.subrange(out@[k].0 as int, out@[k].1 as int) == split_commas(
                    cs@.subrange(lo as int, i as int),
                )[k],
            cs@.subrange(start as int, i as int) == split_commas(cs@.subrange(lo as int, i as int)).last(),
        decreases hi - i,
    {
        let ghost before = split_commas(cs@.subrange(lo as int, i as int));
        proof {
            lemma_split_commas_len(cs@.subrange(lo as int, i as int));
            assert(cs@.subrange(lo as int, i + 1).drop_last() =~= cs@.subrange(lo as int, i as int));
            assert(cs@.subrange(lo as int, i + 1).last() == cs@[i as int]);
        }
        if cs[i] == ',' {
            out.push((start, i));
            start = i + 1;
            proof {
                assert(cs@.subrange(start as int, i + 1) =~= Seq::<char>::empty());
            }
        } else {
            proof {
                assert(cs@.subrange(start as int, i + 1) =~= cs@.subrange(start as int, i as int).push(
                    cs@[i as int],
                ));
            }
        }
        i = i + 1;
    }
    out.push((start, hi));
    proof {
        lemma_split_commas_len(cs@.subrange(lo as int, hi as int));
    }
    out
}

} // verus!

verus! {

/// The characters `cs[lo..hi]`, as a string.
pub fn string_of_range(cs: &Vec<char>, lo: usize, hi: usize) -> (r: String)
    requires
        lo <= hi <= cs.len(),
    ensures
        r@ == cs@.subrange(lo as int, hi as int),
{
    let mut out = String::new();
    let mut i = lo;
    while i < hi
        invariant
            lo <= i <= hi <= cs@.len(),
            out@ == cs@.subrange(lo as int, i as int),
        decreases hi - i,
    {
        push_char(&mut out, cs[i]);
        proof {
            assert(cs@.subrange(lo as int, i + 1) =~= cs@.subrange(lo as int, i as int).push(cs@[i as int]));
        }
        i = i + 1;
    }
    out
}

} // verus!
