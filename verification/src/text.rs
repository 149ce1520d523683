//! Character-level text handling: whitespace, trimming, prefixes and lines.

use vstd::prelude::*;

verus! {

/// The Unicode `White_Space` characters, which `char::is_whitespace` recognises.
pub open spec fn is_ws(c: char) -> bool {
    ||| c == '\t' || c == '\n' || c == '\u{0B}' || c == '\u{0C}' || c == '\r' || c == ' '
    ||| c == '\u{85}' || c == '\u{A0}' || c == '\u{1680}'
    ||| ('\u{2000}' <= c && c <= '\u{200A}')
    ||| c == '\u{2028}' || c == '\u{2029}' || c == '\u{202F}' || c == '\u{205F}' || c == '\u{3000}'
}

/// Whether `c` is white space in the sense of `char::is_whitespace`.
pub fn is_whitespace(c: char) -> (r: bool)
    ensures
        r == is_ws(c),
{
    c == '\t' || c == '\n' || c == '\u{0B}' || c == '\u{0C}' || c == '\r' || c == ' '
        || c == '\u{85}' || c == '\u{A0}' || c == '\u{1680}' || ('\u{2000}' <= c && c <= '\u{200A}')
        || c == '\u{2028}' || c == '\u{2029}' || c == '\u{202F}' || c == '\u{205F}'
        || c == '\u{3000}'
}

} // verus!

verus! {

/// The characters of `s`, in order.
pub fn chars_of(s: &str) -> (v: Vec<char>)
    ensures
        v@ == s@,
{
    broadcast use vstd::string::group_string_axioms;
    let mut v: Vec<char> = Vec::new();
    for c in it: s.chars()
        invariant
            it.seq() == s@,
            v@ == it.seq().take(it.index()),
    {
        v.push(c);
    }
    v
}

} // verus!

verus! {

/// Appends `c` to `s` by `String::push`.
/// Claims of `String::push` that `s` afterwards holds its old characters followed by `c`.
#[verifier::external_body]
fn push_char(s: &mut String, c: char)
    ensures
        final(s)@ == old(s)@.push(c),
{
    s.push(c);
}

/// A `String` holding the characters `v[a..b]`.
pub fn string_of(v: &Vec<char>, a: usize, b: usize) -> (s: String)
    requires
        a <= b <= v@.len(),
    ensures
        s@ == v@.subrange(a as int, b as int),
{
    let mut s = String::new();
    let mut i = a;
    while i < b
        invariant
            a <= i <= b <= v@.len(),
            s@ == v@.subrange(a as int, i as int),
        decreases b - i,
    {
        push_char(&mut s, v[i]);
        assert(v@.subrange(a as int, i + 1) == v@.subrange(a as int, i as int).push(v@[i as int]));
        i = i + 1;
    }
    s
}

/// `s` without its leading white space.
pub open spec fn trim_start(s: Seq<char>) -> Seq<char>
    decreases s.len(),
{
    if s.len() > 0 && is_ws(s[0]) {
        trim_start(s.drop_first())
    } else {
        s
    }
}

/// `s` without its trailing white space.
pub open spec fn trim_end(s: Seq<char>) -> Seq<char>
    decreases s.len(),
{
    if s.len() > 0 && is_ws(s.last()) {
        trim_end(s.drop_last())
    } else {
        s
    }
}

/// `s` without leading and trailing white space, as `str::trim` gives it.
pub open spec fn trim(s: Seq<char>) -> Seq<char> {
    trim_end(trim_start(s))
}

/// The bounds of `v[a..b]` once white space is cut from both ends.
pub fn trim_range(v: &Vec<char>, a: usize, b: usize) -> (r: (usize, usize))
    requires
        a <= b <= v@.len(),
    ensures
        a <= r.0 <= r.1 <= b,
        v@.subrange(r.0 as int, r.1 as int) == trim(v@.subrange(a as int, b as int)),
{
    let mut i = a;
    while i < b && is_whitespace(v[i])
        invariant
            a <= i <= b <= v@.len(),
            trim_start(v@.subrange(i as int, b as int)) == trim_start(v@.subrange(a as int, b as int)),
        decreases b - i,
    {
        assert(v@.subrange(i as int, b as int).drop_first() == v@.subrange(i + 1, b as int));
        i = i + 1;
    }
    let mut j = b;
    while j > i && is_whitespace(v[j - 1])
        invariant
            a <= i <= j <= b <= v@.len(),
            trim_end(v@.subrange(i as int, j as int)) == trim(v@.subrange(a as int, b as int)),
        decreases j - i,
    {
        assert(v@.subrange(i as int, j as int).drop_last() == v@.subrange(i as int, j - 1));
        j = j - 1;
    }
    (i, j)
}

/// A `String` holding `s` with white space cut from both ends.
pub fn trimmed(s: &str) -> (r: String)
    ensures
        r@ == trim(s@),
{
    let v = chars_of(s);
    let (a, b) = trim_range(&v, 0, v.len());
    assert(v@.subrange(0, v@.len() as int) == v@);
    string_of(&v, a, b)
}

} // verus!

verus! {

/// The pieces of `s` between line feeds; there is always one more piece than line feeds.
pub open spec fn split_lf(s: Seq<char>) -> Seq<Seq<char>>
    decreases s.len(),
{
    if s.len() == 0 {
        seq![Seq::<char>::empty()]
    } else {
        let r = split_lf(s.drop_last());
        if s.last() == '\n' {
            r.push(Seq::<char>::empty())
        } else {
            r.update(r.len() - 1, r.last().push(s.last()))
        }
    }
}

/// `l` without one trailing carriage return.
pub open spec fn strip_cr(l: Seq<char>) -> Seq<char> {
    if l.len() > 0 && l.last() == '\r' {
        l.drop_last()
    } else {
        l
    }
}

/// The lines of `s` as `str::lines` yields them: split at line feeds, a carriage return
/// before a line feed dropped, and no empty line after a final line feed.
pub open spec fn lines(s: Seq<char>) -> Seq<Seq<char>> {
    let p = split_lf(s);
    let n = p.len() as int;
    Seq::new(
        if p[n - 1].len() == 0 { (n - 1) as nat } else { n as nat },
        |i: int| if i < n - 1 { strip_cr(p[i]) } else { p[i] },
    )
}

/// The line bounds in `v`: the `k`-th pair delimits the `k`-th line of `lines(v)`.
pub fn line_ranges(v: &Vec<char>) -> (r: Vec<(usize, usize)>)
    ensures
        r@.len() == lines(v@).len(),
        forall|k: int|
            #![trigger r@[k]]
            0 <= k < r@.len() ==> {
                &&& r@[k].0 <= r@[k].1 <= v@.len()
                &&& v@.subrange(r@[k].0 as int, r@[k].1 as int) == lines(v@)[k]
            },
{
    let mut pieces: Vec<(usize, usize)> = Vec::new();
    let mut start: usize = 0;
    let mut i: usize = 0;
    while i < v.len()
        invariant
            start <= i <= v@.len(),
            split_lf(v@.take(i as int)).len() == pieces@.len() + 1,
            split_lf(v@.take(i as int)).last() == v@.subrange(start as int, i as int),
            forall|k: int|
                #![trigger pieces@[k]]
                0 <= k < pieces@.len() ==> {
                    &&& pieces@[k].0 <= pieces@[k].1 < start
                    &&& v@[pieces@[k].1 as int] == '\n'
                    &&& v@.subrange(pieces@[k].0 as int, pieces@[k].1 as int) == split_lf(
                        v@.take(i as int),
                    )[k]
                },
        decreases v@.len() - i,
    {
        let ghost before = split_lf(v@.take(i as int));
        let ghost old_pieces = pieces@;
        assert(v@.take(i + 1).drop_last() == v@.take(i as int));
        assert(v@.take(i + 1).last() == v@[i as int]);
        let ghost after = split_lf(v@.take(i + 1));
        let ghost old_start = start;
        if v[i] == '\n' {
            assert(after == before.push(Seq::<char>::empty()));
            pieces.push((start, i));
            start = i + 1;
            assert forall|k: int| #![trigger pieces@[k]] 0 <= k < pieces@.len() implies {
                &&& pieces@[k].0 <= pieces@[k].1 < start
                &&& v@[pieces@[k].1 as int] == '\n'
                &&& v@.subrange(pieces@[k].0 as int, pieces@[k].1 as int) == after[k]
            } by {
                if k < old_pieces.len() {
                    assert(pieces@[k] == old_pieces[k]);
                    assert(after[k] == before[k]);
                } else {
                    assert(pieces@[k] == (old_start, i));
                    assert(after[k] == before.last());
                }
            }
        } else {
            assert(after == before.update(before.len() - 1, before.last().push(v@[i as int])));
            assert(v@.subrange(start as int, i + 1) == v@.subrange(start as int, i as int).push(
                v@[i as int],
            ));
            assert forall|k: int| 0 <= k < pieces@.len() implies #[trigger] after[k] == before[k] by {}
        }
        i = i + 1;
    }
    assert(v@.take(v@.len() as int) == v@);
    let ghost p = split_lf(v@);
    let mut out: Vec<(usize, usize)> = Vec::new();
    let mut k: usize = 0;
    while k < pieces.len()
        invariant
            k <= pieces@.len(),
            p.len() == pieces@.len() + 1,
            p.last() == v@.subrange(start as int, v@.len() as int),
            start <= v@.len(),
            forall|m: int|
                #![trigger pieces@[m]]
                0 <= m < pieces@.len() ==> {
                    &&& pieces@[m].0 <= pieces@[m].1 < start
                    &&& v@[pieces@[m].1 as int] == '\n'
                    &&& v@.subrange(pieces@[m].0 as int, pieces@[m].1 as int) == p[m]
                },
            out@.len() == k,
            forall|m: int|
                #![trigger out@[m]]
                0 <= m < k ==> {
                    &&& out@[m].0 <= out@[m].1 <= v@.len()
                    &&& v@.subrange(out@[m].0 as int, out@[m].1 as int) == strip_cr(p[m])
                },
        decreases pieces@.len() - k,
    {
        let (a, b) = pieces[k];
        if a < b && v[b - 1] == '\r' {
            assert(v@.subrange(a as int, b as int).drop_last() == v@.subrange(a as int, b - 1));
            out.push((a, b - 1));
        } else {
            out.push((a, b));
        }
        k = k + 1;
    }
    if start < v.len() {
        out.push((start, v.len()));
    }
    out
}

} // verus!

verus! {

/// The rest of `s` after `p`, when `s` starts with `p`, as `str::strip_prefix` gives it.
pub open spec fn strip_prefix(s: Seq<char>, p: Seq<char>) -> Option<Seq<char>> {
    if p.len() <= s.len() && s.take(p.len() as int) == p {
        Some(s.skip(p.len() as int))
    } else {
        None
    }
}

/// Whether `v[a..b]` starts with `p`.
pub fn has_prefix(v: &Vec<char>, a: usize, b: usize, p: &Vec<char>) -> (r: bool)
    requires
        a <= b <= v@.len(),
    ensures
        r == strip_prefix(v@.subrange(a as int, b as int), p@) is Some,
{
    if p.len() > b - a {
        return false;
    }
    let ghost s = v@.subrange(a as int, b as int);
    let mut i: usize = 0;
    while i < p.len()
        invariant
            a <= b <= v@.len(),
            p@.len() <= b - a,
            s == v@.subrange(a as int, b as int),
            i <= p@.len(),
            forall|j: int| 0 <= j < i ==> s[j] == p@[j],
        decreases p@.len() - i,
    {
        if v[a + i] != p[i] {
            assert(s.take(p@.len() as int)[i as int] != p@[i as int]);
            return false;
        }
        i = i + 1;
    }
    assert(s.take(p@.len() as int) == p@);
    true
}

} // verus!
