//! Splitting texts into pieces, counting them and ranking them by count.

use vstd::prelude::*;
use crate::util::order::{compare_text, lemma_text_order_basics, lemma_text_order_trans, same_text, text_order};
use crate::util::text::{is_alnum, is_ascii_alnum, is_white, is_whitespace_char, string_views};

verus! {

/// Which characters separate pieces.
#[derive(Debug, Clone, Copy, PartialEq, Eq, Structural)]
pub enum Separator {
    /// Every character that is not an ASCII letter or digit.
    NonAlphanumeric,
    /// Every whitespace character.
    Whitespace,
}

pub open spec fn separates(sep: Separator, c: char) -> bool {
    match sep {
        Separator::NonAlphanumeric => !is_ascii_alnum(c),
        Separator::Whitespace => is_white(c),
    }
}

/// The pieces between separators, as `str::split` with a predicate yields
/// them: one more piece than there are separators, empty pieces included.
pub open spec fn pieces(s: Seq<char>, sep: Separator) -> Seq<Seq<char>>
    decreases s.len(),
{
    if s.len() == 0 {
        seq![Seq::empty()]
    } else {
        let p = pieces(s.drop_last(), sep);
        if separates(sep, s.last()) {
            p.push(Seq::empty())
        } else {
            p.update(p.len() - 1, p.last().push(s.last()))
        }
    }
}

pub proof fn lemma_pieces_nonempty(s: Seq<char>, sep: Separator)
    ensures
        pieces(s, sep).len() >= 1,
    decreases s.len(),
{
    if s.len() > 0 {
        lemma_pieces_nonempty(s.drop_last(), sep);
    }
}

fn separator_at(sep: Separator, c: char) -> (r: bool)
    ensures
        r == separates(sep, c),
{
    match sep {
        Separator::NonAlphanumeric => !is_alnum(c),
        Separator::Whitespace => is_whitespace_char(c),
    }
}

pub open spec fn char_views(v: Seq<Vec<char>>) -> Seq<Seq<char>> {
    v.map_values(|x: Vec<char>| x@)
}

/// Splits a text into its pieces.
pub fn split_pieces(s: &str, sep: Separator) -> (r: Vec<Vec<char>>)
    ensures
        char_views(r@) == pieces(s@, sep),
{
    let n = s.unicode_len();
    let mut out: Vec<Vec<char>> = Vec::new();
    let mut current: Vec<char> = Vec::new();
    let mut i: usize = 0;
    proof {
        assert(s@.subrange(0, 0) =~= Seq::<char>::empty());
        assert(char_views(out@).push(current@) =~= seq![Seq::<char>::empty()]);
    }
    while i < n
        invariant
            n == s@.len(),
            i <= n,
            char_views(out@).push(current@) == pieces(s@.subrange(0, i as int), sep),
        decreases n - i,
    {
        let c = s.get_char(i);
        let ghost pre = s@.subrange(0, i as int);
        proof {
            assert(s@.subrange(0, i + 1).drop_last() =~= pre);
            assert(s@.subrange(0, i + 1).last() == c);
            lemma_pieces_nonempty(pre, sep);
        }
        if separator_at(sep, c) {
            let finished = current;
            let ghost before = char_views(out@);
            out.push(finished);
            current = Vec::new();
            proof {
                assert(char_views(out@) =~= before.push(finished@));
                assert(char_views(out@).push(current@) =~= before.push(finished@).push(Seq::<char>::empty()));
            }
        } else {
            let ghost before = current@;
            current.push(c);
            proof {
                assert(char_views(out@).push(current@) =~= char_views(out@).push(before).update(
                    char_views(out@).len() as int,
                    before.push(c),
                ));
            }
        }
        i = i + 1;
    }
    proof {
        assert(s@.subrange(0, n as int) =~= s@);
    }
    let ghost before = char_views(out@);
    out.push(current);
    proof {
        assert(char_views(out@) =~= before.push(current@));
    }
    out
}

/// Leading and trailing `"` characters removed (`trim_matches('"')`).
pub open spec fn strip_quotes(s: Seq<char>) -> Seq<char>
    decreases s.len(),
{
    if s.len() > 0 && s[0] == '"' {
        strip_quotes(s.drop_first())
    } else if s.len() > 0 && s.last() == '"' {
        strip_quotes(s.drop_last())
    } else {
        s
    }
}

/// Removes leading and trailing `"` characters.
pub fn strip_quote_chars(s: &Vec<char>) -> (r: Vec<char>)
    ensures
        r@ == strip_quotes(s@),
{
    let mut lo: usize = 0;
    let mut hi: usize = s.len();
    proof {
        assert(s@.subrange(0, s@.len() as int) =~= s@);
    }
    while lo < hi && s[lo] == '"'
        invariant
            lo <= hi <= s@.len(),
            hi == s@.len(),
            strip_quotes(s@) == strip_quotes(s@.subrange(lo as int, hi as int)),
        decreases hi - lo,
    {
        proof {
            assert(s@.subrange(lo as int, hi as int).drop_first() =~= s@.subrange(lo + 1, hi as int));
        }
        lo = lo + 1;
    }
    while lo < hi && s[hi - 1] == '"'
        invariant
            lo <= hi <= s@.len(),
            lo == hi || s@[lo as int] != '"',
            strip_quotes(s@) == strip_quotes(s@.subrange(lo as int, hi as int)),
        decreases hi - lo,
    {
        proof {
            let t = s@.subrange(lo as int, hi as int);
            assert(t[0] == s@[lo as int]);
            assert(t.drop_last() =~= s@.subrange(lo as int, hi - 1));
        }
        hi = hi - 1;
    }
    let mut out: Vec<char> = Vec::new();
    let mut k: usize = lo;
    while k < hi
        invariant
            lo <= k <= hi <= s@.len(),
            out@ == s@.subrange(lo as int, k as int),
        decreases hi - k,
    {
        out.push(s[k]);
        proof {
            assert(s@.subrange(lo as int, k + 1) =~= s@.subrange(lo as int, k as int).push(s@[k as int]));
        }
        k = k + 1;
    }
    proof {
        let t = s@.subrange(lo as int, hi as int);
        if t.len() > 0 {
            assert(t[0] == s@[lo as int]);
            assert(t.last() == s@[hi - 1]);
        }
    }
    out
}

/// The texts with later repeats removed, first occurrences kept in order.
pub open spec fn dedup_texts(s: Seq<Seq<char>>) -> Seq<Seq<char>>
    decreases s.len(),
{
    if s.len() == 0 {
        s
    } else {
        let d = dedup_texts(s.drop_last());
        if d.contains(s.last()) {
            d
        } else {
            d.push(s.last())
        }
    }
}

/// How often `k` occurs among the texts.
pub open spec fn occurrences(s: Seq<Seq<char>>, k: Seq<char>) -> nat
    decreases s.len(),
{
    if s.len() == 0 {
        0
    } else {
        occurrences(s.drop_last(), k) + if s.last() == k {
            1nat
        } else {
            0nat
        }
    }
}

/// Each distinct text with its number of occurrences, in order of first
/// occurrence.
pub open spec fn counted(pairs: Seq<(String, u32)>, s: Seq<Seq<char>>) -> bool {
    &&& pairs.len() == dedup_texts(s).len()
    &&& forall|i: int|
        0 <= i < pairs.len() ==> (#[trigger] pairs[i]).0@ == dedup_texts(s)[i] && pairs[i].1
            == occurrences(s, pairs[i].0@)
}

proof fn lemma_dedup_members(s: Seq<Seq<char>>)
    ensures
        forall|i: int| 0 <= i < dedup_texts(s).len() ==> s.contains(#[trigger] dedup_texts(s)[i]),
        forall|i: int| 0 <= i < s.len() ==> dedup_texts(s).contains(#[trigger] s[i]),
        forall|i: int, j: int| 0 <= i < j < dedup_texts(s).len() ==> dedup_texts(s)[i] != dedup_texts(s)[j],
        dedup_texts(s).len() <= s.len(),
    decreases s.len(),
{
    if s.len() > 0 {
        let d = s.drop_last();
        lemma_dedup_members(d);
        assert forall|i: int| 0 <= i < dedup_texts(s).len() implies s.contains(#[trigger] dedup_texts(s)[i]) by {
            if i < dedup_texts(d).len() {
                assert(d.contains(dedup_texts(d)[i]));
                let k = choose|k: int| 0 <= k < d.len() && d[k] == dedup_texts(d)[i];
                assert(s[k] == d[k]);
            } else {
                assert(s[s.len() - 1] == s.last());
            }
        }
        assert forall|i: int| 0 <= i < s.len() implies dedup_texts(s).contains(#[trigger] s[i]) by {
            if i < d.len() {
                assert(s[i] == d[i]);
                assert(dedup_texts(d).contains(d[i]));
                let k = choose|k: int| 0 <= k < dedup_texts(d).len() && dedup_texts(d)[k] == d[i];
                assert(dedup_texts(s)[k] == dedup_texts(d)[k]);
            } else {
                if !dedup_texts(d).contains(s.last()) {
                    assert(dedup_texts(s)[dedup_texts(d).len() as int] == s.last());
                } else {
                    let k = choose|k: int| 0 <= k < dedup_texts(d).len() && dedup_texts(d)[k] == s.last();
                    assert(dedup_texts(s)[k] == s.last());
                }
            }
        }
    }
}

fn index_of_key(pairs: &Vec<(String, u32)>, key: &Vec<char>) -> (r: usize)
    ensures
        r <= pairs@.len(),
        r < pairs@.len() ==> pairs@[r as int].0@ == key@,
        forall|k: int| 0 <= k < r ==> pairs@[k].0@ != key@,
{
    let text = crate::util::text::string_of(key);
    let mut i: usize = 0;
    while i < pairs.len()
        invariant
            i <= pairs@.len(),
            text@ == key@,
            forall|k: int| 0 <= k < i ==> pairs@[k].0@ != key@,
        decreases pairs.len() - i,
    {
        if same_text(pairs[i].0.as_str(), text.as_str()) {
            return i;
        }
        i = i + 1;
    }
    i
}

proof fn lemma_occurrences_step(s: Seq<Seq<char>>, i: int, k: Seq<char>)
    requires
        0 <= i < s.len(),
    ensures
        occurrences(s.subrange(0, i + 1), k) == occurrences(s.subrange(0, i), k) + if s[i] == k {
            1nat
        } else {
            0nat
        },
{
    assert(s.subrange(0, i + 1).drop_last() =~= s.subrange(0, i));
}

/// Counts the texts: each distinct text with its number of occurrences, in
/// order of first occurrence. Counts saturate at `u32::MAX`.
pub fn count_texts(texts: &Vec<Vec<char>>) -> (r: Vec<(String, u32)>)
    requires
        texts@.len() <= u32::MAX,
    ensures
        counted(r@, char_views(texts@)),
{
    let ghost all = char_views(texts@);
    let mut pairs: Vec<(String, u32)> = Vec::new();
    let mut i: usize = 0;
    proof {
        assert(all.subrange(0, 0) =~= Seq::<Seq<char>>::empty());
    }
    while i < texts.len()
        invariant
            all == char_views(texts@),
            texts@.len() <= u32::MAX,
            i <= texts@.len(),
            counted(pairs@, all.subrange(0, i as int)),
            forall|j: int| 0 <= j < pairs@.len() ==> pairs@[j].1 <= i,
        decreases texts.len() - i,
    {
        let ghost pre = all.subrange(0, i as int);
        let ghost next = all.subrange(0, i + 1);
        proof {
            assert(next.drop_last() =~= pre);
            assert(next.last() == texts@[i as int]@);
            lemma_dedup_members(pre);
        }
        let g = index_of_key(&pairs, &texts[i]);
        let ghost before = pairs@;
        if g < pairs.len() {
            let (key, n) = pairs.remove(g);
            pairs.insert(g, (key, n + 1));
            proof {
                assert(dedup_texts(pre).contains(texts@[i as int]@)) by {
                    assert(dedup_texts(pre)[g as int] == texts@[i as int]@);
                }
                assert(dedup_texts(next) == dedup_texts(pre));
                assert forall|j: int| 0 <= j < pairs@.len() implies (#[trigger] pairs@[j]).0@ == dedup_texts(next)[j]
                    && pairs@[j].1 == occurrences(next, pairs@[j].0@) by {
                    lemma_occurrences_step(all, i as int, pairs@[j].0@);
                    if j != g {
                        assert(pairs@[j] == before[j]);
                    }
                }
            }
        } else {
            pairs.push((crate::util::text::string_of(&texts[i]), 1));
            proof {
                assert(!dedup_texts(pre).contains(texts@[i as int]@)) by {
                    if dedup_texts(pre).contains(texts@[i as int]@) {
                        let k = choose|k: int| 0 <= k < dedup_texts(pre).len() && dedup_texts(pre)[k] == texts@[i as int]@;
                        assert(before[k].0@ == dedup_texts(pre)[k]);
                    }
                }
                assert(dedup_texts(next) == dedup_texts(pre).push(texts@[i as int]@));
                assert(!pre.contains(texts@[i as int]@));
                assert forall|j: int| 0 <= j < pairs@.len() implies (#[trigger] pairs@[j]).0@ == dedup_texts(next)[j]
                    && pairs@[j].1 == occurrences(next, pairs@[j].0@) by {
                    lemma_occurrences_step(all, i as int, pairs@[j].0@);
                    if j < before.len() {
                        assert(pairs@[j] == before[j]);
                    } else {
                        lemma_no_occurrences(pre, texts@[i as int]@);
                    }
                }
            }
        }
        i = i + 1;
    }
    proof {
        assert(all.subrange(0, texts@.len() as int) =~= all);
    }
    pairs
}

proof fn lemma_no_occurrences(s: Seq<Seq<char>>, k: Seq<char>)
    requires
        !s.contains(k),
    ensures
        occurrences(s, k) == 0,
    decreases s.len(),
{
    if s.len() > 0 {
        assert(!s.drop_last().contains(k)) by {
            if s.drop_last().contains(k) {
                let j = choose|j: int| 0 <= j < s.drop_last().len() && s.drop_last()[j] == k;
                assert(s[j] == k);
            }
        }
        lemma_no_occurrences(s.drop_last(), k);
        assert(s[s.len() - 1] != k);
    }
}

/// Ranking order of counted texts: higher count first, then the text, then
/// the position.
pub open spec fn count_lt(a: (String, u32), ia: int, b: (String, u32), ib: int) -> bool {
    if a.1 != b.1 {
        a.1 > b.1
    } else {
        let c = text_order(a.0@, b.0@);
        if c != 0 {
            c < 0
        } else {
            ia < ib
        }
    }
}

proof fn lemma_count_lt_trans(a: (String, u32), ia: int, b: (String, u32), ib: int, c: (String, u32), ic: int)
    requires
        count_lt(a, ia, b, ib),
        count_lt(b, ib, c, ic),
    ensures
        count_lt(a, ia, c, ic),
{
    lemma_text_order_basics(a.0@, b.0@);
    lemma_text_order_basics(b.0@, c.0@);
    lemma_text_order_basics(a.0@, c.0@);
    if text_order(a.0@, b.0@) <= 0 && text_order(b.0@, c.0@) <= 0 {
        lemma_text_order_trans(a.0@, b.0@, c.0@);
    }
}

proof fn lemma_count_lt_total(a: (String, u32), ia: int, b: (String, u32), ib: int)
    requires
        ia != ib,
    ensures
        count_lt(a, ia, b, ib) || count_lt(b, ib, a, ia),
{
    lemma_text_order_basics(a.0@, b.0@);
}

/// `p` lists every position of `pairs` once, in ranking order.
pub open spec fn ranks(pairs: Seq<(String, u32)>, p: Seq<usize>) -> bool {
    &&& p.len() == pairs.len()
    &&& forall|k: int| 0 <= k < p.len() ==> p[k] < pairs.len()
    &&& forall|k1: int, k2: int| 0 <= k1 < k2 < p.len() ==> p[k1] != p[k2]
    &&& forall|k1: int, k2: int|
        0 <= k1 < k2 < p.len() ==> #[trigger] count_lt(pairs[p[k1] as int], p[k1] as int, pairs[p[k2] as int], p[k2] as int)
}

/// The texts of the first three ranked pairs.
pub open spec fn top_three_of(r: Seq<Seq<char>>, pairs: Seq<(String, u32)>, p: Seq<usize>) -> bool {
    &&& ranks(pairs, p)
    &&& r.len() == (if pairs.len() < 3 {
        pairs.len() as int
    } else {
        3
    })
    &&& forall|k: int| 0 <= k < r.len() ==> r[k] == pairs[p[k] as int].0@
}

pub open spec fn top_three(r: Seq<Seq<char>>, pairs: Seq<(String, u32)>) -> bool {
    exists|p: Seq<usize>| #[trigger] top_three_of(r, pairs, p)
}

/// The three most frequent texts, most frequent first (ties by text order).
pub fn top_counts(pairs: &Vec<(String, u32)>) -> (r: Vec<String>)
    ensures
        top_three(string_views(r@), pairs@),
{
    let mut order: Vec<usize> = Vec::new();
    let mut i: usize = 0;
    while i < pairs.len()
        invariant
            i <= pairs@.len(),
            order@.len() == i,
            forall|k: int| 0 <= k < order@.len() ==> order@[k] < i,
            forall|k1: int, k2: int| 0 <= k1 < k2 < order@.len() ==> order@[k1] != order@[k2],
            forall|k1: int, k2: int|
                0 <= k1 < k2 < order@.len() ==> #[trigger] count_lt(
                    pairs@[order@[k1] as int],
                    order@[k1] as int,
                    pairs@[order@[k2] as int],
                    order@[k2] as int,
                ),
        decreases pairs.len() - i,
    {
        let mut pos: usize = 0;
        while pos < order.len() && precedes(&pairs[order[pos]], order[pos], &pairs[i], i)
            invariant
                i < pairs@.len(),
                pos <= order@.len(),
                forall|k: int| 0 <= k < order@.len() ==> order@[k] < i,
                forall|k: int| 0 <= k < pos ==> count_lt(pairs@[order@[k] as int], order@[k] as int, pairs@[i as int], i as int),
            decreases order.len() - pos,
        {
            pos = pos + 1;
        }
        proof {
            if pos < order@.len() {
                let q = order@[pos as int] as int;
                lemma_count_lt_total(pairs@[q], q, pairs@[i as int], i as int);
                assert forall|k: int| pos < k < order@.len() implies count_lt(
                    pairs@[i as int],
                    i as int,
                    pairs@[order@[k] as int],
                    order@[k] as int,
                ) by {
                    assert(count_lt(pairs@[q], q, pairs@[order@[k] as int], order@[k] as int));
                    lemma_count_lt_trans(pairs@[i as int], i as int, pairs@[q], q, pairs@[order@[k] as int], order@[k] as int);
                }
            }
        }
        let ghost before = order@;
        order.insert(pos, i);
        proof {
            assert forall|k1: int, k2: int| 0 <= k1 < k2 < order@.len() implies #[trigger] count_lt(
                pairs@[order@[k1] as int],
                order@[k1] as int,
                pairs@[order@[k2] as int],
                order@[k2] as int,
            ) by {
                if k2 < pos {
                    assert(count_lt(pairs@[before[k1] as int], before[k1] as int, pairs@[before[k2] as int], before[k2] as int));
                } else if k2 == pos {
                } else if k1 < pos {
                    assert(count_lt(pairs@[before[k1] as int], before[k1] as int, pairs@[before[k2 - 1] as int], before[k2 - 1] as int));
                } else if k1 == pos {
                } else {
                    assert(count_lt(pairs@[before[k1 - 1] as int], before[k1 - 1] as int, pairs@[before[k2 - 1] as int], before[k2 - 1] as int));
                }
            }
        }
        i = i + 1;
    }
    let mut out: Vec<String> = Vec::new();
    let limit: usize = if pairs.len() < 3 {
        pairs.len()
    } else {
        3
    };
    let mut k: usize = 0;
    while k < limit
        invariant
            k <= limit,
            limit <= order@.len(),
            order@.len() == pairs@.len(),
            forall|j: int| 0 <= j < order@.len() ==> order@[j] < pairs@.len(),
            string_views(out@).len() == k,
            forall|j: int| 0 <= j < k ==> string_views(out@)[j] == pairs@[order@[j] as int].0@,
        decreases limit - k,
    {
        let ghost before = out@;
        let t = pairs[order[k]].0.clone();
        out.push(t);
        proof {
            assert(string_views(out@) =~= string_views(before).push(t@));
        }
        k = k + 1;
    }
    proof {
        assert(top_three_of(string_views(out@), pairs@, order@));
    }
    out
}

fn precedes(a: &(String, u32), ia: usize, b: &(String, u32), ib: usize) -> (r: bool)
    ensures
        r == count_lt(*a, ia as int, *b, ib as int),
{
    if a.1 != b.1 {
        return a.1 > b.1;
    }
    let c = compare_text(a.0.as_str(), b.0.as_str());
    if c != 0 {
        return c < 0;
    }
    ia < ib
}

/// `r` holds the three most frequent of the texts, most frequent first, ties
/// broken by text order.
pub open spec fn most_frequent(r: Seq<Seq<char>>, texts: Seq<Seq<char>>) -> bool {
    exists|pairs: Seq<(String, u32)>| counted(pairs, texts) && #[trigger] top_three(r, pairs)
}

proof fn lemma_dedup_nonempty(s: Seq<Seq<char>>)
    ensures
        dedup_texts(s).len() == 0 <==> s.len() == 0,
{
    if s.len() > 0 {
        lemma_dedup_members(s);
        assert(dedup_texts(s).contains(s[0]));
    }
}

/// The three most frequent texts, most frequent first (ties by text order);
/// empty exactly when there are no texts.
pub fn top_texts(texts: &Vec<Vec<char>>) -> (r: Vec<String>)
    requires
        texts@.len() <= u32::MAX,
    ensures
        most_frequent(string_views(r@), char_views(texts@)),
        r@.len() == 0 <==> texts@.len() == 0,
{
    let pairs = count_texts(texts);
    let r = top_counts(&pairs);
    proof {
        lemma_dedup_nonempty(char_views(texts@));
        let p = choose|p: Seq<usize>| #[trigger] top_three_of(string_views(r@), pairs@, p);
        assert(string_views(r@).len() == r@.len());
    }
    r
}

/// Whether two character sequences are equal.
pub fn same_chars(a: &Vec<char>, b: &Vec<char>) -> (r: bool)
    ensures
        r == (a@ == b@),
{
    if a.len() != b.len() {
        return false;
    }
    let mut i: usize = 0;
    while i < a.len()
        invariant
            i <= a@.len(),
            a@.len() == b@.len(),
            forall|k: int| 0 <= k < i ==> a@[k] == b@[k],
        decreases a.len() - i,
    {
        if a[i] != b[i] {
            return false;
        }
        i = i + 1;
    }
    proof {
        assert(a@ =~= b@);
    }
    true
}

pub proof fn lemma_occurrences_absent(s: Seq<Seq<char>>, k: Seq<char>)
    requires
        !s.contains(k),
    ensures
        occurrences(s, k) == 0,
    decreases s.len(),
{
    if s.len() > 0 {
        assert(s.last() == s[s.len() - 1]);
        assert(!s.drop_last().contains(k)) by {
            if s.drop_last().contains(k) {
                let j = choose|j: int| 0 <= j < s.drop_last().len() && s.drop_last()[j] == k;
                assert(s[j] == k);
            }
        }
        lemma_occurrences_absent(s.drop_last(), k);
    }
}

/// How often `key` occurs among the texts.
pub fn count_of(texts: &Vec<Vec<char>>, key: &Vec<char>) -> (r: usize)
    ensures
        r == occurrences(char_views(texts@), key@),
{
    let ghost all = char_views(texts@);
    let mut n: usize = 0;
    let mut i: usize = 0;
    while i < texts.len()
        invariant
            i <= texts@.len(),
            all == char_views(texts@),
            n == occurrences(all.subrange(0, i as int), key@),
            n <= i,
        decreases texts.len() - i,
    {
        proof {
            lemma_occurrences_step(all, i as int, key@);
        }
        if same_chars(&texts[i], key) {
            n = n + 1;
        }
        i = i + 1;
    }
    proof {
        assert(all.subrange(0, all.len() as int) =~= all);
    }
    n
}

/// The two lists hold the same texts equally often (equal as multisets).
pub open spec fn same_counts(a: Seq<Seq<char>>, b: Seq<Seq<char>>) -> bool {
    forall|k: Seq<char>| #[trigger] occurrences(a, k) == occurrences(b, k)
}

/// Whether the two lists hold the same texts equally often.
pub fn same_multiset(a: &Vec<Vec<char>>, b: &Vec<Vec<char>>) -> (r: bool)
    ensures
        r == same_counts(char_views(a@), char_views(b@)),
{
    let ghost av = char_views(a@);
    let ghost bv = char_views(b@);
    let mut i: usize = 0;
    while i < a.len()
        invariant
            i <= a@.len(),
            av == char_views(a@),
            bv == char_views(b@),
            forall|k: int| 0 <= k < i ==> occurrences(av, #[trigger] av[k]) == occurrences(bv, av[k]),
        decreases a.len() - i,
    {
        if count_of(a, &a[i]) != count_of(b, &a[i]) {
            proof {
                assert(av[i as int] == a@[i as int]@);
            }
            return false;
        }
        proof {
            assert(av[i as int] == a@[i as int]@);
        }
        i = i + 1;
    }
    let mut j: usize = 0;
    while j < b.len()
        invariant
            j <= b@.len(),
            av == char_views(a@),
            bv == char_views(b@),
            forall|k: int| 0 <= k < av.len() ==> occurrences(av, #[trigger] av[k]) == occurrences(bv, av[k]),
            forall|k: int| 0 <= k < j ==> occurrences(av, #[trigger] bv[k]) == occurrences(bv, bv[k]),
        decreases b.len() - j,
    {
        if count_of(a, &b[j]) != count_of(b, &b[j]) {
            proof {
                assert(bv[j as int] == b@[j as int]@);
            }
            return false;
        }
        proof {
            assert(bv[j as int] == b@[j as int]@);
        }
        j = j + 1;
    }
    proof {
        assert forall|k: Seq<char>| #[trigger] occurrences(av, k) == occurrences(bv, k) by {
            if av.contains(k) {
                let x = choose|x: int| 0 <= x < av.len() && av[x] == k;
                assert(occurrences(av, av[x]) == occurrences(bv, av[x]));
            } else if bv.contains(k) {
                let x = choose|x: int| 0 <= x < bv.len() && bv[x] == k;
                assert(occurrences(av, bv[x]) == occurrences(bv, bv[x]));
            } else {
                lemma_occurrences_absent(av, k);
                lemma_occurrences_absent(bv, k);
            }
        }
    }
    true
}

} // verus!
