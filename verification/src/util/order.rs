//! Lexicographic order of texts by character code, the order `str`'s `Ord`
//! gives (UTF-8 byte order and code-point order agree).

use vstd::prelude::*;

verus! {

/// -1, 0 or 1 as `a` comes before, equals or comes after `b`.
pub open spec fn text_order(a: Seq<char>, b: Seq<char>) -> int
    decreases a.len(),
{
    if a.len() == 0 {
        if b.len() == 0 {
            0
        } else {
            -1
        }
    } else if b.len() == 0 {
        1
    } else if a[0] < b[0] {
        -1
    } else if a[0] > b[0] {
        1
    } else {
        text_order(a.drop_first(), b.drop_first())
    }
}

pub proof fn lemma_text_order_basics(a: Seq<char>, b: Seq<char>)
    ensures
        -1 <= text_order(a, b) <= 1,
        text_order(a, b) == 0 <==> a == b,
        text_order(b, a) == -text_order(a, b),
    decreases a.len(),
{
    if a.len() > 0 && b.len() > 0 && a[0] == b[0] {
        lemma_text_order_basics(a.drop_first(), b.drop_first());
        if a.drop_first() == b.drop_first() {
            assert(a =~= seq![a[0]] + a.drop_first());
            assert(b =~= seq![b[0]] + b.drop_first());
        }
    }
    if a.len() == 0 && b.len() == 0 {
        assert(a =~= b);
    }
}

pub proof fn lemma_text_order_trans(a: Seq<char>, b: Seq<char>, c: Seq<char>)
    requires
        text_order(a, b) <= 0,
        text_order(b, c) <= 0,
    ensures
        text_order(a, c) <= 0,
        (text_order(a, b) < 0 || text_order(b, c) < 0) ==> text_order(a, c) < 0,
    decreases a.len(),
{
    lemma_text_order_basics(a, b);
    lemma_text_order_basics(b, c);
    lemma_text_order_basics(a, c);
    if a.len() > 0 && b.len() > 0 && c.len() > 0 {
        if a[0] == b[0] && b[0] == c[0] {
            lemma_text_order_trans(a.drop_first(), b.drop_first(), c.drop_first());
        }
    }
}

/// Compares two texts in the order of `text_order`.
pub fn compare_text(a: &str, b: &str) -> (r: i8)
    ensures
        r == text_order(a@, b@),
{
    let n = a.unicode_len();
    let m = b.unicode_len();
    let mut i: usize = 0;
    proof {
        assert(a@.subrange(0, n as int) =~= a@);
        assert(b@.subrange(0, m as int) =~= b@);
    }
    while i < n && i < m
        invariant
            n == a@.len(),
            m == b@.len(),
            i <= n,
            i <= m,
            a@.subrange(0, i as int) == b@.subrange(0, i as int),
            text_order(a@, b@) == text_order(a@.subrange(i as int, n as int), b@.subrange(i as int, m as int)),
        decreases n - i,
    {
        let x = a.get_char(i);
        let y = b.get_char(i);
        let ghost sa = a@.subrange(i as int, n as int);
        let ghost sb = b@.subrange(i as int, m as int);
        assert(sa[0] == x && sb[0] == y);
        if x < y {
            return -1;
        }
        if x > y {
            return 1;
        }
        proof {
            assert(sa.drop_first() =~= a@.subrange(i + 1, n as int));
            assert(sb.drop_first() =~= b@.subrange(i + 1, m as int));
            assert(a@.subrange(0, i + 1) =~= a@.subrange(0, i as int).push(x));
            assert(b@.subrange(0, i + 1) =~= b@.subrange(0, i as int).push(y));
        }
        i = i + 1;
    }
    if i < m {
        -1
    } else if i < n {
        1
    } else {
        0
    }
}

/// Do two texts hold the same characters?
pub fn same_text(a: &str, b: &str) -> (r: bool)
    ensures
        r == (a@ == b@),
{
    let c = compare_text(a, b);
    proof {
        lemma_text_order_basics(a@, b@);
    }
    c == 0
}

} // verus!
