//! Character-level text helpers: ASCII case folding, substring search,
//! trimming, identifier sanitising and decimal rendering.

use vstd::prelude::*;

verus! {

/// The texts of a sequence of strings.
pub open spec fn string_views(v: Seq<String>) -> Seq<Seq<char>> {
    v.map_values(|s: String| s@)
}

/// ASCII lowercase of one character (other characters are unchanged).
pub open spec fn lower_char(c: char) -> char {
    if 'A' <= c && c <= 'Z' {
        ((c as u32) + 32) as char
    } else {
        c
    }
}

/// ASCII uppercase of one character (other characters are unchanged).
pub open spec fn upper_char(c: char) -> char {
    if 'a' <= c && c <= 'z' {
        ((c as u32) - 32) as char
    } else {
        c
    }
}

pub open spec fn lower_seq(s: Seq<char>) -> Seq<char> {
    s.map_values(|c: char| lower_char(c))
}

pub open spec fn upper_seq(s: Seq<char>) -> Seq<char> {
    s.map_values(|c: char| upper_char(c))
}

pub open spec fn is_ascii_alnum(c: char) -> bool {
    ('a' <= c && c <= 'z') || ('A' <= c && c <= 'Z') || ('0' <= c && c <= '9')
}

/// The characters that `char::is_whitespace` accepts (Unicode White_Space).
pub open spec fn is_white(c: char) -> bool {
    ||| c == ' '
    ||| ('\t' <= c && c <= '\r')
    ||| c == '\u{85}'
    ||| c == '\u{a0}'
    ||| c == '\u{1680}'
    ||| ('\u{2000}' <= c && c <= '\u{200a}')
    ||| c == '\u{2028}'
    ||| c == '\u{2029}'
    ||| c == '\u{202f}'
    ||| c == '\u{205f}'
    ||| c == '\u{3000}'
}

/// `needle` occurs in `hay` at position `i`.
pub open spec fn occurs_at(hay: Seq<char>, needle: Seq<char>, i: int) -> bool {
    0 <= i && i + needle.len() <= hay.len() && hay.subrange(i, i + needle.len()) == needle
}

/// `needle` occurs somewhere in `hay` (the empty needle occurs everywhere).
pub open spec fn seq_contains(hay: Seq<char>, needle: Seq<char>) -> bool {
    exists|i: int| #[trigger] occurs_at(hay, needle, i)
}

pub open spec fn starts_with(s: Seq<char>, prefix: Seq<char>) -> bool {
    prefix.len() <= s.len() && s.subrange(0, prefix.len() as int) == prefix
}

/// Equality up to ASCII case, as `str::eq_ignore_ascii_case` decides it.
pub open spec fn eq_ignore_case(a: Seq<char>, b: Seq<char>) -> bool {
    lower_seq(a) == lower_seq(b)
}

/// Number of leading whitespace characters.
pub open spec fn leading_white(s: Seq<char>) -> nat
    decreases s.len(),
{
    if s.len() > 0 && is_white(s[0]) {
        1 + leading_white(s.drop_first())
    } else {
        0
    }
}

/// Number of trailing whitespace characters.
pub open spec fn trailing_white(s: Seq<char>) -> nat
    decreases s.len(),
{
    if s.len() > 0 && is_white(s.last()) {
        1 + trailing_white(s.drop_last())
    } else {
        0
    }
}

/// `s` without its leading whitespace (`str::trim_start`).
pub open spec fn trim_start_seq(s: Seq<char>) -> Seq<char> {
    s.subrange(leading_white(s) as int, s.len() as int)
}

/// `s` without leading and trailing whitespace (`str::trim`).
pub open spec fn trim_seq(s: Seq<char>) -> Seq<char> {
    let t = trim_start_seq(s);
    t.subrange(0, t.len() - trailing_white(t))
}

/// Every character that is not an ASCII letter or digit becomes `_`.
pub open spec fn underscore_char(c: char) -> char {
    if is_ascii_alnum(c) {
        c
    } else {
        '_'
    }
}

/// Trimmed, lowercased, every non-alphanumeric character replaced by `_`.
pub open spec fn sanitized(s: Seq<char>) -> Seq<char> {
    lower_seq(trim_seq(s)).map_values(|c: char| underscore_char(c))
}

/// Decimal digits of a natural number, most significant first, no padding.
pub open spec fn decimal_digits(n: nat) -> Seq<char>
    decreases n,
{
    if n < 10 {
        seq![digit_char(n)]
    } else {
        decimal_digits(n / 10).push(digit_char(n % 10))
    }
}

pub open spec fn digit_char(d: nat) -> char {
    if d < 10 {
        ((d + 48) as u32) as char
    } else {
        '?'
    }
}

pub proof fn lemma_leading_white_bound(s: Seq<char>)
    ensures
        leading_white(s) <= s.len(),
    decreases s.len(),
{
    if s.len() > 0 && is_white(s[0]) {
        lemma_leading_white_bound(s.drop_first());
    }
}

pub proof fn lemma_trailing_white_bound(s: Seq<char>)
    ensures
        trailing_white(s) <= s.len(),
    decreases s.len(),
{
    if s.len() > 0 && is_white(s.last()) {
        lemma_trailing_white_bound(s.drop_last());
    }
}

pub proof fn lemma_leading_white_skip(s: Seq<char>, i: int)
    requires
        0 <= i <= s.len(),
        forall|j: int| 0 <= j < i ==> is_white(#[trigger] s[j]),
    ensures
        leading_white(s) == i + leading_white(s.subrange(i, s.len() as int)),
    decreases i,
{
    if i > 0 {
        let t = s.drop_first();
        assert forall|j: int| 0 <= j < i - 1 implies is_white(#[trigger] t[j]) by {
            assert(t[j] == s[j + 1]);
        }
        lemma_leading_white_skip(t, i - 1);
        assert(t.subrange(i - 1, t.len() as int) =~= s.subrange(i, s.len() as int));
    } else {
        assert(s.subrange(0, s.len() as int) =~= s);
    }
}

pub proof fn lemma_trailing_white_skip(s: Seq<char>, k: int)
    requires
        0 <= k <= s.len(),
        forall|j: int| s.len() - k <= j < s.len() ==> is_white(#[trigger] s[j]),
    ensures
        trailing_white(s) == k + trailing_white(s.subrange(0, s.len() - k)),
    decreases k,
{
    if k > 0 {
        let t = s.drop_last();
        assert forall|j: int| t.len() - (k - 1) <= j < t.len() implies is_white(#[trigger] t[j]) by {
            assert(t[j] == s[j]);
        }
        lemma_trailing_white_skip(t, k - 1);
        assert(t.subrange(0, t.len() - (k - 1)) =~= s.subrange(0, s.len() - k));
    } else {
        assert(s.subrange(0, s.len() as int) =~= s);
    }
}

pub fn lower_ascii(c: char) -> (r: char)
    ensures
        r == lower_char(c),
{
    if 'A' <= c && c <= 'Z' {
        let v: u8 = (c as u8) + 32;
        v as char
    } else {
        c
    }
}

pub fn upper_ascii(c: char) -> (r: char)
    ensures
        r == upper_char(c),
{
    if 'a' <= c && c <= 'z' {
        let v: u8 = (c as u8) - 32;
        v as char
    } else {
        c
    }
}

pub fn is_alnum(c: char) -> (r: bool)
    ensures
        r == is_ascii_alnum(c),
{
    ('a' <= c && c <= 'z') || ('A' <= c && c <= 'Z') || ('0' <= c && c <= '9')
}

pub fn is_whitespace_char(c: char) -> (r: bool)
    ensures
        r == is_white(c),
{
    c == ' ' || ('\t' <= c && c <= '\r') || c == '\u{85}' || c == '\u{a0}' || c == '\u{1680}'
        || ('\u{2000}' <= c && c <= '\u{200a}') || c == '\u{2028}' || c == '\u{2029}' || c
        == '\u{202f}' || c == '\u{205f}' || c == '\u{3000}'
}

/// The characters of a string slice.
pub fn chars_of(s: &str) -> (r: Vec<char>)
    ensures
        r@ == s@,
{
    let n = s.unicode_len();
    let mut out: Vec<char> = Vec::new();
    let mut i: usize = 0;
    while i < n
        invariant
            n == s@.len(),
            i <= n,
            out@ == s@.subrange(0, i as int),
        decreases n - i,
    {
        out.push(s.get_char(i));
        i = i + 1;
    }
    out
}

/// The characters of a string slice, ASCII-lowercased.
pub fn lower_chars(s: &str) -> (r: Vec<char>)
    ensures
        r@ == lower_seq(s@),
{
    let n = s.unicode_len();
    let mut out: Vec<char> = Vec::new();
    let mut i: usize = 0;
    while i < n
        invariant
            n == s@.len(),
            i <= n,
            out@ == lower_seq(s@.subrange(0, i as int)),
        decreases n - i,
    {
        let c = lower_ascii(s.get_char(i));
        out.push(c);
        proof {
            assert(lower_seq(s@.subrange(0, i + 1)) =~= lower_seq(s@.subrange(0, i as int)).push(
                lower_char(s@[i as int]),
            ));
        }
        i = i + 1;
    }
    proof {
        assert(s@.subrange(0, n as int) =~= s@);
    }
    out
}

/// Appends one character to a string.
/// Trusted: `String::push` appends the character to the end of the string.
#[verifier::external_body]
pub(crate) fn push_char(s: &mut String, c: char)
    ensures
        final(s)@ == old(s)@.push(c),
{
    s.push(c);
}

/// A string holding exactly the given characters.
pub fn string_of(cs: &Vec<char>) -> (r: String)
    ensures
        r@ == cs@,
{
    let mut out = String::new();
    let mut i: usize = 0;
    while i < cs.len()
        invariant
            i <= cs.len(),
            out@ == cs@.subrange(0, i as int),
        decreases cs.len() - i,
    {
        push_char(&mut out, cs[i]);
        proof {
            assert(cs@.subrange(0, i + 1) =~= cs@.subrange(0, i as int).push(cs@[i as int]));
        }
        i = i + 1;
    }
    proof {
        assert(cs@.subrange(0, cs.len() as int) =~= cs@);
    }
    out
}

/// An owned copy of a string slice.
pub fn owned(s: &str) -> (r: String)
    ensures
        r@ == s@,
{
    String::from_str(s)
}

/// `needle` occurs in `hay` at position `i` (executable check).
fn matches_at(hay: &Vec<char>, needle: &Vec<char>, i: usize) -> (r: bool)
    requires
        i + needle@.len() <= hay@.len(),
    ensures
        r == occurs_at(hay@, needle@, i as int),
{
    let h = hay.len();
    let mut k: usize = 0;
    while k < needle.len()
        invariant
            h == hay@.len(),
            i + needle@.len() <= hay@.len(),
            k <= needle@.len(),
            forall|j: int| 0 <= j < k ==> hay@[i + j] == needle@[j],
        decreases needle.len() - k,
    {
        if hay[i + k] != needle[k] {
            proof {
                assert(hay@.subrange(i as int, i + needle@.len())[k as int] != needle@[k as int]);
            }
            return false;
        }
        k = k + 1;
    }
    proof {
        assert(hay@.subrange(i as int, i + needle@.len()) =~= needle@);
    }
    true
}

/// Substring search over character vectors.
pub fn contains_seq(hay: &Vec<char>, needle: &Vec<char>) -> (r: bool)
    ensures
        r == seq_contains(hay@, needle@),
{
    if needle.len() > hay.len() {
        proof {
            assert forall|i: int| !occurs_at(hay@, needle@, i) by {}
        }
        return false;
    }
    let last = hay.len() - needle.len();
    let mut i: usize = 0;
    loop
        invariant
            last == hay@.len() - needle@.len(),
            i <= last,
            forall|j: int| 0 <= j < i ==> !occurs_at(hay@, needle@, j),
        ensures
            forall|j: int| 0 <= j <= last ==> !occurs_at(hay@, needle@, j),
        decreases last - i,
    {
        if matches_at(hay, needle, i) {
            return true;
        }
        if i == last {
            break;
        }
        i = i + 1;
    }
    proof {
        assert forall|j: int| !occurs_at(hay@, needle@, j) by {
            if 0 <= j <= last {
            } else {
            }
        }
    }
    false
}

/// Does `hay` (already a character vector) contain the string `needle`?
pub fn has_text(hay: &Vec<char>, needle: &str) -> (r: bool)
    ensures
        r == seq_contains(hay@, needle@),
{
    let n = chars_of(needle);
    contains_seq(hay, &n)
}

pub fn starts_with_text(s: &Vec<char>, prefix: &str) -> (r: bool)
    ensures
        r == starts_with(s@, prefix@),
{
    let p = chars_of(prefix);
    if p.len() > s.len() {
        return false;
    }
    let mut k: usize = 0;
    while k < p.len()
        invariant
            p@ == prefix@,
            p@.len() <= s@.len(),
            k <= p@.len(),
            forall|j: int| 0 <= j < k ==> s@[j] == p@[j],
        decreases p.len() - k,
    {
        if s[k] != p[k] {
            proof {
                assert(s@.subrange(0, p@.len() as int)[k as int] != p@[k as int]);
            }
            return false;
        }
        k = k + 1;
    }
    proof {
        assert(s@.subrange(0, p@.len() as int) =~= p@);
    }
    true
}

/// Equality up to ASCII case (`str::eq_ignore_ascii_case`).
pub fn eq_ignore_case_text(a: &str, b: &str) -> (r: bool)
    ensures
        r == eq_ignore_case(a@, b@),
{
    let la = lower_chars(a);
    let lb = lower_chars(b);
    if la.len() != lb.len() {
        proof {
            assert(lower_seq(a@).len() != lower_seq(b@).len());
        }
        return false;
    }
    let mut k: usize = 0;
    while k < la.len()
        invariant
            la@ == lower_seq(a@),
            lb@ == lower_seq(b@),
            la@.len() == lb@.len(),
            k <= la@.len(),
            forall|j: int| 0 <= j < k ==> la@[j] == lb@[j],
        decreases la.len() - k,
    {
        if la[k] != lb[k] {
            return false;
        }
        k = k + 1;
    }
    proof {
        assert(la@ =~= lb@);
    }
    true
}

/// Characters of `s` with leading and trailing whitespace removed (`str::trim`).
pub fn trimmed_chars(s: &Vec<char>) -> (r: Vec<char>)
    ensures
        r@ == trim_seq(s@),
{
    let n = s.len();
    let mut start: usize = 0;
    while start < n && is_whitespace_char(s[start])
        invariant
            n == s@.len(),
            start <= n,
            forall|j: int| 0 <= j < start ==> is_white(#[trigger] s@[j]),
        decreases n - start,
    {
        start = start + 1;
    }
    proof {
        lemma_leading_white_skip(s@, start as int);
        let rest = s@.subrange(start as int, n as int);
        if start < n {
            assert(rest[0] == s@[start as int]);
        }
        assert(leading_white(rest) == 0);
    }
    let ghost t = trim_start_seq(s@);
    assert(t =~= s@.subrange(start as int, n as int));
    let mut end: usize = n;
    while end > start && is_whitespace_char(s[end - 1])
        invariant
            n == s@.len(),
            start <= end <= n,
            t =~= s@.subrange(start as int, n as int),
            forall|j: int| end <= j < n ==> is_white(#[trigger] s@[j]),
        decreases end - start,
    {
        end = end - 1;
    }
    proof {
        let k = (n - end) as int;
        assert forall|j: int| t.len() - k <= j < t.len() implies is_white(#[trigger] t[j]) by {
            assert(t[j] == s@[start + j]);
        }
        lemma_trailing_white_skip(t, k);
        let rest = t.subrange(0, t.len() - k);
        if end > start {
            assert(rest.last() == s@[end - 1]);
        }
        assert(trailing_white(rest) == 0);
    }
    let mut out: Vec<char> = Vec::new();
    let mut i: usize = start;
    while i < end
        invariant
            n == s@.len(),
            start <= i <= end <= n,
            out@ == s@.subrange(start as int, i as int),
        decreases end - i,
    {
        out.push(s[i]);
        proof {
            assert(s@.subrange(start as int, i + 1) =~= s@.subrange(start as int, i as int).push(
                s@[i as int],
            ));
        }
        i = i + 1;
    }
    proof {
        assert(out@ =~= trim_seq(s@));
    }
    out
}

/// A string slice, trimmed, as an owned string (`str::trim` then `to_string`).
pub fn trimmed(s: &str) -> (r: String)
    ensures
        r@ == trim_seq(s@),
{
    let cs = chars_of(s);
    let t = trimmed_chars(&cs);
    string_of(&t)
}

/// ASCII-uppercase of a character vector.
pub fn upper_of(s: &Vec<char>) -> (r: Vec<char>)
    ensures
        r@ == upper_seq(s@),
{
    let mut out: Vec<char> = Vec::new();
    let mut i: usize = 0;
    while i < s.len()
        invariant
            i <= s.len(),
            out@ == upper_seq(s@.subrange(0, i as int)),
        decreases s.len() - i,
    {
        out.push(upper_ascii(s[i]));
        proof {
            assert(upper_seq(s@.subrange(0, i + 1)) =~= upper_seq(s@.subrange(0, i as int)).push(
                upper_char(s@[i as int]),
            ));
        }
        i = i + 1;
    }
    proof {
        assert(s@.subrange(0, s.len() as int) =~= s@);
    }
    out
}

/// ASCII-lowercase of a character vector.
pub fn lower_of(s: &Vec<char>) -> (r: Vec<char>)
    ensures
        r@ == lower_seq(s@),
{
    let mut out: Vec<char> = Vec::new();
    let mut i: usize = 0;
    while i < s.len()
        invariant
            i <= s.len(),
            out@ == lower_seq(s@.subrange(0, i as int)),
        decreases s.len() - i,
    {
        out.push(lower_ascii(s[i]));
        proof {
            assert(lower_seq(s@.subrange(0, i + 1)) =~= lower_seq(s@.subrange(0, i as int)).push(
                lower_char(s@[i as int]),
            ));
        }
        i = i + 1;
    }
    proof {
        assert(s@.subrange(0, s.len() as int) =~= s@);
    }
    out
}

/// Identifier sanitising: trim, ASCII-lowercase, and replace every character
/// that is not an ASCII letter or digit by `_`.
pub fn sanitize_identifier(value: &str) -> (r: String)
    ensures
        r@ == sanitized(value@),
{
    let cs = chars_of(value);
    let t = trimmed_chars(&cs);
    let l = lower_of(&t);
    let mut out: Vec<char> = Vec::new();
    let mut i: usize = 0;
    while i < l.len()
        invariant
            i <= l.len(),
            out@ == l@.subrange(0, i as int).map_values(|c: char| underscore_char(c)),
        decreases l.len() - i,
    {
        let c = l[i];
        let d = if is_alnum(c) {
            c
        } else {
            '_'
        };
        out.push(d);
        proof {
            assert(l@.subrange(0, i + 1).map_values(|c: char| underscore_char(c)) =~= l@.subrange(
                0,
                i as int,
            ).map_values(|c: char| underscore_char(c)).push(underscore_char(c)));
        }
        i = i + 1;
    }
    proof {
        assert(l@.subrange(0, l.len() as int) =~= l@);
    }
    string_of(&out)
}

/// Decimal rendering of an unsigned integer: its digits, most significant
/// first, without sign or padding.
pub(crate) fn decimal_text(n: u128) -> (r: String)
    ensures
        r@ == decimal_digits(n as nat),
    decreases n,
{
    if n < 10 {
        let mut out = String::new();
        push_char(&mut out, digit(n));
        proof {
            assert(out@ =~= seq![digit_char(n as nat)]);
        }
        out
    } else {
        let mut out = decimal_text(n / 10);
        push_char(&mut out, digit(n % 10));
        out
    }
}

/// A tenths count rendered with one decimal place (`42` becomes `4.2`).
pub open spec fn tenths_digits(t: nat) -> Seq<char> {
    decimal_digits(t / 10) + seq!['.', digit_char(t % 10)]
}

pub fn digit(d: u128) -> (r: char)
    requires
        d < 10,
    ensures
        r == digit_char(d as nat),
{
    let v: u8 = (d as u8) + 48;
    v as char
}

pub fn tenths_text(t: u128) -> (r: String)
    ensures
        r@ == tenths_digits(t as nat),
{
    let mut out = decimal_text(t / 10);
    push_char(&mut out, '.');
    push_char(&mut out, digit(t % 10));
    proof {
        assert(out@ =~= tenths_digits(t as nat));
    }
    out
}

/// Concatenation of owned strings (`a + b`).
pub fn concat2(a: String, b: &str) -> (r: String)
    ensures
        r@ == a@ + b@,
{
    a.concat(b)
}

/// A hundredths count rendered with two decimal places (`742` becomes `7.42`).
pub open spec fn hundredths_digits(h: nat) -> Seq<char> {
    decimal_digits(h / 100) + seq!['.', digit_char((h / 10) % 10), digit_char(h % 10)]
}

pub fn hundredths_text(h: u128) -> (r: String)
    ensures
        r@ == hundredths_digits(h as nat),
{
    let mut out = decimal_text(h / 100);
    push_char(&mut out, '.');
    push_char(&mut out, digit((h / 10) % 10));
    push_char(&mut out, digit(h % 10));
    proof {
        assert(out@ =~= hundredths_digits(h as nat));
    }
    out
}

/// A unit score (ten-thousandths) rounded to hundredths, as `{:.2}` shows it.
pub open spec fn score_hundredths(x: int) -> nat {
    ((x / 100) + if x % 100 >= 50 {
        1int
    } else {
        0int
    }) as nat
}

pub fn score_text(x: i64) -> (r: String)
    requires
        0 <= x,
    ensures
        r@ == hundredths_digits(score_hundredths(x as int)),
{
    let h = (x / 100) + if x % 100 >= 50 {
        1
    } else {
        0
    };
    hundredths_text(h as u128)
}

/// A copy of a list of strings.
pub fn copy_texts(v: &Vec<String>) -> (r: Vec<String>)
    ensures
        r@ == v@,
{
    let mut out: Vec<String> = Vec::new();
    let mut i: usize = 0;
    while i < v.len()
        invariant
            i <= v.len(),
            out@ == v@.subrange(0, i as int),
        decreases v.len() - i,
    {
        out.push(v[i].clone());
        proof {
            assert(v@.subrange(0, i + 1) =~= v@.subrange(0, i as int).push(v@[i as int]));
        }
        i = i + 1;
    }
    proof {
        assert(v@.subrange(0, v.len() as int) =~= v@);
    }
    out
}

} // verus!
