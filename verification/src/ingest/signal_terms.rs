//! The terms a public signal is summarised by: themes from article titles,
//! organizations from article sources, and query words when titles give none.

use vstd::prelude::*;
use crate::derive::stance::take_n;
use crate::ingest::public_signals::{JsonText, SignalArticle};
use crate::util::text::{lower_of, lower_seq, string_of, string_views};
use crate::util::tokens::{char_views, pieces, split_pieces, strip_quote_chars, strip_quotes, Separator};

verus! {

/// The texts longer than `n` characters, in order.
pub open spec fn longer_than(s: Seq<Seq<char>>, n: nat) -> Seq<Seq<char>>
    decreases s.len(),
{
    if s.len() == 0 {
        Seq::empty()
    } else if s.last().len() > n {
        longer_than(s.drop_last(), n).push(s.last())
    } else {
        longer_than(s.drop_last(), n)
    }
}

/// The themes of one title: its first six alphanumeric runs longer than four
/// characters, lowercased.
pub open spec fn title_themes(title: Seq<char>) -> Seq<Seq<char>> {
    take_n(longer_than(pieces(title, Separator::NonAlphanumeric), 4), 6).map_values(|t: Seq<char>| lower_seq(t))
}

/// The themes of all titles that are strings, article by article.
pub open spec fn theme_texts(arts: Seq<SignalArticle>) -> Seq<Seq<char>>
    decreases arts.len(),
{
    if arts.len() == 0 {
        Seq::empty()
    } else {
        match arts.last().title {
            JsonText::Text(t) => theme_texts(arts.drop_last()) + title_themes(t@),
            _ => theme_texts(arts.drop_last()),
        }
    }
}

pub open spec fn text_field(f: JsonText) -> Seq<Seq<char>> {
    match f {
        JsonText::Text(t) => seq![t@],
        _ => Seq::empty(),
    }
}

/// The source name, domain and source country of an article, those that are
/// strings.
pub open spec fn org_fields(a: SignalArticle) -> Seq<Seq<char>> {
    text_field(a.source_common_name) + text_field(a.domain) + text_field(a.source_country)
}

pub open spec fn org_texts(arts: Seq<SignalArticle>) -> Seq<Seq<char>>
    decreases arts.len(),
{
    if arts.len() == 0 {
        Seq::empty()
    } else {
        org_texts(arts.drop_last()) + org_fields(arts.last())
    }
}

/// The query's whitespace-separated words, outer quotes removed, lowercased.
pub open spec fn query_words(query: Seq<char>) -> Seq<Seq<char>> {
    longer_than(pieces(query, Separator::Whitespace), 0).map_values(|w: Seq<char>| lower_seq(strip_quotes(w)))
}

/// The texts whose UTF-8 encoding is longer than `n` bytes, in order.
pub open spec fn longer_in_bytes(s: Seq<Seq<char>>, n: nat) -> Seq<Seq<char>>
    decreases s.len(),
{
    if s.len() == 0 {
        Seq::empty()
    } else if vstd::utf8::encode_utf8(s.last()).len() > n {
        longer_in_bytes(s.drop_last(), n).push(s.last())
    } else {
        longer_in_bytes(s.drop_last(), n)
    }
}

/// Themes taken from the query: its first three words longer than three bytes.
pub open spec fn query_themes(query: Seq<char>) -> Seq<Seq<char>> {
    take_n(longer_in_bytes(query_words(query), 3), 3)
}

fn keep_longer(ps: &Vec<Vec<char>>, n: usize) -> (r: Vec<Vec<char>>)
    ensures
        char_views(r@) == longer_than(char_views(ps@), n as nat),
        r@.len() <= ps@.len(),
{
    let ghost all = char_views(ps@);
    let mut out: Vec<Vec<char>> = Vec::new();
    let mut i: usize = 0;
    proof {
        assert(all.subrange(0, 0) =~= Seq::<Seq<char>>::empty());
    }
    while i < ps.len()
        invariant
            i <= ps@.len(),
            all == char_views(ps@),
            char_views(out@) == longer_than(all.subrange(0, i as int), n as nat),
            out@.len() <= i,
        decreases ps.len() - i,
    {
        proof {
            assert(all.subrange(0, i + 1).drop_last() =~= all.subrange(0, i as int));
            assert(all.subrange(0, i + 1).last() == ps@[i as int]@);
        }
        if ps[i].len() > n {
            let ghost before = char_views(out@);
            out.push(ps[i].clone());
            proof {
                assert(char_views(out@) =~= before.push(ps@[i as int]@));
            }
        }
        i = i + 1;
    }
    proof {
        assert(all.subrange(0, all.len() as int) =~= all);
    }
    out
}

/// The themes of one title.
pub fn title_theme_list(title: &str) -> (r: Vec<Vec<char>>)
    ensures
        char_views(r@) == title_themes(title@),
        r@.len() <= 6,
{
    let ps = split_pieces(title, Separator::NonAlphanumeric);
    let long = keep_longer(&ps, 4);
    let limit: usize = if long.len() < 6 {
        long.len()
    } else {
        6
    };
    let ghost kept = take_n(char_views(long@), 6);
    let mut out: Vec<Vec<char>> = Vec::new();
    let mut j: usize = 0;
    while j < limit
        invariant
            j <= limit,
            limit <= long@.len(),
            kept.len() == limit,
            forall|k: int| 0 <= k < limit ==> kept[k] == long@[k]@,
            char_views(out@) == kept.subrange(0, j as int).map_values(|t: Seq<char>| lower_seq(t)),
        decreases limit - j,
    {
        let ghost before = char_views(out@);
        let w = lower_of(&long[j]);
        out.push(w);
        proof {
            assert(char_views(out@) =~= before.push(w@));
            assert(kept.subrange(0, j + 1).map_values(|t: Seq<char>| lower_seq(t)) =~= kept.subrange(
                0,
                j as int,
            ).map_values(|t: Seq<char>| lower_seq(t)).push(lower_seq(kept[j as int])));
        }
        j = j + 1;
    }
    proof {
        assert(kept.subrange(0, limit as int) =~= kept);
    }
    out
}

fn append_views(out: &mut Vec<Vec<char>>, more: Vec<Vec<char>>)
    ensures
        char_views(final(out)@) == char_views(old(out)@) + char_views(more@),
        final(out)@.len() == old(out)@.len() + more@.len(),
{
    let ghost start = char_views(out@);
    let mut k: usize = 0;
    while k < more.len()
        invariant
            k <= more@.len(),
            out@.len() == old(out)@.len() + k,
            start == char_views(old(out)@),
            char_views(out@) == start + char_views(more@).subrange(0, k as int),
        decreases more.len() - k,
    {
        let ghost before = char_views(out@);
        out.push(more[k].clone());
        proof {
            assert(char_views(out@) =~= before.push(more@[k as int]@));
            assert(char_views(more@).subrange(0, k + 1) =~= char_views(more@).subrange(0, k as int).push(
                more@[k as int]@,
            ));
        }
        k = k + 1;
    }
    proof {
        assert(char_views(more@).subrange(0, more@.len() as int) =~= char_views(more@));
    }
}

/// The themes of all article titles.
pub fn theme_list(articles: &Vec<SignalArticle>) -> (r: Vec<Vec<char>>)
    ensures
        char_views(r@) == theme_texts(articles@),
        r@.len() <= 6 * articles@.len(),
{
    let mut out: Vec<Vec<char>> = Vec::new();
    let mut i: usize = 0;
    proof {
        assert(articles@.subrange(0, 0) =~= Seq::<SignalArticle>::empty());
    }
    while i < articles.len()
        invariant
            i <= articles@.len(),
            char_views(out@) == theme_texts(articles@.subrange(0, i as int)),
            out@.len() <= 6 * i,
        decreases articles.len() - i,
    {
        proof {
            assert(articles@.subrange(0, i + 1).drop_last() =~= articles@.subrange(0, i as int));
            assert(articles@.subrange(0, i + 1).last() == articles@[i as int]);
        }
        match &articles[i].title {
            JsonText::Text(t) => {
                let more = title_theme_list(t.as_str());
                append_views(&mut out, more);
            },
            _ => {},
        }
        i = i + 1;
    }
    proof {
        assert(articles@.subrange(0, articles@.len() as int) =~= articles@);
    }
    out
}

fn push_field(out: &mut Vec<Vec<char>>, f: &JsonText)
    ensures
        char_views(final(out)@) == char_views(old(out)@) + text_field(*f),
        final(out)@.len() <= old(out)@.len() + 1,
{
    match f {
        JsonText::Text(t) => {
            let ghost before = char_views(out@);
            let cs = crate::util::text::chars_of(t.as_str());
            out.push(cs);
            proof {
                assert(char_views(out@) =~= before + seq![t@]);
            }
        },
        _ => {
            proof {
                assert(char_views(out@) =~= char_views(out@) + Seq::<Seq<char>>::empty());
            }
        },
    }
}

/// The organization texts of all articles.
pub fn org_list(articles: &Vec<SignalArticle>) -> (r: Vec<Vec<char>>)
    ensures
        char_views(r@) == org_texts(articles@),
        r@.len() <= 3 * articles@.len(),
{
    let mut out: Vec<Vec<char>> = Vec::new();
    let mut i: usize = 0;
    proof {
        assert(articles@.subrange(0, 0) =~= Seq::<SignalArticle>::empty());
    }
    while i < articles.len()
        invariant
            i <= articles@.len(),
            char_views(out@) == org_texts(articles@.subrange(0, i as int)),
            out@.len() <= 3 * i,
        decreases articles.len() - i,
    {
        proof {
            assert(articles@.subrange(0, i + 1).drop_last() =~= articles@.subrange(0, i as int));
            assert(articles@.subrange(0, i + 1).last() == articles@[i as int]);
        }
        let ghost before = char_views(out@);
        let a = &articles[i];
        push_field(&mut out, &a.source_common_name);
        push_field(&mut out, &a.domain);
        push_field(&mut out, &a.source_country);
        proof {
            assert(char_views(out@) =~= before + org_fields(articles@[i as int]));
        }
        i = i + 1;
    }
    proof {
        assert(articles@.subrange(0, articles@.len() as int) =~= articles@);
    }
    out
}

/// The themes a query gives: its first three words longer than three bytes.
pub fn query_theme_list(query: &str) -> (r: Vec<String>)
    ensures
        string_views(r@) == query_themes(query@),
{
    let ps = split_pieces(query, Separator::Whitespace);
    let words = keep_longer(&ps, 0);
    let ghost ws = query_words(query@);
    let mut long: Vec<String> = Vec::new();
    let mut i: usize = 0;
    proof {
        assert(ws.len() == words@.len());
        assert(ws.subrange(0, 0) =~= Seq::<Seq<char>>::empty());
        assert forall|k: int| 0 <= k < ws.len() implies ws[k] == lower_seq(strip_quotes(#[trigger] words@[k]@)) by {
            assert(char_views(words@)[k] == words@[k]@);
        }
    }
    while i < words.len()
        invariant
            i <= words@.len(),
            ws.len() == words@.len(),
            forall|k: int| 0 <= k < ws.len() ==> ws[k] == lower_seq(strip_quotes(#[trigger] words@[k]@)),
            string_views(long@) == longer_in_bytes(ws.subrange(0, i as int), 3),
        decreases words.len() - i,
    {
        let w = lower_of(&strip_quote_chars(&words[i]));
        let text = string_of(&w);
        proof {
            assert(ws.subrange(0, i + 1).drop_last() =~= ws.subrange(0, i as int));
            assert(ws.subrange(0, i + 1).last() == ws[i as int]);
            assert(ws[i as int] == text@);
        }
        let bytes = text.as_str().as_bytes();
        if bytes.len() > 3 {
            let ghost before = string_views(long@);
            long.push(text);
            proof {
                assert(string_views(long@) =~= before.push(ws[i as int]));
            }
        }
        i = i + 1;
    }
    proof {
        assert(ws.subrange(0, ws.len() as int) =~= ws);
    }
    crate::derive::stance::truncate_texts(&mut long, 3);
    long
}

} // verus!
