//! Rewriting a raw search query into a form the full-text index accepts:
//! punctuation that breaks the match syntax becomes spaces, double quotes
//! are balanced, and an unquoted tail turns into a prefix search.

use vstd::prelude::*;

use crate::strutil::{chars_of, string_of_chars};

verus! {

/// Punctuation the full-text match syntax chokes on becomes a space; every
/// other character stays.
pub open spec fn fts5_char(c: char) -> char {
    if c == '.' || c == '\'' || c == ',' || c == '-' {
        ' '
    } else {
        c
    }
}

/// The query with breaking punctuation replaced by spaces.
pub open spec fn fts5_strip(s: Seq<char>) -> Seq<char> {
    s.map_values(|c: char| fts5_char(c))
}

/// How many double quotes the sequence holds.
pub open spec fn count_quotes(s: Seq<char>) -> int
    decreases s.len(),
{
    if s.len() == 0 {
        0
    } else {
        count_quotes(s.drop_last()) + if s.last() == '"' {
            1int
        } else {
            0int
        }
    }
}

/// A lone trailing quote is closed so the quote count comes out even.
pub open spec fn fts5_balance(s: Seq<char>) -> Seq<char> {
    if count_quotes(s) % 2 == 1 {
        s.push('"')
    } else {
        s
    }
}

/// Replacing punctuation by spaces leaves the double quotes alone, so the
/// quote count of a stripped query equals that of the raw one.
pub proof fn lemma_count_quotes_strip(s: Seq<char>)
    ensures
        count_quotes(fts5_strip(s)) == count_quotes(s),
    decreases s.len(),
{
    if s.len() == 0 {
        assert(fts5_strip(s) =~= Seq::<char>::empty());
    } else {
        lemma_count_quotes_strip(s.drop_last());
        assert(fts5_strip(s).drop_last() =~= fts5_strip(s.drop_last()));
        assert(fts5_strip(s).last() == fts5_char(s.last()));
        assert((fts5_char(s.last()) == '"') == (s.last() == '"'));
    }
}

/// A query that does not end in a quote gets a prefix-search star.
pub open spec fn fts5_star(s: Seq<char>) -> Seq<char> {
    if s.len() > 0 && s.last() == '"' {
        s
    } else {
        s.push('*')
    }
}

/// The full rewrite: strip punctuation, balance quotes, then star.
pub open spec fn fts5_query(s: Seq<char>) -> Seq<char> {
    fts5_star(fts5_balance(fts5_strip(s)))
}

/// Rewrite a raw search query for the full-text index.
pub fn convert_query_for_fts5(query: String) -> (r: String)
    ensures
        r@ == fts5_query(query@),
{
    let chars = chars_of(query.as_str());
    let mut out: Vec<char> = Vec::new();
    let mut quotes: usize = 0;
    let mut i: usize = 0;
    while i < chars.len()
        invariant
            chars@ == query@,
            i <= chars@.len(),
            out@ =~= fts5_strip(chars@.take(i as int)),
            quotes == count_quotes(chars@.take(i as int)),
            quotes <= i,
        decreases chars@.len() - i,
    {
        let c = chars[i];
        if c == '.' || c == '\'' || c == ',' || c == '-' {
            out.push(' ');
        } else {
            out.push(c);
        }
        if c == '"' {
            quotes += 1;
        }
        proof {
            assert(chars@.take(i as int + 1).drop_last() =~= chars@.take(i as int));
            assert(chars@.take(i as int + 1).last() == chars@[i as int]);
            assert(out@ =~= fts5_strip(chars@.take(i as int + 1)));
        }
        i += 1;
    }
    proof {
        assert(chars@.take(chars@.len() as int) =~= chars@);
        lemma_count_quotes_strip(query@);
    }
    if quotes % 2 == 1 {
        out.push('"');
        proof {
            assert(out@ =~= fts5_balance(fts5_strip(query@)));
        }
    }
    proof {
        assert(out@ =~= fts5_balance(fts5_strip(query@)));
    }
    let put_star: bool = if out.len() == 0 {
        true
    } else {
        out[out.len() - 1] != '"'
    };
    if put_star {
        out.push('*');
    }
    string_of_chars(&out)
}

} // verus!
