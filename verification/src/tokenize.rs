//! Splitting an input line into whitespace- or quote-delimited tokens.
//!
//! A double-quoted span counts as one token and loses its quotes; an
//! unclosed quote is an ordinary non-whitespace character. Everything else
//! is split on runs of whitespace.

use vstd::prelude::*;
use vstd::string::StrSliceExecFns;

verus! {

/// The whitespace characters that separate tokens.
pub open spec fn is_space(c: char) -> bool {
    c == ' ' || c == '\t' || c == '\n' || c == '\r'
}

/// Length of the maximal non-whitespace prefix of `s`.
pub open spec fn plain_len(s: Seq<char>) -> nat
    decreases s.len(),
{
    if s.len() == 0 || is_space(s[0]) {
        0
    } else {
        1 + plain_len(s.drop_first())
    }
}

/// Number of characters of `s` before its first `"`; `s.len()` if none.
pub open spec fn quote_pos(s: Seq<char>) -> nat
    decreases s.len(),
{
    if s.len() == 0 || s[0] == '"' {
        0
    } else {
        1 + quote_pos(s.drop_first())
    }
}

proof fn lemma_plain_len_le(s: Seq<char>)
    ensures
        plain_len(s) <= s.len(),
    decreases s.len(),
{
    if s.len() == 0 || is_space(s[0]) {
    } else {
        lemma_plain_len_le(s.drop_first());
    }
}

/// The tokens of `s`: leading whitespace is skipped; a `"` with a matching
/// close yields the span between the quotes as one token; otherwise the
/// maximal non-whitespace run is one token.
pub open spec fn spec_tokenize(s: Seq<char>) -> Seq<Seq<char>>
    decreases s.len(),
    via spec_tokenize_decreases
{
    if s.len() == 0 {
        Seq::empty()
    } else if is_space(s[0]) {
        spec_tokenize(s.drop_first())
    } else if s[0] == '"' && quote_pos(s.skip(1)) < s.len() - 1 {
        let q = quote_pos(s.skip(1)) as int;
        seq![s.subrange(1, 1 + q)] + spec_tokenize(s.skip(2 + q))
    } else {
        let p = plain_len(s) as int;
        seq![s.subrange(0, p)] + spec_tokenize(s.skip(p))
    }
}

#[via_fn]
proof fn spec_tokenize_decreases(s: Seq<char>) {
    lemma_plain_len_le(s);
}

/// `plain_len` is the unique cut obeying its characterization.
proof fn lemma_plain_len_is(s: Seq<char>, m: int)
    requires
        0 <= m <= s.len(),
        forall|k: int| 0 <= k < m ==> !is_space(#[trigger] s[k]),
        m < s.len() ==> is_space(s[m]),
    ensures
        plain_len(s) == m,
    decreases s.len(),
{
    if s.len() == 0 {
    } else if is_space(s[0]) {
        assert(m == 0);
    } else {
        assert(m >= 1);
        lemma_plain_len_is(s.drop_first(), m - 1);
    }
}

/// `quote_pos` is the unique cut obeying its characterization.
proof fn lemma_quote_pos_is(s: Seq<char>, m: int)
    requires
        0 <= m <= s.len(),
        forall|k: int| 0 <= k < m ==> #[trigger] s[k] != '"',
        m < s.len() ==> s[m] == '"',
    ensures
        quote_pos(s) == m,
    decreases s.len(),
{
    if s.len() == 0 {
    } else if s[0] == '"' {
        assert(m == 0);
    } else {
        assert(m >= 1);
        lemma_quote_pos_is(s.drop_first(), m - 1);
    }
}

/// The character views of a list of tokens.
pub open spec fn views_of(tokens: Seq<String>) -> Seq<Seq<char>> {
    tokens.map_values(|t: String| t@)
}

/// A line that starts with a non-whitespace character has a first token.
pub proof fn lemma_tokenize_nonempty(s: Seq<char>)
    requires
        s.len() > 0,
        !is_space(s[0]),
    ensures
        spec_tokenize(s).len() > 0,
{
}

/// Law: a double-quoted span is treated as a single token. For every
/// quote-free `inner` and every remainder `rest`, the tokens of
/// `"` + inner + `"` + rest are `inner` followed by the tokens of `rest`.
pub proof fn lemma_quoted_span_single_token(inner: Seq<char>, rest: Seq<char>)
    requires
        forall|k: int| 0 <= k < inner.len() ==> #[trigger] inner[k] != '"',
    ensures
        spec_tokenize(seq!['"'] + inner + seq!['"'] + rest) == seq![inner] + spec_tokenize(rest),
{
    let s = seq!['"'] + inner + seq!['"'] + rest;
    assert(s[0] == '"');
    assert(!is_space(s[0]));
    let tail = s.skip(1);
    assert(tail =~= inner + seq!['"'] + rest);
    assert(forall|k: int| 0 <= k < inner.len() ==> #[trigger] tail[k] != '"');
    assert(tail[inner.len() as int] == '"');
    lemma_quote_pos_is(tail, inner.len() as int);
    assert(quote_pos(tail) < s.len() - 1);
    assert(s.subrange(1, 1 + inner.len() as int) =~= inner);
    assert(s.skip(2 + inner.len() as int) =~= rest);
}

/// Law, companion to the one above: a leading run of non-whitespace,
/// non-quote characters is one token, whatever follows the whitespace that
/// ends it. Together the two laws place a quoted span anywhere after
/// whole words — as in a command line — and it still forms a single token.
pub proof fn lemma_word_then_rest(w: Seq<char>, rest: Seq<char>)
    requires
        w.len() > 0,
        forall|k: int| 0 <= k < w.len() ==> !is_space(#[trigger] w[k]) && w[k] != '"',
    ensures
        spec_tokenize(w + seq![' '] + rest) == seq![w] + spec_tokenize(rest),
{
    let s = w + seq![' '] + rest;
    assert(s[0] == w[0]);
    assert(forall|k: int| 0 <= k < w.len() ==> #[trigger] s[k] == w[k]);
    assert(is_space(s[w.len() as int]));
    lemma_plain_len_is(s, w.len() as int);
    assert(s.subrange(0, w.len() as int) =~= w);
    assert(s.skip(w.len() as int) =~= seq![' '] + rest);
    assert((seq![' '] + rest).drop_first() =~= rest);
    assert(is_space((seq![' '] + rest)[0]));
    assert(spec_tokenize(seq![' '] + rest) == spec_tokenize(rest));
    assert(spec_tokenize(s) == seq![w] + spec_tokenize(seq![' '] + rest));
}

fn is_space_char(c: char) -> (r: bool)
    ensures
        r == is_space(c),
{
    c == ' ' || c == '\t' || c == '\n' || c == '\r'
}

/// First position at or after `start` holding a `"`, or the line's length.
fn find_close_quote(line: &str, start: usize) -> (j: usize)
    requires
        start <= line@.len(),
    ensures
        start <= j <= line@.len(),
        forall|k: int| start <= k < j ==> line@[k] != '"',
        j < line@.len() ==> line@[j as int] == '"',
{
    let n = line.unicode_len();
    let mut j = start;
    while j < n && line.get_char(j) != '"'
        invariant
            n == line@.len(),
            start <= j <= n,
            forall|k: int| start <= k < j ==> line@[k] != '"',
        decreases n - j,
    {
        j += 1;
    }
    j
}

/// First position at or after `start` holding whitespace, or the length.
fn find_space(line: &str, start: usize) -> (j: usize)
    requires
        start <= line@.len(),
    ensures
        start <= j <= line@.len(),
        forall|k: int| start <= k < j ==> !is_space(#[trigger] line@[k]),
        j < line@.len() ==> is_space(line@[j as int]),
{
    let n = line.unicode_len();
    let mut j = start;
    while j < n && !is_space_char(line.get_char(j))
        invariant
            n == line@.len(),
            start <= j <= n,
            forall|k: int| start <= k < j ==> !is_space(#[trigger] line@[k]),
        decreases n - j,
    {
        j += 1;
    }
    j
}

/// Splits a line into tokens as [`spec_tokenize`] describes.
pub fn tokenize(line: &str) -> (r: Vec<String>)
    ensures
        views_of(r@) == spec_tokenize(line@),
{
    let n = line.unicode_len();
    let mut r: Vec<String> = Vec::new();
    let mut i: usize = 0;
    proof {
        assert(views_of(r@) =~= Seq::<Seq<char>>::empty());
        assert(line@.skip(0) =~= line@);
    }
    while i < n
        invariant
            n == line@.len(),
            i <= n,
            spec_tokenize(line@) == views_of(r@) + spec_tokenize(line@.skip(i as int)),
        decreases n - i,
    {
        let ghost t = line@.skip(i as int);
        let ghost prefix = views_of(r@);
        let c = line.get_char(i);
        proof {
            assert(t[0] == line@[i as int]);
        }
        if is_space_char(c) {
            proof {
                assert(t.drop_first() =~= line@.skip(i as int + 1));
            }
            i += 1;
        } else {
            let close = if c == '"' {
                find_close_quote(line, i + 1)
            } else {
                n
            };
            if c == '"' && close < n {
                let ghost q = close as int - (i as int + 1);
                proof {
                    assert(t.skip(1) =~= line@.skip(i as int + 1));
                    lemma_quote_pos_is(line@.skip(i as int + 1), q);
                    assert(quote_pos(t.skip(1)) == q);
                    assert(t.subrange(1, 1 + q) =~= line@.subrange(i as int + 1, close as int));
                    assert(t.skip(2 + q) =~= line@.skip(close as int + 1));
                    assert(spec_tokenize(t) == seq![line@.subrange(i as int + 1, close as int)]
                        + spec_tokenize(line@.skip(close as int + 1)));
                }
                let tok = line.substring_char(i + 1, close);
                r.push(tok.to_owned());
                proof {
                    assert(views_of(r@) =~= prefix.push(
                        line@.subrange(i as int + 1, close as int),
                    ));
                    assert(prefix + (seq![line@.subrange(i as int + 1, close as int)]
                        + spec_tokenize(line@.skip(close as int + 1))) =~= views_of(r@)
                        + spec_tokenize(line@.skip(close as int + 1)));
                }
                i = close + 1;
            } else {
                let j = find_space(line, i);
                proof {
                    assert(j > i);
                    let p = j as int - i as int;
                    assert(forall|k: int|
                        0 <= k < p ==> !is_space(#[trigger] t[k]) && t[k] == line@[i as int + k]);
                    lemma_plain_len_is(t, p);
                    if c == '"' {
                        assert(t.skip(1) =~= line@.skip(i as int + 1));
                        lemma_quote_pos_is(line@.skip(i as int + 1), n as int - i as int - 1);
                        assert(quote_pos(t.skip(1)) == t.len() - 1);
                    }
                    assert(t.subrange(0, p) =~= line@.subrange(i as int, j as int));
                    assert(t.skip(p) =~= line@.skip(j as int));
                    assert(spec_tokenize(t) == seq![line@.subrange(i as int, j as int)]
                        + spec_tokenize(line@.skip(j as int)));
                }
                let tok = line.substring_char(i, j);
                r.push(tok.to_owned());
                proof {
                    assert(views_of(r@) =~= prefix.push(line@.subrange(i as int, j as int)));
                    assert(prefix + (seq![line@.subrange(i as int, j as int)] + spec_tokenize(
                        line@.skip(j as int),
                    )) =~= views_of(r@) + spec_tokenize(line@.skip(j as int)));
                }
                i = j;
            }
        }
    }
    proof {
        assert(line@.skip(n as int) =~= Seq::<char>::empty());
        assert(spec_tokenize(line@) =~= views_of(r@));
    }
    r
}

} // verus!
