//! Prompt segmentation and the choice of conditioning embedding.

use vstd::prelude::*;
use crate::error::PipelineError;

verus! {

/// Whether `c` has the Unicode White_Space property: tab, line feed,
/// vertical tab, form feed, carriage return, space, next line, no-break
/// space, ogham space mark, the spaces from en quad to hair space, line and
/// paragraph separators, narrow no-break space, medium mathematical space
/// and ideographic space.
pub open spec fn white_space(c: char) -> bool {
    let n = c as u32;
    (0x09 <= n <= 0x0d) || n == 0x20 || n == 0x85 || n == 0xa0 || n == 0x1680 || (0x2000 <= n
        <= 0x200a) || n == 0x2028 || n == 0x2029 || n == 0x202f || n == 0x205f || n == 0x3000
}

/// Relies on `char::is_whitespace`: true exactly for the characters with the
/// Unicode White_Space property.
#[verifier::external_body]
fn is_white_space(c: char) -> (r: bool)
    ensures
        r == white_space(c),
{
    c.is_whitespace()
}

/// The segments of `s` between semicolons, in order. There is always at
/// least one: text without a semicolon is one segment, and each semicolon
/// starts a new one.
pub open spec fn split_semicolons(s: Seq<char>) -> Seq<Seq<char>>
    decreases s.len(),
{
    if s.len() == 0 {
        seq![Seq::<char>::empty()]
    } else {
        let init = split_semicolons(s.drop_last());
        if s.last() == ';' {
            init.push(Seq::<char>::empty())
        } else {
            init.update(init.len() - 1, init.last().push(s.last()))
        }
    }
}

/// `s` without its leading white space.
pub open spec fn trim_start(s: Seq<char>) -> Seq<char>
    decreases s.len(),
{
    if s.len() > 0 && white_space(s[0]) {
        trim_start(s.drop_first())
    } else {
        s
    }
}

/// `s` without its trailing white space.
pub open spec fn trim_end(s: Seq<char>) -> Seq<char>
    decreases s.len(),
{
    if s.len() > 0 && white_space(s.last()) {
        trim_end(s.drop_last())
    } else {
        s
    }
}

/// `s` without white space at either end.
pub open spec fn trim(s: Seq<char>) -> Seq<char> {
    trim_end(trim_start(s))
}

/// The trimmed segments of a prompt, each tokenized on its own.
pub open spec fn segments_spec(s: Seq<char>) -> Seq<Seq<char>> {
    split_semicolons(s).map_values(|seg: Seq<char>| trim(seg))
}

/// Splitting yields at least one segment.
pub proof fn lemma_split_nonempty(s: Seq<char>)
    ensures
        split_semicolons(s).len() >= 1,
    decreases s.len(),
{
    if s.len() > 0 {
        lemma_split_nonempty(s.drop_last());
    }
}

/// The characters `seg[from..to]` trimmed of white space at both ends.
fn trim_range(seg: &Vec<char>, from: usize, to: usize) -> (r: Vec<char>)
    requires
        from <= to <= seg@.len(),
    ensures
        r@ == trim(seg@.subrange(from as int, to as int)),
{
    let ghost s = seg@.subrange(from as int, to as int);
    let mut a: usize = from;
    while a < to && is_white_space(seg[a])
        invariant
            from <= a <= to <= seg@.len(),
            s == seg@.subrange(from as int, to as int),
            trim_start(s) == trim_start(seg@.subrange(a as int, to as int)),
        decreases to - a,
    {
        assert(seg@.subrange(a as int, to as int).drop_first() =~= seg@.subrange(
            a + 1,
            to as int,
        ));
        a = a + 1;
    }
    let ghost t = seg@.subrange(a as int, to as int);
    assert(trim_start(s) == t);
    let mut b: usize = to;
    while b > a && is_white_space(seg[b - 1])
        invariant
            from <= a <= b <= to <= seg@.len(),
            t == seg@.subrange(a as int, to as int),
            trim_end(t) == trim_end(seg@.subrange(a as int, b as int)),
        decreases b - a,
    {
        assert(seg@.subrange(a as int, b as int).drop_last() =~= seg@.subrange(
            a as int,
            b - 1,
        ));
        b = b - 1;
    }
    let mut r: Vec<char> = Vec::new();
    let mut k: usize = a;
    while k < b
        invariant
            a <= k <= b <= seg@.len(),
            r@ == seg@.subrange(a as int, k as int),
        decreases b - k,
    {
        r.push(seg[k]);
        assert(r@ =~= seg@.subrange(a as int, k + 1));
        k = k + 1;
    }
    r
}

/// Splits a prompt on `;` and trims each segment. An empty prompt gives one
/// empty segment.
pub fn prompt_segments(prompt: &Vec<char>) -> (r: Vec<Vec<char>>)
    ensures
        r@.len() == segments_spec(prompt@).len(),
        r@.len() >= 1,
        forall|j: int| 0 <= j < r@.len() ==> #[trigger] r@[j]@ == segments_spec(prompt@)[j],
{
    let n = prompt.len();
    let mut out: Vec<Vec<char>> = Vec::new();
    let mut start: usize = 0;
    let mut i: usize = 0;
    while i < n
        invariant
            n == prompt@.len(),
            start <= i <= n,
            out@.len() + 1 == split_semicolons(prompt@.take(i as int)).len(),
            forall|j: int|
                0 <= j < out@.len() ==> #[trigger] out@[j]@ == trim(
                    split_semicolons(prompt@.take(i as int))[j],
                ),
            split_semicolons(prompt@.take(i as int)).last() == prompt@.subrange(
                start as int,
                i as int,
            ),
        decreases n - i,
    {
        let ghost before = split_semicolons(prompt@.take(i as int));
        assert(prompt@.take(i + 1).drop_last() =~= prompt@.take(i as int));
        assert(prompt@.take(i + 1).last() == prompt@[i as int]);
        proof {
            lemma_split_nonempty(prompt@.take(i as int));
        }
        if prompt[i] == ';' {
            let seg = trim_range(prompt, start, i);
            out.push(seg);
            start = i + 1;
            assert(prompt@.subrange(start as int, i + 1) =~= Seq::<char>::empty());
        } else {
            assert(prompt@.subrange(start as int, i + 1) =~= prompt@.subrange(
                start as int,
                i as int,
            ).push(prompt@[i as int]));
        }
        i = i + 1;
    }
    assert(prompt@.take(n as int) =~= prompt@);
    let last = trim_range(prompt, start, n);
    out.push(last);
    out
}

/// The conditioning embedding of a multi-segment prompt: the last segment's
/// embedding wins and earlier ones are discarded. No embedding at all is a
/// conditioning failure.
pub fn last_embedding<T>(embeddings: Vec<T>) -> (r: Result<T, PipelineError>)
    ensures
        embeddings@.len() == 0 ==> r == Err::<T, PipelineError>(PipelineError::Conditioning),
        embeddings@.len() > 0 ==> r == Ok::<T, PipelineError>(embeddings@.last()),
{
    let mut embeddings = embeddings;
    match embeddings.pop() {
        Some(e) => Ok(e),
        None => Err(PipelineError::Conditioning),
    }
}

/// The conditioning batch of a request, unconditional half first: the
/// embedding chosen from the negative prompt's segments, then the one chosen
/// from the prompt's. Either side without an embedding fails the request.
pub fn conditioning_pair<T>(unconditional: Vec<T>, conditional: Vec<T>) -> (r: Result<
    (T, T),
    PipelineError,
>)
    ensures
        unconditional@.len() > 0 && conditional@.len() > 0 ==> r == Ok::<(T, T), PipelineError>(
            (unconditional@.last(), conditional@.last()),
        ),
        unconditional@.len() == 0 || conditional@.len() == 0 ==> r == Err::<(T, T), PipelineError>(
            PipelineError::Conditioning,
        ),
{
    let cond = last_embedding(conditional);
    let uncond = last_embedding(unconditional);
    match (uncond, cond) {
        (Ok(u), Ok(c)) => Ok((u, c)),
        _ => Err(PipelineError::Conditioning),
    }
}

} // verus!
