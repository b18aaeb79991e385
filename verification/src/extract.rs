//! Extraction of bracketed interjections from transcript text.

use vstd::prelude::*;
use vstd::std_specs::iter::IteratorSpec;
use crate::text::texts;

verus! {

/// The character is one of the two brackets.
pub open spec fn is_bracket(c: char) -> bool {
    c == '[' || c == ']'
}

/// An interjection stands between `open` and `close`: an opening bracket at
/// `open`, a closing bracket at `close`, and between them at least one
/// character and no bracket.
pub open spec fn encloses(text: Seq<char>, open: int, close: int) -> bool {
    &&& 0 <= open
    &&& open + 1 < close < text.len()
    &&& text[open] == '['
    &&& text[close] == ']'
    &&& forall|k: int| open < k < close ==> !is_bracket(#[trigger] text[k])
}

/// Where the last bracket among the first `n` characters is an opening
/// one, its place.
pub open spec fn open_at(text: Seq<char>, n: int) -> Option<int>
    decreases n,
{
    if n <= 0 {
        None
    } else if text[n - 1] == '[' {
        Some(n - 1)
    } else if text[n - 1] == ']' {
        None
    } else {
        open_at(text, n - 1)
    }
}

/// The interjections that close among the first `n` characters, each as
/// the places of its two brackets, left to right.
pub open spec fn spans_in(text: Seq<char>, n: int) -> Seq<(int, int)>
    decreases n,
{
    if n <= 0 {
        Seq::empty()
    } else {
        let before = spans_in(text, n - 1);
        match open_at(text, n - 1) {
            Some(open) => if text[n - 1] == ']' && open + 1 < n - 1 {
                before.push((open, n - 1))
            } else {
                before
            },
            None => before,
        }
    }
}

/// The texts between the brackets of each span.
pub open spec fn span_texts(text: Seq<char>, spans: Seq<(int, int)>) -> Seq<Seq<char>> {
    Seq::new(spans.len(), |k: int| text.subrange(spans[k].0 + 1, spans[k].1))
}

/// The bracketed texts of `input`, in the order of their occurrence.
pub open spec fn bracketed(input: Seq<char>) -> Seq<Seq<char>> {
    span_texts(input, spans_in(input, input.len() as int))
}

/// The test that a text differs from `exclude`.
pub open spec fn differs_from(exclude: Seq<char>) -> spec_fn(Seq<char>) -> bool {
    |t: Seq<char>| t != exclude
}

/// The elements of `found` that differ from `exclude`, in their order.
pub open spec fn without(found: Seq<Seq<char>>, exclude: Seq<char>) -> Seq<Seq<char>> {
    found.filter(differs_from(exclude))
}

/// The interjections of `text`: its bracketed texts but for `exclude`.
pub open spec fn shouts_of(text: Seq<char>, exclude: Seq<char>) -> Seq<Seq<char>> {
    without(bracketed(text), exclude)
}

/// All bracketed texts of `input`, left to right: the text strictly
/// between an opening bracket and the next closing one, wherever no bracket
/// and at least one character stands between the two.
pub fn find_text_between_brackets(input: &str) -> (r: Vec<String>)
    ensures
        texts(r@) == bracketed(input@),
{
    let total = input.unicode_len();
    let mut out: Vec<String> = Vec::new();
    let mut open: Option<usize> = None;
    let mut at: usize = 0;
    proof {
        assert(texts(out@) =~= span_texts(input@, spans_in(input@, 0)));
    }
    for c in it: input.chars()
        invariant
            it.seq() == input@,
            total == input@.len(),
            at == it.index(),
            at <= total,
            match open {
                Some(i) => open_at(input@, at as int) == Some(i as int) && i < at,
                None => open_at(input@, at as int).is_none(),
            },
            texts(out@) == span_texts(input@, spans_in(input@, at as int)),
    {
        assert(c == input@[at as int]);
        let ghost before = texts(out@);
        let ghost spans = spans_in(input@, at as int);
        if c == '[' {
            open = Some(at);
        } else if c == ']' {
            match open {
                Some(i) => {
                    if i + 1 < at {
                        let found = input.substring_char(i + 1, at);
                        out.push(found.to_owned());
                        proof {
                            let grown = spans.push((i as int, at as int));
                            assert(spans_in(input@, at + 1) == grown);
                            assert(texts(out@) =~= before.push(input@.subrange(i + 1, at as int)));
                            assert(span_texts(input@, grown) =~= span_texts(input@, spans).push(
                                input@.subrange(i + 1, at as int),
                            ));
                        }
                    }
                },
                None => {},
            }
            open = None;
        }
        at = at + 1;
    }
    out
}

/// Appends to `out` the elements of `found` that differ from `exclude`,
/// keeping their order.
pub fn select_shouts(found: Vec<String>, exclude: &str, out: &mut Vec<String>)
    ensures
        texts(final(out)@) == texts(old(out)@) + without(texts(found@), exclude@),
{
    let ghost start = texts(out@);
    let ghost all = texts(found@);
    let skip = exclude.to_owned();
    let mut i: usize = 0;
    proof {
        assert(all.take(0) =~= Seq::<Seq<char>>::empty());
        assert(texts(out@) =~= start + without(all.take(0), exclude@));
    }
    while i < found.len()
        invariant
            i <= found.len(),
            all == texts(found@),
            skip@ == exclude@,
            texts(out@) == start + without(all.take(i as int), exclude@),
        decreases found.len() - i,
    {
        let ghost before = texts(out@);
        let ghost pred = differs_from(exclude@);
        proof {
            let prefix = all.take(i as int);
            assert(all.take(i + 1) =~= prefix.push(all[i as int]));
            prefix.lemma_filter_push(all[i as int], pred);
            assert(all[i as int] == found@[i as int]@);
        }
        if found[i] != skip {
            out.push(found[i].clone());
            assert(texts(out@) =~= before.push(found@[i as int]@));
        }
        assert(texts(out@) =~= start + without(all.take(i + 1), exclude@));
        i += 1;
    }
    proof {
        assert(all.take(found.len() as int) =~= all);
    }
}

/// The interjections of one transcript row: its bracketed texts, left to
/// right, but for those equal to `exclude`.
pub fn extract_shouts(text: &str, exclude: &str) -> (r: Vec<String>)
    ensures
        texts(r@) == shouts_of(text@, exclude@),
        forall|i: int| 0 <= i < r@.len() ==> (#[trigger] r@[i])@ != exclude@,
{
    let found = find_text_between_brackets(text);
    let mut out: Vec<String> = Vec::new();
    select_shouts(found, exclude, &mut out);
    proof {
        assert(texts(Seq::<String>::empty()) =~= Seq::<Seq<char>>::empty());
        assert(texts(out@) =~= shouts_of(text@, exclude@));
        lemma_without_excludes(bracketed(text@), exclude@);
        assert forall|i: int| 0 <= i < out@.len() implies (#[trigger] out@[i])@ != exclude@ by {
            assert(texts(out@)[i] == out@[i]@);
        }
    }
    out
}

/// No element of `without(found, exclude)` equals `exclude`.
pub proof fn lemma_without_excludes(found: Seq<Seq<char>>, exclude: Seq<char>)
    ensures
        forall|i: int|
            0 <= i < without(found, exclude).len() ==> (#[trigger] without(found, exclude)[i])
                != exclude,
{
    let pred = differs_from(exclude);
    assert forall|i: int| 0 <= i < without(found, exclude).len() implies (#[trigger] without(
        found,
        exclude,
    )[i]) != exclude by {
        found.lemma_filter_pred(pred, i);
    }
}

/// What `open_at` finds: the opening bracket after which no bracket
/// follows among the first `n` characters; and it finds none only where
/// there is none.
pub proof fn lemma_open_at(text: Seq<char>, n: int)
    requires
        0 <= n <= text.len(),
    ensures
        match open_at(text, n) {
            Some(i) => {
                &&& 0 <= i < n
                &&& text[i] == '['
                &&& forall|k: int| i < k < n ==> !is_bracket(#[trigger] text[k])
            },
            None => forall|i: int|
                0 <= i < n && text[i] == '[' ==> exists|k: int|
                    i < k < n && is_bracket(#[trigger] text[k]),
        },
    decreases n,
{
    if n > 0 {
        lemma_open_at(text, n - 1);
        if text[n - 1] == '[' {
        } else if text[n - 1] == ']' {
            assert forall|i: int| 0 <= i < n && text[i] == '[' implies exists|k: int|
                i < k < n && is_bracket(#[trigger] text[k]) by {
                assert(is_bracket(text[n - 1]));
            }
        } else {
            match open_at(text, n - 1) {
                Some(i) => {},
                None => {
                    assert forall|i: int| 0 <= i < n && text[i] == '[' implies exists|k: int|
                        i < k < n && is_bracket(#[trigger] text[k]) by {
                        let k = choose|k: int| i < k < n - 1 && is_bracket(#[trigger] text[k]);
                        assert(is_bracket(text[k]));
                    }
                },
            }
        }
    }
}

/// The spans found among the first `n` characters are exactly the places
/// where an interjection stands and closes before `n`: each span encloses
/// one, each one is a span, and the spans stand left to right without
/// overlap.
pub proof fn lemma_spans(text: Seq<char>, n: int)
    requires
        0 <= n <= text.len(),
    ensures
        forall|k: int|
            0 <= k < spans_in(text, n).len() ==> encloses(
                text,
                (#[trigger] spans_in(text, n)[k]).0,
                spans_in(text, n)[k].1,
            ) && spans_in(text, n)[k].1 < n,
        forall|a: int, b: int|
            0 <= a < b < spans_in(text, n).len() ==> (#[trigger] spans_in(text, n)[a]).1 < (
            #[trigger] spans_in(text, n)[b]).0,
        forall|i: int, j: int|
            encloses(text, i, j) && j < n ==> spans_in(text, n).contains((i, j)),
    decreases n,
{
    if n > 0 {
        lemma_spans(text, n - 1);
        lemma_open_at(text, n - 1);
        let before = spans_in(text, n - 1);
        let now = spans_in(text, n);
        let close = n - 1;
        let grows = match open_at(text, close) {
            Some(open) => text[close] == ']' && open + 1 < close,
            None => false,
        };
        if grows {
            let open = open_at(text, close).unwrap();
            assert(now == before.push((open, close)));
            assert(encloses(text, open, close));
            assert forall|a: int, b: int| 0 <= a < b < now.len() implies (#[trigger] now[a]).1 < (
            #[trigger] now[b]).0 by {
                if b == before.len() {
                    let end = before[a].1;
                    assert(now[a] == before[a]);
                    assert(encloses(text, before[a].0, end));
                    assert(is_bracket(text[end]));
                    if end > open {
                    }
                } else {
                    assert(now[a] == before[a] && now[b] == before[b]);
                }
            }
            assert forall|k: int| 0 <= k < now.len() implies encloses(
                text,
                (#[trigger] now[k]).0,
                now[k].1,
            ) && now[k].1 < n by {
                if k < before.len() {
                    assert(now[k] == before[k]);
                }
            }
        } else {
            assert(now == before);
        }
        assert forall|i: int, j: int| encloses(text, i, j) && j < n implies now.contains((i, j)) by {
            if j < close {
                assert(before.contains((i, j)));
                let k = choose|k: int| 0 <= k < before.len() && before[k] == (i, j);
                assert(now[k] == (i, j));
            } else {
                assert(is_bracket(text[i]));
                match open_at(text, close) {
                    Some(open) => {
                        if open < i {
                            assert(is_bracket(text[i]));
                        }
                        if open > i {
                            assert(is_bracket(text[open]));
                        }
                        assert(open == i);
                        assert(now[now.len() - 1] == (i, j));
                    },
                    None => {
                        let k = choose|k: int| i < k < close && is_bracket(#[trigger] text[k]);
                        assert(is_bracket(text[k]));
                    },
                }
            }
        }
    }
}

/// What is extracted from a text: each bracketed text stands between the
/// brackets of one span of the text, in the order of the spans; and no
/// interjection is the excluded phrase.
pub proof fn lemma_shouts(text: Seq<char>, exclude: Seq<char>)
    ensures
        bracketed(text).len() == spans_in(text, text.len() as int).len(),
        forall|k: int|
            0 <= k < bracketed(text).len() ==> {
                let span = spans_in(text, text.len() as int)[k];
                &&& encloses(text, span.0, span.1)
                &&& (#[trigger] bracketed(text)[k]) == text.subrange(span.0 + 1, span.1)
            },
        forall|k: int|
            0 <= k < shouts_of(text, exclude).len() ==> (#[trigger] shouts_of(text, exclude)[k])
                != exclude,
{
    lemma_without_excludes(bracketed(text), exclude);
    lemma_spans(text, text.len() as int);
}

} // verus!
