//! Drain-and-decode: turn an object's fully-materialized bytes into the line
//! corpus. The bytes are validated as UTF-8, then split on the newline
//! character as the sole delimiter — no special-casing of carriage returns,
//! so Windows-style line endings leave a trailing carriage return on the
//! preceding segment; empty segments and order are preserved.

use vstd::prelude::*;
use vstd::utf8::{decode_utf8, valid_utf8};

use crate::errors::PipelineError;

verus! {

/// Split a character sequence on the newline character. Empty segments are
/// preserved, order is preserved, and the split of the empty sequence is a
/// single empty segment.
pub open spec fn split_on_newline(s: Seq<char>) -> Seq<Seq<char>>
    decreases s.len(),
{
    if s.len() == 0 {
        seq![Seq::<char>::empty()]
    } else if s[0] == '\n' {
        seq![Seq::<char>::empty()] + split_on_newline(s.drop_first())
    } else {
        let rest = split_on_newline(s.drop_first());
        seq![seq![s[0]] + rest[0]] + rest.drop_first()
    }
}

/// A split always has at least one segment.
pub proof fn lemma_split_len(s: Seq<char>)
    ensures
        split_on_newline(s).len() >= 1,
    decreases s.len(),
{
    if s.len() == 0 {
    } else {
        lemma_split_len(s.drop_first());
    }
}

/// Join segments back together with a newline between each two.
pub open spec fn join_with_newline(parts: Seq<Seq<char>>) -> Seq<char>
    decreases parts.len(),
{
    if parts.len() == 0 {
        Seq::empty()
    } else if parts.len() == 1 {
        parts[0]
    } else {
        parts[0] + seq!['\n'] + join_with_newline(parts.drop_first())
    }
}

/// Round-trip split: joining the newline split with newlines restores the
/// text exactly, for every text — the split loses no characters, invents
/// none, and keeps their order.
pub proof fn lemma_split_round_trip(s: Seq<char>)
    ensures
        join_with_newline(split_on_newline(s)) == s,
    decreases s.len(),
{
    reveal_with_fuel(split_on_newline, 2);
    reveal_with_fuel(join_with_newline, 2);
    lemma_split_len(s);
    if s.len() == 0 {
        assert(join_with_newline(split_on_newline(s)) =~= s);
    } else {
        lemma_split_round_trip(s.drop_first());
        lemma_split_len(s.drop_first());
        let rest = split_on_newline(s.drop_first());
        if s[0] == '\n' {
            assert((seq![Seq::<char>::empty()] + rest).drop_first() =~~= rest);
            assert(join_with_newline(split_on_newline(s)) =~= s);
        } else {
            if rest.len() == 1 {
                assert(join_with_newline(rest) == rest[0]);
                assert(rest[0] == s.drop_first());
                assert(split_on_newline(s) == seq![seq![s[0]] + rest[0]] + rest.drop_first());
                assert(split_on_newline(s).len() == 1);
                assert(split_on_newline(s)[0] == seq![s[0]] + rest[0]);
                assert(seq![s[0]] + s.drop_first() =~= s);
                assert(join_with_newline(split_on_newline(s)) == split_on_newline(s)[0]);
                assert(seq![s[0]] + rest[0] == seq![s[0]] + s.drop_first());
                assert(join_with_newline(split_on_newline(s)) == s);
            } else {
                let head = seq![seq![s[0]] + rest[0]];
                assert((head + rest.drop_first()).drop_first() =~~= rest.drop_first());
                assert(split_on_newline(s) == head + rest.drop_first());
                assert(split_on_newline(s).len() == rest.len());
                assert(split_on_newline(s)[0] == seq![s[0]] + rest[0]);
                assert(split_on_newline(s).drop_first() == rest.drop_first());
                assert(join_with_newline(split_on_newline(s)) == split_on_newline(s)[0] + seq![
                    '\n',
                ] + join_with_newline(split_on_newline(s).drop_first()));
                assert(join_with_newline(rest) == rest[0] + seq!['\n'] + join_with_newline(
                    rest.drop_first(),
                ));
                assert(rest[0] + seq!['\n'] + join_with_newline(rest.drop_first())
                    == s.drop_first());
                assert(join_with_newline(split_on_newline(s)) == (seq![s[0]] + rest[0]) + seq![
                    '\n',
                ] + join_with_newline(rest.drop_first()));
                assert((seq![s[0]] + rest[0]) + seq!['\n'] + join_with_newline(rest.drop_first())
                    =~= seq![s[0]] + (rest[0] + seq!['\n'] + join_with_newline(
                    rest.drop_first(),
                )));
                assert(seq![s[0]] + s.drop_first() =~= s);
                assert(join_with_newline(split_on_newline(s)) == s);
            }
        }
    }
}

/// Appending a newline ends the current segment and opens a fresh empty one.
proof fn lemma_split_push_newline(s: Seq<char>)
    ensures
        split_on_newline(s.push('\n')) == split_on_newline(s) + seq![Seq::<char>::empty()],
    decreases s.len(),
{
    reveal_with_fuel(split_on_newline, 3);
    lemma_split_len(s);
    if s.len() == 0 {
        assert(s =~= Seq::<char>::empty());
        assert(s.push('\n').drop_first() =~= Seq::<char>::empty());
        assert(split_on_newline(s.push('\n')) =~~= split_on_newline(s) + seq![
            Seq::<char>::empty(),
        ]);
    } else {
        assert(s.push('\n').drop_first() =~= s.drop_first().push('\n'));
        lemma_split_push_newline(s.drop_first());
        lemma_split_len(s.drop_first());
        if s[0] == '\n' {
            assert(split_on_newline(s.push('\n')) =~~= split_on_newline(s) + seq![
                Seq::<char>::empty(),
            ]);
        } else {
            let rest = split_on_newline(s.drop_first());
            let rest2 = split_on_newline(s.drop_first().push('\n'));
            assert(rest2[0] == rest[0]);
            assert(rest2.drop_first() =~~= rest.drop_first() + seq![Seq::<char>::empty()]);
            assert(split_on_newline(s.push('\n')) =~~= split_on_newline(s) + seq![
                Seq::<char>::empty(),
            ]);
        }
    }
}

/// Appending any other character extends the last segment.
proof fn lemma_split_push_other(s: Seq<char>, c: char)
    requires
        c != '\n',
    ensures
        split_on_newline(s.push(c)) == split_on_newline(s).update(
            split_on_newline(s).len() - 1,
            split_on_newline(s).last().push(c),
        ),
    decreases s.len(),
{
    reveal_with_fuel(split_on_newline, 3);
    lemma_split_len(s);
    if s.len() == 0 {
        assert(s =~= Seq::<char>::empty());
        assert(s.push(c).drop_first() =~= Seq::<char>::empty());
        assert(split_on_newline(s.push(c)) =~~= split_on_newline(s).update(
            split_on_newline(s).len() - 1,
            split_on_newline(s).last().push(c),
        ));
    } else {
        assert(s.push(c).drop_first() =~~= s.drop_first().push(c));
        lemma_split_push_other(s.drop_first(), c);
        lemma_split_len(s.drop_first());
        let rest = split_on_newline(s.drop_first());
        let rest2 = split_on_newline(s.drop_first().push(c));
        if s[0] == '\n' {
            assert(rest2 == rest.update(rest.len() - 1, rest.last().push(c)));
            assert(split_on_newline(s).last() == rest.last());
            assert(split_on_newline(s.push(c)) =~~= split_on_newline(s).update(
                split_on_newline(s).len() - 1,
                split_on_newline(s).last().push(c),
            ));
        } else {
            if rest.len() == 1 {
                assert(rest2[0] == rest[0].push(c));
                assert(seq![s[0]] + rest[0].push(c) =~~= (seq![s[0]] + rest[0]).push(c));
                assert(rest2.drop_first() =~~= Seq::<Seq<char>>::empty());
                assert(split_on_newline(s.push(c)) =~~= split_on_newline(s).update(
                    split_on_newline(s).len() - 1,
                    split_on_newline(s).last().push(c),
                ));
            } else {
                assert(rest2[0] == rest[0]);
                assert(rest2.drop_first() =~~= rest.drop_first().update(
                    rest.len() - 2,
                    rest.last().push(c),
                ));
                assert(split_on_newline(s).last() == rest.last());
                assert(split_on_newline(s.push(c)) =~~= split_on_newline(s).update(
                    split_on_newline(s).len() - 1,
                    split_on_newline(s).last().push(c),
                ));
            }
        }
    }
}

/// Split decoded text into its lines, one string per segment, preserving
/// empty segments and order.
pub fn split_lines(s: &str) -> (lines: Vec<String>)
    ensures
        lines@.len() == split_on_newline(s@).len(),
        forall|j: int| 0 <= j < lines@.len() ==> lines@[j]@ == split_on_newline(s@)[j],
{
    let n: usize = s.unicode_len();
    let mut lines: Vec<String> = Vec::new();
    let mut start: usize = 0;
    let mut i: usize = 0;
    proof {
        lemma_split_len(s@.subrange(0, 0));
    }
    while i < n
        invariant
            n == s@.len(),
            start <= i <= n,
            lines@.len() + 1 == split_on_newline(s@.subrange(0, i as int)).len(),
            forall|j: int|
                0 <= j < lines@.len() ==> lines@[j]@ == split_on_newline(
                    s@.subrange(0, i as int),
                )[j],
            split_on_newline(s@.subrange(0, i as int)).last() == s@.subrange(
                start as int,
                i as int,
            ),
        decreases n - i,
    {
        let c = s.get_char(i);
        proof {
            assert(s@.subrange(0, i as int + 1) =~~= s@.subrange(0, i as int).push(s@[i as int]));
        }
        if c == '\n' {
            let piece = s.substring_char(start, i);
            lines.push(String::from_str(piece));
            proof {
                lemma_split_push_newline(s@.subrange(0, i as int));
                assert(s@.subrange(i as int + 1, i as int + 1) =~~= Seq::<char>::empty());
            }
            start = i + 1;
        } else {
            proof {
                lemma_split_push_other(s@.subrange(0, i as int), c);
                assert(s@.subrange(start as int, i as int).push(s@[i as int]) =~~= s@.subrange(
                    start as int,
                    i as int + 1,
                ));
            }
        }
        i += 1;
    }
    let piece = s.substring_char(start, n);
    lines.push(String::from_str(piece));
    proof {
        assert(s@.subrange(0, n as int) =~~= s@);
    }
    lines
}

/// Relies on String::from_utf8: it succeeds exactly on well-formed UTF-8
/// input (vstd's `valid_utf8`) and yields the text that vstd's `decode_utf8`
/// gives for those bytes.
#[verifier::external_body]
fn utf8_to_string(bytes: Vec<u8>) -> (r: Option<String>)
    ensures
        r is Some <==> valid_utf8(bytes@),
        r matches Some(s) ==> s@ == decode_utf8(bytes@),
{
    String::from_utf8(bytes).ok()
}

/// The line corpus of a decoded text: its newline split, except that empty
/// text holds no delimiter-separated content at all and so yields zero
/// lines. That keeps an empty object a reportable selection failure rather
/// than a silent empty-line success.
pub open spec fn corpus_of(t: Seq<char>) -> Seq<Seq<char>> {
    if t.len() == 0 {
        Seq::empty()
    } else {
        split_on_newline(t)
    }
}

/// Turn the fully-drained bytes of the object into the line corpus: validate
/// them as UTF-8 and split the decoded text on newlines. Rejecting malformed
/// bytes is a distinct encoding error.
pub fn convert_bytes_to_string(bytes: Vec<u8>) -> (r: Result<Vec<String>, PipelineError>)
    ensures
        r is Ok <==> valid_utf8(bytes@),
        !valid_utf8(bytes@) ==> (r matches Err(PipelineError::Encoding)),
        r matches Ok(lines) ==> {
            &&& lines@.len() == corpus_of(decode_utf8(bytes@)).len()
            &&& forall|j: int|
                0 <= j < lines@.len() ==> lines@[j]@ == corpus_of(decode_utf8(bytes@))[j]
        },
{
    let text = match utf8_to_string(bytes) {
        Some(t) => t,
        None => { return Err(PipelineError::Encoding); },
    };
    if text.as_str().is_empty() {
        return Ok(Vec::new());
    }
    Ok(split_lines(text.as_str()))
}

} // verus!
