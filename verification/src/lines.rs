//! The line model: how a byte buffer decomposes into physical lines.
//!
//! A line break is a line feed byte; a carriage return immediately before a
//! line feed belongs to the break, not to the line. A final line without a
//! trailing break still counts, and a trailing break adds no empty line.

use vstd::prelude::*;

verus! {

pub const LINE_FEED: u8 = 10;

pub const CARRIAGE_RETURN: u8 = 13;

/// Index of the first line feed in `s`, or `s.len()` when there is none.
pub open spec fn first_line_feed(s: Seq<u8>) -> nat
    decreases s.len(),
{
    if s.len() == 0 {
        0
    } else if s[0] == LINE_FEED {
        0
    } else {
        1 + first_line_feed(s.skip(1))
    }
}

/// One line's content: a carriage return that immediately preceded the
/// terminating line feed is dropped.
pub open spec fn strip_carriage_return(s: Seq<u8>) -> Seq<u8> {
    if s.len() > 0 && s[s.len() - 1] == CARRIAGE_RETURN {
        s.drop_last()
    } else {
        s
    }
}

/// The physical lines of `s`, in order, without their line breaks.
pub open spec fn spec_lines(s: Seq<u8>) -> Seq<Seq<u8>>
    decreases s.len(),
    via spec_lines_decreases
{
    if s.len() == 0 {
        seq![]
    } else {
        let k = first_line_feed(s) as int;
        if k == s.len() {
            seq![s]
        } else {
            seq![strip_carriage_return(s.subrange(0, k))] + spec_lines(s.skip(k + 1))
        }
    }
}

pub proof fn lemma_first_line_feed(s: Seq<u8>)
    ensures
        first_line_feed(s) <= s.len(),
        forall|i: int| 0 <= i < first_line_feed(s) ==> s[i] != LINE_FEED,
        first_line_feed(s) < s.len() ==> s[first_line_feed(s) as int] == LINE_FEED,
    decreases s.len(),
{
    if s.len() == 0 {
    } else if s[0] == LINE_FEED {
    } else {
        lemma_first_line_feed(s.skip(1));
        assert forall|i: int| 0 <= i < first_line_feed(s) implies s[i] != LINE_FEED by {
            if i > 0 {
                assert(s.skip(1)[i - 1] == s[i]);
            }
        }
        if first_line_feed(s) < s.len() {
            assert(s.skip(1)[first_line_feed(s) - 1] == s[first_line_feed(s) as int]);
        }
    }
}

/// A scan that stops at the first line feed finds `first_line_feed`.
pub proof fn lemma_first_line_feed_unique(s: Seq<u8>, k: int)
    requires
        0 <= k <= s.len(),
        forall|i: int| 0 <= i < k ==> s[i] != LINE_FEED,
        k < s.len() ==> s[k] == LINE_FEED,
    ensures
        first_line_feed(s) == k,
    decreases s.len(),
{
    if s.len() == 0 {
    } else if s[0] == LINE_FEED {
    } else {
        assert forall|i: int| 0 <= i < k - 1 implies s.skip(1)[i] != LINE_FEED by {
            assert(s.skip(1)[i] == s[i + 1]);
        }
        if k - 1 < s.skip(1).len() {
            assert(s.skip(1)[k - 1] == s[k]);
        }
        lemma_first_line_feed_unique(s.skip(1), k - 1);
    }
}

#[via_fn]
proof fn spec_lines_decreases(s: Seq<u8>) {
    lemma_first_line_feed(s);
}

/// There are never more lines than bytes.
pub proof fn lemma_lines_count(s: Seq<u8>)
    ensures
        spec_lines(s).len() <= s.len(),
    decreases s.len(),
{
    lemma_first_line_feed(s);
    if s.len() == 0 {
    } else {
        let k = first_line_feed(s) as int;
        if k < s.len() {
            lemma_lines_count(s.skip(k + 1));
        }
    }
}

/// No line contains a line feed.
pub proof fn lemma_lines_no_line_feed(s: Seq<u8>)
    ensures
        forall|j: int, i: int|
            0 <= j < spec_lines(s).len() && 0 <= i < spec_lines(s)[j].len()
                ==> spec_lines(s)[j][i] != LINE_FEED,
    decreases s.len(),
{
    lemma_first_line_feed(s);
    if s.len() == 0 {
    } else {
        let k = first_line_feed(s) as int;
        if k == s.len() {
        } else {
            lemma_lines_no_line_feed(s.skip(k + 1));
            let head = strip_carriage_return(s.subrange(0, k));
            assert forall|i: int| 0 <= i < head.len() implies head[i] != LINE_FEED by {
                assert(head[i] == s[i]);
            }
            assert forall|j: int, i: int|
                0 <= j < spec_lines(s).len() && 0 <= i < spec_lines(s)[j].len()
                    implies spec_lines(s)[j][i] != LINE_FEED by {
                if j > 0 {
                    assert(spec_lines(s)[j] == spec_lines(s.skip(k + 1))[j - 1]);
                }
            }
        }
    }
}

/// Split a buffer into its physical lines.
pub fn split_lines(text: &[u8]) -> (lines: Vec<Vec<u8>>)
    ensures
        lines@.map_values(|l: Vec<u8>| l@) == spec_lines(text@),
{
    let mut lines: Vec<Vec<u8>> = Vec::new();
    let mut pos: usize = 0;
    proof {
        assert(text@.skip(0) =~= text@);
    }
    while pos < text.len()
        invariant
            pos <= text@.len(),
            spec_lines(text@) == lines@.map_values(|l: Vec<u8>| l@) + spec_lines(
                text@.skip(pos as int),
            ),
        decreases text@.len() - pos,
    {
        let ghost rest = text@.skip(pos as int);
        let mut j: usize = pos;
        while j < text.len() && *vstd::slice::slice_index_get(text, j) != LINE_FEED
            invariant
                pos <= j <= text@.len(),
                forall|i: int| pos <= i < j ==> text@[i] != LINE_FEED,
            decreases text@.len() - j,
        {
            j = j + 1;
        }
        proof {
            assert forall|i: int| 0 <= i < j - pos implies rest[i] != LINE_FEED by {
                assert(rest[i] == text@[pos + i]);
            }
            if (j as int) - (pos as int) < rest.len() {
                assert(rest[j - pos] == text@[j as int]);
            }
            lemma_first_line_feed_unique(rest, j - pos);
        }
        let end: usize = if j < text.len() && j > pos && *vstd::slice::slice_index_get(
            text,
            j - 1,
        ) == CARRIAGE_RETURN {
            j - 1
        } else {
            j
        };
        let piece = vstd::slice::slice_subrange(text, pos, end);
        let line = vstd::slice::slice_to_vec(piece);
        proof {
            let k = first_line_feed(rest) as int;
            if j < text.len() {
                let raw = rest.subrange(0, k);
                assert(raw =~= text@.subrange(pos as int, j as int));
                assert(line@ =~= strip_carriage_return(raw));
                assert(rest.skip(k + 1) =~= text@.skip(j + 1));
            } else {
                assert(line@ =~= rest);
            }
        }
        let ghost prev_lines = lines@;
        lines.push(line);
        if j < text.len() {
            pos = j + 1;
        } else {
            pos = j;
            proof {
                assert(text@.skip(pos as int) =~= Seq::<u8>::empty());
                assert(spec_lines(rest) =~= seq![line@]);
            }
        }
        proof {
            assert(lines@.map_values(|l: Vec<u8>| l@) =~= prev_lines.map_values(|l: Vec<u8>| l@)
                + seq![line@]);
            assert(prev_lines.map_values(|l: Vec<u8>| l@) + spec_lines(rest)
                =~= lines@.map_values(|l: Vec<u8>| l@) + spec_lines(text@.skip(pos as int)));
        }
    }
    proof {
        assert(text@.skip(pos as int) =~= Seq::<u8>::empty());
        assert(lines@.map_values(|l: Vec<u8>| l@) + spec_lines(Seq::<u8>::empty())
            =~= lines@.map_values(|l: Vec<u8>| l@));
    }
    lines
}

} // verus!
