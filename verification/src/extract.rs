//! Region extraction: turning file contents, or the matched nodes of a
//! syntax tree, into an ordered stream of position-tracked fragments.

use crate::fragment::{frag_model, TextFragment};
use crate::lines::{lemma_lines_count, lemma_lines_no_line_feed, spec_lines, split_lines};
use vstd::prelude::*;

verus! {

/// A checkable node of a syntax tree, reduced to plain values: its 0-based
/// starting row and column in the file, and its exact source text (which
/// may span several physical lines).
pub struct NodeSpan {
    pub row: usize,
    pub column: usize,
    pub text: Vec<u8>,
}

/// The (row, column, text) triple a span stands for.
pub open spec fn span_model(span: NodeSpan) -> (int, int, Seq<u8>) {
    (span.row as int, span.column as int, span.text@)
}

/// The fragments a (row, column, text) span model decomposes into, as
/// (line, column offset, text) triples: one per physical line of the
/// span's text, with 1-based line numbers consecutive from the span's
/// starting row, the span's starting column on the first line and column
/// zero on every later line.
pub open spec fn model_fragments(m: (int, int, Seq<u8>)) -> Seq<(int, int, Seq<u8>)> {
    Seq::new(
        spec_lines(m.2).len(),
        |i: int|
            (
                m.0 + i + 1,
                if i == 0 {
                    m.1
                } else {
                    0
                },
                spec_lines(m.2)[i],
            ),
    )
}

/// The fragments a node decomposes into.
pub open spec fn span_fragments(span: NodeSpan) -> Seq<(int, int, Seq<u8>)> {
    model_fragments(span_model(span))
}

/// The fragments a whole sequence of span models decomposes into, in order.
pub open spec fn models_fragments(models: Seq<(int, int, Seq<u8>)>) -> Seq<(int, int, Seq<u8>)> {
    models.map_values(|m: (int, int, Seq<u8>)| model_fragments(m)).flatten()
}

/// A span whose fragments all carry representable line numbers.
pub open spec fn span_in_range(span: NodeSpan) -> bool {
    span.row + spec_lines(span.text@).len() <= usize::MAX
}

/// Whole-line fallback extraction: every physical line of the file becomes
/// one fragment, with 1-based line numbers in order and column offset zero.
pub fn extract_regions_text(text: &[u8]) -> (fragments: Vec<TextFragment>)
    ensures
        fragments@.len() == spec_lines(text@).len(),
        forall|i: int| 0 <= i < fragments@.len() ==> (#[trigger] fragments@[i]).line == i + 1,
        forall|i: int| 0 <= i < fragments@.len() ==> (#[trigger] fragments@[i]).column_offset == 0,
        forall|i: int|
            0 <= i < fragments@.len() ==> (#[trigger] fragments@[i]).text@ == spec_lines(text@)[i],
        forall|i: int| 0 <= i < fragments@.len() ==> (#[trigger] fragments@[i]).wf(),
{
    proof {
        lemma_lines_count(text@);
        lemma_lines_no_line_feed(text@);
    }
    let ghost all = spec_lines(text@);
    let length_bound: usize = text.len();
    proof {
        assert(text@.len() == length_bound);
    }
    let mut rest = split_lines(text);
    let mut fragments: Vec<TextFragment> = Vec::new();
    while rest.len() > 0
        invariant
            fragments@.len() + rest@.len() == all.len(),
            all.len() <= text@.len() <= usize::MAX,
            forall|jj: int, ii: int|
                0 <= jj < all.len() && 0 <= ii < all[jj].len() ==> #[trigger] all[jj][ii]
                    != crate::lines::LINE_FEED,
            forall|i: int|
                0 <= i < rest@.len() ==> (#[trigger] rest@[i])@ == all[fragments@.len() + i],
            forall|i: int| 0 <= i < fragments@.len() ==> (#[trigger] fragments@[i]).line == i + 1,
            forall|i: int|
                0 <= i < fragments@.len() ==> (#[trigger] fragments@[i]).column_offset == 0,
            forall|i: int| 0 <= i < fragments@.len() ==> (#[trigger] fragments@[i]).text@ == all[i],
            forall|i: int| 0 <= i < fragments@.len() ==> (#[trigger] fragments@[i]).wf(),
        decreases rest@.len(),
    {
        let ghost prev_rest = rest@;
        let ghost k = fragments@.len() as int;
        let line = rest.remove(0);
        proof {
            assert(rest@ =~= prev_rest.skip(1));
            assert(line@ == all[k]);
            assert forall|ii: int| 0 <= ii < line@.len() implies line@[ii]
                != crate::lines::LINE_FEED by {
                assert(line@[ii] == all[k][ii]);
            }
        }
        let number = fragments.len() + 1;
        fragments.push(TextFragment { line: number, column_offset: 0, text: line });
    }
    fragments
}

/// Decompose one checkable node into fragments, per `span_fragments`.
pub fn node_fragments(span: &NodeSpan) -> (fragments: Vec<TextFragment>)
    requires
        span_in_range(*span),
    ensures
        fragments@.map_values(|f: TextFragment| frag_model(f)) == span_fragments(*span),
        forall|i: int| 0 <= i < fragments@.len() ==> (#[trigger] fragments@[i]).wf(),
{
    proof {
        lemma_lines_no_line_feed(span.text@);
    }
    let mut rest = split_lines(span.text.as_slice());
    let mut fragments: Vec<TextFragment> = Vec::new();
    let ghost all = spec_lines(span.text@);
    while rest.len() > 0
        invariant
            span_in_range(*span),
            fragments@.len() + rest@.len() == all.len(),
            all == spec_lines(span.text@),
            forall|jj: int, ii: int|
                0 <= jj < all.len() && 0 <= ii < all[jj].len() ==> #[trigger] all[jj][ii]
                    != crate::lines::LINE_FEED,
            forall|i: int|
                0 <= i < rest@.len() ==> (#[trigger] rest@[i])@ == all[fragments@.len() + i],
            forall|i: int|
                0 <= i < fragments@.len() ==> #[trigger] frag_model(fragments@[i])
                    == span_fragments(*span)[i],
            forall|i: int| 0 <= i < fragments@.len() ==> (#[trigger] fragments@[i]).wf(),
        decreases rest@.len(),
    {
        let ghost prev_rest = rest@;
        let ghost k = fragments@.len() as int;
        let line = rest.remove(0);
        proof {
            assert(rest@ =~= prev_rest.skip(1));
            assert(line@ == all[k]);
            assert forall|ii: int| 0 <= ii < line@.len() implies line@[ii]
                != crate::lines::LINE_FEED by {
                assert(line@[ii] == all[k][ii]);
            }
        }
        let index = fragments.len();
        let number = span.row + index + 1;
        let column: usize = if index == 0 {
            span.column
        } else {
            0
        };
        fragments.push(TextFragment { line: number, column_offset: column, text: line });
    }
    proof {
        assert(fragments@.map_values(|f: TextFragment| frag_model(f)) =~= span_fragments(*span));
    }
    fragments
}

/// Flattening distributes over appending one more row.
proof fn lemma_flatten_push<A>(rows: Seq<Seq<A>>, row: Seq<A>)
    ensures
        (rows + seq![row]).flatten() == rows.flatten() + row,
    decreases rows.len(),
{
    if rows.len() == 0 {
        assert(rows + seq![row] =~= seq![row]);
        assert(seq![row].drop_first() =~= Seq::<Seq<A>>::empty());
        assert(Seq::<Seq<A>>::empty().flatten() =~= Seq::<A>::empty());
        assert(seq![row].flatten() =~= row);
        assert(rows.flatten() + row =~= row);
    } else {
        lemma_flatten_push(rows.drop_first(), row);
        assert((rows + seq![row]).drop_first() =~= rows.drop_first() + seq![row]);
        assert((rows + seq![row]).flatten() == rows.first() + (rows.drop_first()
            + seq![row]).flatten());
        assert(rows.first() + (rows.drop_first().flatten() + row) =~= rows.flatten() + row);
    }
}

/// Decompose every span, keeping the spans' relative order: the result is
/// exactly the concatenation of each span's own fragment run.
pub fn fragments_from_spans(spans: &Vec<NodeSpan>) -> (fragments: Vec<TextFragment>)
    requires
        forall|j: int| 0 <= j < spans@.len() ==> span_in_range(#[trigger] spans@[j]),
    ensures
        fragments@.map_values(|f: TextFragment| frag_model(f)) == spans@.map_values(
            |s: NodeSpan| span_fragments(s),
        ).flatten(),
        forall|i: int| 0 <= i < fragments@.len() ==> (#[trigger] fragments@[i]).wf(),
{
    let mut fragments: Vec<TextFragment> = Vec::new();
    let mut j: usize = 0;
    proof {
        assert(spans@.take(0).map_values(|s: NodeSpan| span_fragments(s))
            =~= Seq::<Seq<(int, int, Seq<u8>)>>::empty());
        assert(fragments@.map_values(|f: TextFragment| frag_model(f))
            =~= Seq::<Seq<(int, int, Seq<u8>)>>::empty().flatten());
    }
    while j < spans.len()
        invariant
            j <= spans@.len(),
            forall|i: int| 0 <= i < spans@.len() ==> span_in_range(#[trigger] spans@[i]),
            fragments@.map_values(|f: TextFragment| frag_model(f)) == spans@.take(j as int).map_values(
                |s: NodeSpan| span_fragments(s),
            ).flatten(),
            forall|i: int| 0 <= i < fragments@.len() ==> (#[trigger] fragments@[i]).wf(),
        decreases spans@.len() - j,
    {
        let mut piece = node_fragments(&spans[j]);
        let ghost prev = fragments@;
        let ghost prev_rows = spans@.take(j as int).map_values(|s: NodeSpan| span_fragments(s));
        fragments.append(&mut piece);
        j = j + 1;
        proof {
            lemma_flatten_push(prev_rows, span_fragments(spans@[j - 1]));
            assert(prev_rows + seq![span_fragments(spans@[j - 1])] =~= spans@.take(
                j as int,
            ).map_values(|s: NodeSpan| span_fragments(s)));
            assert(fragments@.map_values(|f: TextFragment| frag_model(f)) =~= prev.map_values(|f: TextFragment| frag_model(f))
                + span_fragments(spans@[j - 1]));
        }
    }
    proof {
        assert(spans@.take(spans@.len() as int) =~= spans@);
    }
    fragments
}

} // verus!
