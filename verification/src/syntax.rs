//! Syntax-driven region extraction: a registered grammar parses the file,
//! a per-language query picks the checkable nodes (comments and string
//! literals), and each matched node is decomposed into position-tracked
//! fragments.
//!
//! The parsing and querying are done by the tree-sitter library through
//! one trusted call whose result is a named function of the grammar and
//! the text; everything downstream of the raw match coordinates — bounds
//! checking, slicing the node text out of the file, and the per-line
//! decomposition — is verified, and the extractor's result is pinned to
//! that name exactly, for the error cases too.

use crate::extract::{
    fragments_from_spans, model_fragments, models_fragments, span_fragments, span_in_range,
    span_model, NodeSpan,
};
use crate::fragment::{frag_model, TextFragment};
use crate::lines::lemma_lines_count;
use tree_sitter::{Parser, Query, QueryCursor};
use vstd::prelude::*;

verus! {

/// Raw coordinates of one query match, straight from the syntax tree: the
/// matched node's 0-based start row and column, and its byte range in the
/// parsed text. Nothing is assumed of these values; they are checked
/// against the text before use.
#[derive(Clone, Copy, PartialEq, Eq, Structural, Debug)]
pub struct RawSpan {
    pub row: usize,
    pub column: usize,
    pub start: usize,
    pub end: usize,
}

/// A registered grammar: the file types the selector can map to a
/// (grammar, query) pair.
#[derive(Clone, Copy, PartialEq, Eq, Structural, Debug)]
pub enum Grammar {
    C,
    Cpp,
    Python,
}

/// How a file's regions are to be extracted: through a registered grammar,
/// or by the whole-line fallback.
#[derive(Clone, Copy, PartialEq, Eq, Structural, Debug)]
pub enum RegionStrategy {
    Syntax(Grammar),
    PlainLines,
}

/// Why syntax-driven extraction failed; each is fatal for the file.
#[derive(Clone, Copy, PartialEq, Eq, Structural, Debug)]
pub enum ExtractError {
    /// The parse pipeline failed: the grammar could not be loaded, the
    /// text could not be parsed, or the region query was rejected.
    Parse,
    /// A match's reported coordinates do not lie within the text.
    SpanBounds,
}

/// What the tree-sitter pipeline yields for a grammar and a text: `None`
/// when loading the grammar, parsing the text, or compiling the grammar's
/// fixed region query fails, otherwise one entry per query match in match
/// order (`None` for a match without captures). Parsing is deterministic,
/// the query is a fixed literal per grammar, and the cursor's match order
/// is a function of the tree alone, so the outcome is a function of the
/// two arguments.
pub uninterp spec fn spec_raw_matches(grammar: Grammar, text: Seq<u8>) -> Option<
    Seq<Option<RawSpan>>,
>;

/// The grammar's region query: which node kinds hold checkable prose.
fn query_source(grammar: Grammar) -> &'static str {
    match grammar {
        Grammar::C | Grammar::Cpp => "(comment) @text\n(string_literal) @text",
        Grammar::Python => "(comment) @text\n(string) @text",
    }
}

/// Relies on tree_sitter (Parser::set_language, Parser::parse, Query::new,
/// QueryCursor::matches, Node::start_position, Node::byte_range) and on
/// the grammar crates' language functions: parse the text with the
/// grammar, run the grammar's region query over the whole tree, and hand
/// out each match's first captured node as raw coordinates, in match
/// order. The query is one of this crate's two fixed literals (both valid,
/// with no text predicates) and the matched tree comes from the same
/// buffer the cursor walks, so no call here panics.
#[verifier::external_body]
fn raw_matches(grammar: Grammar, text: &[u8]) -> (r: Option<Vec<Option<RawSpan>>>)
    ensures
        r is None <==> spec_raw_matches(grammar, text@) is None,
        r matches Some(raw) ==> spec_raw_matches(grammar, text@) == Some(raw@),
{
    let language = match grammar {
        Grammar::C => tree_sitter_c::language(),
        Grammar::Cpp => tree_sitter_cpp::language(),
        Grammar::Python => tree_sitter_python::language(),
    };
    let mut parser = Parser::new();
    parser.set_language(language).ok()?;
    let tree = parser.parse(text, None)?;
    let query = Query::new(language, query_source(grammar)).ok()?;
    Some(QueryCursor::new().matches(&query, tree.root_node(), text).map(|m|
        m.captures.get(0).map(|c| (c.node.start_position(), c.node.byte_range())).map(|(p, b)|
            RawSpan { row: p.row, column: p.column, start: b.start, end: b.end })).collect())
}

/// The lower-case letters the registered extensions are spelled with.
pub const LOWER_C: u8 = 99;

pub const LOWER_H: u8 = 104;

pub const LOWER_P: u8 = 112;

pub const LOWER_X: u8 = 120;

pub const LOWER_Y: u8 = 121;

pub open spec fn is_c_extension(e: Seq<u8>) -> bool {
    e == seq![LOWER_C] || e == seq![LOWER_H]
}

pub open spec fn is_cpp_extension(e: Seq<u8>) -> bool {
    ||| e == seq![LOWER_C, LOWER_C]
    ||| e == seq![LOWER_C, LOWER_P, LOWER_P]
    ||| e == seq![LOWER_C, LOWER_X, LOWER_X]
    ||| e == seq![LOWER_H, LOWER_H]
    ||| e == seq![LOWER_H, LOWER_P, LOWER_P]
    ||| e == seq![LOWER_H, LOWER_X, LOWER_X]
}

pub open spec fn is_python_extension(e: Seq<u8>) -> bool {
    e == seq![LOWER_P, LOWER_Y]
}

/// The selector's whole mapping: a registered extension chooses its
/// grammar; anything else — including no extension at all — falls back to
/// whole-line extraction. Unknown types never fail.
pub open spec fn spec_select_strategy(extension: Option<Seq<u8>>) -> RegionStrategy {
    match extension {
        Option::None => RegionStrategy::PlainLines,
        Option::Some(e) => {
            if is_c_extension(e) {
                RegionStrategy::Syntax(Grammar::C)
            } else if is_cpp_extension(e) {
                RegionStrategy::Syntax(Grammar::Cpp)
            } else if is_python_extension(e) {
                RegionStrategy::Syntax(Grammar::Python)
            } else {
                RegionStrategy::PlainLines
            }
        },
    }
}

fn byte_at(e: &[u8], i: usize) -> (b: u8)
    requires
        i < e@.len(),
    ensures
        b == e@[i as int],
{
    *vstd::slice::slice_index_get(e, i)
}

fn matches_c(e: &[u8]) -> (r: bool)
    ensures
        r == is_c_extension(e@),
{
    if e.len() == 1 {
        let b0 = byte_at(e, 0);
        proof {
            assert(e@ =~= seq![e@[0]]);
        }
        b0 == LOWER_C || b0 == LOWER_H
    } else {
        false
    }
}

fn matches_cpp(e: &[u8]) -> (r: bool)
    ensures
        r == is_cpp_extension(e@),
{
    if e.len() == 2 {
        let b0 = byte_at(e, 0);
        let b1 = byte_at(e, 1);
        proof {
            assert(e@ =~= seq![e@[0], e@[1]]);
        }
        (b0 == LOWER_C && b1 == LOWER_C) || (b0 == LOWER_H && b1 == LOWER_H)
    } else if e.len() == 3 {
        let b0 = byte_at(e, 0);
        let b1 = byte_at(e, 1);
        let b2 = byte_at(e, 2);
        proof {
            assert(e@ =~= seq![e@[0], e@[1], e@[2]]);
        }
        (b0 == LOWER_C || b0 == LOWER_H) && ((b1 == LOWER_P && b2 == LOWER_P) || (b1 == LOWER_X
            && b2 == LOWER_X))
    } else {
        false
    }
}

fn matches_python(e: &[u8]) -> (r: bool)
    ensures
        r == is_python_extension(e@),
{
    if e.len() == 2 {
        let b0 = byte_at(e, 0);
        let b1 = byte_at(e, 1);
        proof {
            assert(e@ =~= seq![e@[0], e@[1]]);
        }
        b0 == LOWER_P && b1 == LOWER_Y
    } else {
        false
    }
}

/// The language region selector: map a file's extension to its extraction
/// strategy, falling back to whole lines for unrecognized files.
pub fn select_strategy(extension: Option<&[u8]>) -> (strategy: RegionStrategy)
    ensures
        strategy == spec_select_strategy(
            match extension {
                Option::Some(e) => Option::Some(e@),
                Option::None => Option::None,
            },
        ),
{
    match extension {
        Option::None => RegionStrategy::PlainLines,
        Option::Some(e) => {
            if matches_c(e) {
                RegionStrategy::Syntax(Grammar::C)
            } else if matches_cpp(e) {
                RegionStrategy::Syntax(Grammar::Cpp)
            } else if matches_python(e) {
                RegionStrategy::Syntax(Grammar::Python)
            } else {
                RegionStrategy::PlainLines
            }
        },
    }
}

/// One raw match's coordinates address the text and give representable
/// line numbers.
pub open spec fn raw_span_valid(s: RawSpan, text: Seq<u8>) -> bool {
    &&& s.start <= s.end <= text.len()
    &&& s.row + (s.end - s.start) <= usize::MAX
}

/// Every captured match of the raw sequence is valid against the text.
pub open spec fn spans_all_valid(raw: Seq<Option<RawSpan>>, text: Seq<u8>) -> bool {
    forall|j: int|
        0 <= j < raw.len() ==> ((#[trigger] raw[j]) matches Some(s) ==> raw_span_valid(s, text))
}

/// What one raw entry contributes: a match without captures contributes
/// nothing; a captured match contributes its (row, column, node text)
/// model, the text sliced out of the file by its byte range.
pub open spec fn entry_models(entry: Option<RawSpan>, text: Seq<u8>) -> Seq<(int, int, Seq<u8>)> {
    match entry {
        Option::Some(s) => seq![
            (s.row as int, s.column as int, text.subrange(s.start as int, s.end as int)),
        ],
        Option::None => Seq::empty(),
    }
}

/// The span models of a whole raw match sequence, in match order.
pub open spec fn span_models_of(raw: Seq<Option<RawSpan>>, text: Seq<u8>) -> Seq<
    (int, int, Seq<u8>),
>
    decreases raw.len(),
{
    if raw.len() == 0 {
        Seq::empty()
    } else {
        entry_models(raw[0], text) + span_models_of(raw.drop_first(), text)
    }
}

/// What the whole extractor owes for a grammar and a text: the parse
/// pipeline's failure is the parse error; a raw match that does not
/// address the text is the bounds error; otherwise the fragment models of
/// the matches' spans, in match order.
pub open spec fn spec_extract_outcome(grammar: Grammar, text: Seq<u8>) -> Result<
    Seq<(int, int, Seq<u8>)>,
    ExtractError,
> {
    match spec_raw_matches(grammar, text) {
        Option::None => Result::Err(ExtractError::Parse),
        Option::Some(raw) => {
            if spans_all_valid(raw, text) {
                Result::Ok(models_fragments(span_models_of(raw, text)))
            } else {
                Result::Err(ExtractError::SpanBounds)
            }
        },
    }
}

/// Taking one more raw entry appends exactly that entry's contribution.
proof fn lemma_span_models_take_step(raw: Seq<Option<RawSpan>>, text: Seq<u8>, k: int)
    requires
        0 <= k < raw.len(),
    ensures
        span_models_of(raw.take(k + 1), text) == span_models_of(raw.take(k), text) + entry_models(
            raw[k],
            text,
        ),
    decreases k,
{
    if k == 0 {
        assert(raw.take(1) =~= seq![raw[0]]);
        assert(raw.take(0) =~= Seq::<Option<RawSpan>>::empty());
        assert(raw.take(1).drop_first() =~= Seq::<Option<RawSpan>>::empty());
        assert(span_models_of(Seq::<Option<RawSpan>>::empty(), text) =~= Seq::<
            (int, int, Seq<u8>),
        >::empty());
        assert(span_models_of(raw.take(1), text) == entry_models(raw.take(1)[0], text)
            + span_models_of(raw.take(1).drop_first(), text));
        assert(raw.take(1)[0] == raw[0]);
        assert(entry_models(raw[0], text) + Seq::<(int, int, Seq<u8>)>::empty() =~= entry_models(
            raw[0],
            text,
        ));
        assert(span_models_of(raw.take(0), text) + entry_models(raw[0], text) =~= entry_models(
            raw[0],
            text,
        ));
    } else {
        let tail = raw.drop_first();
        lemma_span_models_take_step(tail, text, k - 1);
        assert(raw.take(k + 1).drop_first() =~= tail.take(k));
        assert(raw.take(k).drop_first() =~= tail.take(k - 1));
        assert(raw.take(k + 1)[0] == raw[0]);
        assert(raw.take(k)[0] == raw[0]);
        assert(tail[k - 1] == raw[k]);
        assert(entry_models(raw[0], text) + (span_models_of(tail.take(k - 1), text) + entry_models(
            raw[k],
            text,
        )) =~= (entry_models(raw[0], text) + span_models_of(tail.take(k - 1), text))
            + entry_models(raw[k], text));
    }
}

/// Check each raw match against the text and slice its node text out:
/// the result is exactly the raw sequence's span models, or the bounds
/// error exactly when some captured match does not address the text.
fn spans_to_node_spans(text: &[u8], raw: &Vec<Option<RawSpan>>) -> (r: Result<
    Vec<NodeSpan>,
    ExtractError,
>)
    ensures
        r is Ok <==> spans_all_valid(raw@, text@),
        r is Err ==> r == Result::<Vec<NodeSpan>, ExtractError>::Err(ExtractError::SpanBounds),
        r matches Ok(spans) ==> spans@.map_values(|s: NodeSpan| span_model(s)) == span_models_of(
            raw@,
            text@,
        ),
        r matches Ok(spans) ==> forall|j: int|
            0 <= j < spans@.len() ==> span_in_range(#[trigger] spans@[j]),
{
    let mut spans: Vec<NodeSpan> = Vec::new();
    let mut i: usize = 0;
    let text_length: usize = text.len();
    proof {
        assert(raw@.take(0) =~= Seq::<Option<RawSpan>>::empty());
        assert(spans@.map_values(|s: NodeSpan| span_model(s)) =~= span_models_of(
            raw@.take(0),
            text@,
        ));
    }
    while i < raw.len()
        invariant
            i <= raw@.len(),
            text_length == text@.len(),
            forall|j: int|
                0 <= j < i ==> ((#[trigger] raw@[j]) matches Some(s) ==> raw_span_valid(s, text@)),
            spans@.map_values(|s: NodeSpan| span_model(s)) == span_models_of(
                raw@.take(i as int),
                text@,
            ),
            forall|j: int| 0 <= j < spans@.len() ==> span_in_range(#[trigger] spans@[j]),
        decreases raw@.len() - i,
    {
        let ghost previous = spans@.map_values(|s: NodeSpan| span_model(s));
        match raw[i] {
            Option::None => {
                proof {
                    lemma_span_models_take_step(raw@, text@, i as int);
                    assert(previous + entry_models(raw@[i as int], text@) =~= previous);
                }
            },
            Option::Some(s) => {
                if s.start > s.end || s.end > text_length {
                    proof {
                        assert(!raw_span_valid(s, text@));
                    }
                    return Result::Err(ExtractError::SpanBounds);
                }
                if s.row > usize::MAX - (s.end - s.start) {
                    proof {
                        assert(!raw_span_valid(s, text@));
                    }
                    return Result::Err(ExtractError::SpanBounds);
                }
                let piece = vstd::slice::slice_subrange(text, s.start, s.end);
                let node_text = vstd::slice::slice_to_vec(piece);
                let node = NodeSpan { row: s.row, column: s.column, text: node_text };
                proof {
                    lemma_lines_count(node.text@);
                    assert(span_in_range(node));
                }
                spans.push(node);
                proof {
                    lemma_span_models_take_step(raw@, text@, i as int);
                    assert(entry_models(raw@[i as int], text@) =~= seq![span_model(node)]);
                    assert(spans@.map_values(|s2: NodeSpan| span_model(s2)) =~= previous + seq![
                        span_model(node),
                    ]);
                }
            },
        }
        i = i + 1;
    }
    proof {
        assert(raw@.take(raw@.len() as int) =~= raw@);
    }
    Result::Ok(spans)
}

/// Syntax-driven extraction: parse the text with the grammar, run the
/// grammar's region query, and decompose every matched node into
/// position-tracked fragments, in match order. The result is pinned to
/// `spec_extract_outcome`: a parse or query failure surfaces as the parse
/// error, never as a partial or empty result, and a match outside the
/// text surfaces as the bounds error.
pub fn extract_regions_treesitter(text: &[u8], grammar: Grammar) -> (r: Result<
    Vec<TextFragment>,
    ExtractError,
>)
    ensures
        r matches Err(error) ==> spec_extract_outcome(grammar, text@) == Result::<
            Seq<(int, int, Seq<u8>)>,
            ExtractError,
        >::Err(error),
        r matches Ok(fragments) ==> spec_extract_outcome(grammar, text@) == Result::<
            Seq<(int, int, Seq<u8>)>,
            ExtractError,
        >::Ok(fragments@.map_values(|f: TextFragment| frag_model(f))),
        r matches Ok(fragments) ==> forall|i: int|
            0 <= i < fragments@.len() ==> (#[trigger] fragments@[i]).wf(),
{
    let raw = match raw_matches(grammar, text) {
        Option::Some(raw) => raw,
        Option::None => {
            return Result::Err(ExtractError::Parse);
        },
    };
    let spans = match spans_to_node_spans(text, &raw) {
        Result::Ok(spans) => spans,
        Result::Err(error) => {
            return Result::Err(error);
        },
    };
    let fragments = fragments_from_spans(&spans);
    proof {
        let models = span_models_of(raw@, text@);
        assert forall|j: int| #![trigger spans@[j]] 0 <= j < spans@.len() implies spans@.map_values(
            |s: NodeSpan| span_fragments(s),
        )[j] == models.map_values(|m: (int, int, Seq<u8>)| model_fragments(m))[j] by {
            assert(models[j] == spans@.map_values(|s: NodeSpan| span_model(s))[j]);
        }
        assert(spans@.map_values(|s: NodeSpan| span_fragments(s)) =~= models.map_values(
            |m: (int, int, Seq<u8>)| model_fragments(m),
        ));
        assert(fragments@.map_values(|f: TextFragment| frag_model(f)) == models_fragments(models));
    }
    Result::Ok(fragments)
}

} // verus!
