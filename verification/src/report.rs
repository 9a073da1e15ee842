//! The report emitter: composing a fragment's file coordinates with a
//! hit's intra-fragment offset into one finding per misspelling, and
//! rendering the output line.

use crate::fragment::{hit_in_range, MisspellingHit, TextFragment};
use vstd::prelude::*;

verus! {

/// One externally visible misspelling: its 1-based line, its 0-based
/// column within that line, and the reported text (the bare token, or the
/// whole fragment with the token delimited, in context mode).
pub struct Finding {
    pub line: usize,
    pub column: usize,
    pub token: Vec<u8>,
}

/// Coordinate composition: the finding for a hit `(o, l)` in a fragment
/// with column offset `k` lies at the fragment's line and column `k + o`,
/// and its token is the fragment text's bytes `[o, o + l)`.
///
/// Hits are taken as byte offsets, as the engine reports them; for text
/// with multi-byte characters the slice is byte-exact, and the column is a
/// byte column, not a display column.
pub fn compose_finding(fragment: &TextFragment, hit: &MisspellingHit) -> (finding: Finding)
    requires
        hit_in_range(*fragment, *hit),
        fragment.column_offset + hit.offset <= usize::MAX,
    ensures
        finding.line == fragment.line,
        finding.column == fragment.column_offset + hit.offset,
        finding.token@ == fragment.text@.subrange(
            hit.offset as int,
            hit.offset + hit.length,
        ),
{
    let text_length: usize = fragment.text.len();
    proof {
        assert(hit.offset + hit.length <= text_length);
    }
    let piece = vstd::slice::slice_subrange(
        fragment.text.as_slice(),
        hit.offset,
        hit.offset + hit.length,
    );
    let token = vstd::slice::slice_to_vec(piece);
    Finding { line: fragment.line, column: fragment.column_offset + hit.offset, token }
}

/// Compose a finding after checking the hit against the fragment, instead
/// of demanding it: an engine hit that does not address the fragment's
/// text, or a column beyond the address space, yields nothing.
pub fn finding_for_hit(fragment: &TextFragment, hit: &MisspellingHit) -> (r: Option<Finding>)
    ensures
        r is Some <==> hit_in_range(*fragment, *hit) && fragment.column_offset + hit.offset
            <= usize::MAX,
        r matches Some(finding) ==> {
            &&& finding.line == fragment.line
            &&& finding.column == fragment.column_offset + hit.offset
            &&& finding.token@ == fragment.text@.subrange(hit.offset as int, hit.offset + hit.length)
        },
{
    if hit.offset <= fragment.text.len() && hit.length <= fragment.text.len() - hit.offset
        && hit.offset <= usize::MAX - fragment.column_offset {
        Some(compose_finding(fragment, hit))
    } else {
        None
    }
}

/// All of one fragment's findings, in hit order; `None` when some hit does
/// not address the fragment's text. The number of findings equals the
/// number of hits: each misspelling is reported exactly once.
pub fn findings_for_fragment(fragment: &TextFragment, hits: &Vec<MisspellingHit>) -> (r: Option<
    Vec<Finding>,
>)
    ensures
        r is Some <==> forall|i: int|
            0 <= i < hits@.len() ==> hit_in_range(*fragment, #[trigger] hits@[i])
                && fragment.column_offset + hits@[i].offset <= usize::MAX,
        r matches Some(findings) ==> findings@.len() == hits@.len(),
        r matches Some(findings) ==> forall|i: int|
            0 <= i < hits@.len() ==> {
                &&& (#[trigger] findings@[i]).line == fragment.line
                &&& findings@[i].column == fragment.column_offset + hits@[i].offset
                &&& findings@[i].token@ == fragment.text@.subrange(
                    hits@[i].offset as int,
                    hits@[i].offset + hits@[i].length,
                )
            },
{
    let mut findings: Vec<Finding> = Vec::new();
    let mut i: usize = 0;
    while i < hits.len()
        invariant
            i <= hits@.len(),
            findings@.len() == i,
            forall|j: int|
                0 <= j < i ==> hit_in_range(*fragment, #[trigger] hits@[j])
                    && fragment.column_offset + hits@[j].offset <= usize::MAX,
            forall|j: int|
                0 <= j < i ==> {
                    &&& (#[trigger] findings@[j]).line == fragment.line
                    &&& findings@[j].column == fragment.column_offset + hits@[j].offset
                    &&& findings@[j].token@ == fragment.text@.subrange(
                        hits@[j].offset as int,
                        hits@[j].offset + hits@[j].length,
                    )
                },
        decreases hits@.len() - i,
    {
        let hit = hits[i];
        match finding_for_hit(fragment, &hit) {
            Some(finding) => findings.push(finding),
            None => {
                return None;
            },
        }
        i = i + 1;
    }
    Some(findings)
}

/// Context rendering: the whole fragment text with the misspelled span
/// wrapped between the two given markers.
pub fn render_context(
    fragment: &TextFragment,
    hit: &MisspellingHit,
    start_marker: &[u8],
    end_marker: &[u8],
) -> (r: Vec<u8>)
    requires
        hit_in_range(*fragment, *hit),
    ensures
        r@ == fragment.text@.subrange(0, hit.offset as int) + start_marker@
            + fragment.text@.subrange(hit.offset as int, hit.offset + hit.length) + end_marker@
            + fragment.text@.subrange(hit.offset + hit.length, fragment.text@.len() as int),
{
    let mut r: Vec<u8> = Vec::new();
    let text = fragment.text.as_slice();
    let text_length: usize = fragment.text.len();
    proof {
        assert(hit.offset + hit.length <= text_length);
    }
    r.extend_from_slice(vstd::slice::slice_subrange(text, 0, hit.offset));
    r.extend_from_slice(start_marker);
    r.extend_from_slice(vstd::slice::slice_subrange(text, hit.offset, hit.offset + hit.length));
    r.extend_from_slice(end_marker);
    r.extend_from_slice(vstd::slice::slice_subrange(text, hit.offset + hit.length, text.len()));
    proof {
        assert(r@ =~= fragment.text@.subrange(0, hit.offset as int) + start_marker@
            + fragment.text@.subrange(hit.offset as int, hit.offset + hit.length) + end_marker@
            + fragment.text@.subrange(hit.offset + hit.length, fragment.text@.len() as int));
    }
    r
}

/// The decimal digits of `n`, most significant first.
pub open spec fn spec_decimal(n: nat) -> Seq<u8>
    decreases n,
{
    if n < 10 {
        seq![(48 + n) as u8]
    } else {
        spec_decimal(n / 10) + seq![(48 + n % 10) as u8]
    }
}

/// Append the decimal rendering of `n`.
fn push_decimal(n: usize, out: &mut Vec<u8>)
    ensures
        final(out)@ == old(out)@ + spec_decimal(n as nat),
    decreases n,
{
    if n < 10 {
        out.push(48 + (n as u8));
        proof {
            assert(final(out)@ =~= old(out)@ + spec_decimal(n as nat));
        }
    } else {
        proof {
            assert(n / 10 < n) by (nonlinear_arith)
                requires
                    n >= 10,
            ;
        }
        push_decimal(n / 10, out);
        out.push(48 + ((n % 10) as u8));
        proof {
            assert(final(out)@ =~= old(out)@ + spec_decimal(n as nat));
        }
    }
}

/// The output line for one finding against one file:
/// `<file> (<line>,<column>): <token-or-context>`.
pub open spec fn spec_finding_line(path: Seq<u8>, line: nat, column: nat, shown: Seq<u8>) -> Seq<
    u8,
> {
    path + seq![32u8, 40u8] + spec_decimal(line) + seq![44u8] + spec_decimal(column) + seq![
        41u8,
        58u8,
        32u8,
    ] + shown
}

/// Render one finding as its output line, showing `shown` (the bare token,
/// or the context rendering) after the coordinates.
pub fn format_finding_line(path: &[u8], line: usize, column: usize, shown: &[u8]) -> (r: Vec<u8>)
    ensures
        r@ == spec_finding_line(path@, line as nat, column as nat, shown@),
{
    let mut r: Vec<u8> = Vec::new();
    r.extend_from_slice(path);
    r.push(32);
    r.push(40);
    push_decimal(line, &mut r);
    r.push(44);
    push_decimal(column, &mut r);
    r.push(41);
    r.push(58);
    r.push(32);
    r.extend_from_slice(shown);
    proof {
        assert(r@ =~= spec_finding_line(path@, line as nat, column as nat, shown@));
    }
    r
}

} // verus!
