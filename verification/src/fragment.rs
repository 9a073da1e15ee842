//! Position-tracked text: one physical line's worth of checkable content,
//! remembering where in the file it came from.

use crate::lines::LINE_FEED;
use vstd::prelude::*;

verus! {

/// One physical line's worth of checkable text, tracked back to its place
/// in the original file.
pub struct TextFragment {
    /// 1-based line number in the file.
    pub line: usize,
    /// 0-based starting column of `text` within its line.
    pub column_offset: usize,
    /// The fragment's bytes; never contains a line feed.
    pub text: Vec<u8>,
}

/// One misspelling reported by the checking engine, scoped to a single
/// fragment submission: a byte offset into the submitted text and the
/// length of the misspelled token.
#[derive(Clone, Copy, PartialEq, Eq, Structural, Debug)]
pub struct MisspellingHit {
    pub offset: usize,
    pub length: usize,
}

impl TextFragment {
    /// A fragment is well formed when it carries a real (1-based) line
    /// number and its text is confined to one physical line.
    pub open spec fn wf(self) -> bool {
        &&& self.line >= 1
        &&& forall|i: int| 0 <= i < self.text@.len() ==> self.text@[i] != LINE_FEED
    }
}

/// The (line, column offset, text) triple a fragment stands for.
pub open spec fn frag_model(f: TextFragment) -> (int, int, Seq<u8>) {
    (f.line as int, f.column_offset as int, f.text@)
}

/// A hit addresses bytes that actually lie inside the fragment's text.
pub open spec fn hit_in_range(f: TextFragment, h: MisspellingHit) -> bool {
    h.offset + h.length <= f.text@.len()
}

} // verus!
