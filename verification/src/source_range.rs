//! Source ranges: byte-offset provenance attached to values and errors.

use vstd::prelude::*;

verus! {

/// A pair of byte offsets `[start, end]` into the source text.
#[derive(Debug, Default, Clone, Copy, PartialEq, Eq, Hash)]
pub struct SourceRange(pub [usize; 2]);

impl SourceRange {
    /// The start offset of the range.
    pub open spec fn spec_start(&self) -> usize {
        self.0[0]
    }

    /// The end offset of the range.
    pub open spec fn spec_end(&self) -> usize {
        self.0[1]
    }

    /// Create a new source range.
    pub fn new(start: usize, end: usize) -> (r: Self)
        ensures
            r.spec_start() == start,
            r.spec_end() == end,
    {
        SourceRange([start, end])
    }

    /// Get the start of the range.
    pub fn start(&self) -> (r: usize)
        ensures
            r == self.spec_start(),
    {
        self.0[0]
    }

    /// Get the end of the range.
    pub fn end(&self) -> (r: usize)
        ensures
            r == self.spec_end(),
    {
        self.0[1]
    }

    /// Check if the range contains a position.
    pub fn contains(&self, pos: usize) -> (r: bool)
        ensures
            r == (self.spec_start() <= pos <= self.spec_end()),
    {
        pos >= self.start() && pos <= self.end()
    }
}

/// Metadata: provenance carried by every runtime value.
#[derive(Debug, Clone, Copy, PartialEq, Eq)]
pub struct Metadata {
    /// The source range.
    pub source_range: SourceRange,
}

impl From<SourceRange> for Metadata {
    fn from(source_range: SourceRange) -> (r: Self) {
        Metadata { source_range }
    }
}

impl vstd::std_specs::convert::FromSpecImpl<SourceRange> for Metadata {
    open spec fn obeys_from_spec() -> bool {
        true
    }

    open spec fn from_spec(t: SourceRange) -> Self {
        Metadata { source_range: t }
    }
}

} // verus!
