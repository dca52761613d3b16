//! The arity triple describing a tree shape, the four shape categories, and
//! the faults the library reports.

use vstd::prelude::*;

verus! {

/// How many children a node has at each level of a multi-level Merkle tree.
///
/// `sub == 0` means no sub-tree level exists; `top == 0` means no top-tree
/// level exists.
#[derive(Clone, Copy, Debug, PartialEq, Eq, Structural)]
pub struct ArityTriple {
    /// Children per node at the always-present base level.
    pub base: u64,
    /// Base trees grouped under a sub-tree node, or 0 when absent.
    pub sub: u64,
    /// Sub-trees grouped under a top-tree node, or 0 when absent.
    pub top: u64,
}

impl ArityTriple {
    /// A top level cannot exist without a sub level beneath it.
    pub open spec fn wf(self) -> bool {
        self.top > 0 ==> self.sub > 0
    }
}

/// The four tree shapes that cover all supported sector sizes.
#[derive(Clone, Copy, Debug, PartialEq, Eq, Structural)]
pub enum ShapeCategory {
    /// Base level only: `(8, 0, 0)`.
    Base,
    /// A sub-tree level of arity 2: `(8, 2, 0)`.
    Sub2,
    /// A sub-tree level of arity 8: `(8, 8, 0)`.
    Sub8,
    /// A sub-tree level of arity 8 under a top-tree level of arity 2:
    /// `(8, 8, 2)`.
    Top2,
}

/// The faults this library reports. Both are deterministic: retrying with
/// the same input reproduces the same fault.
#[derive(Clone, Copy, Debug, PartialEq, Eq, Structural)]
pub enum ShapeError {
    /// The calculator received a size that is not a power of two of at
    /// least one node.
    InvalidSize,
    /// The dispatcher received a byte size outside the ten supported values.
    UnsupportedSectorSize,
}

/// The arity triple of each shape category.
pub open spec fn arity_of_spec(category: ShapeCategory) -> ArityTriple {
    match category {
        ShapeCategory::Base => ArityTriple { base: 8, sub: 0, top: 0 },
        ShapeCategory::Sub2 => ArityTriple { base: 8, sub: 2, top: 0 },
        ShapeCategory::Sub8 => ArityTriple { base: 8, sub: 8, top: 0 },
        ShapeCategory::Top2 => ArityTriple { base: 8, sub: 8, top: 2 },
    }
}

/// Resolve a shape category to its arity triple: a total, constant lookup.
pub fn arity_of(category: ShapeCategory) -> (r: ArityTriple)
    ensures
        r == arity_of_spec(category),
        r.wf(),
{
    match category {
        ShapeCategory::Base => ArityTriple { base: 8, sub: 0, top: 0 },
        ShapeCategory::Sub2 => ArityTriple { base: 8, sub: 2, top: 0 },
        ShapeCategory::Sub8 => ArityTriple { base: 8, sub: 8, top: 0 },
        ShapeCategory::Top2 => ArityTriple { base: 8, sub: 8, top: 2 },
    }
}

} // verus!
