//! The canonical shape calculator: a pure function from a power-of-two
//! sector byte size to the arity triple of its canonical multi-level
//! Merkle-tree decomposition.

use vstd::prelude::*;

use vstd::arithmetic::logarithm::{lemma_log_pow, log};
use vstd::arithmetic::power2::{
    is_pow2, lemma2_to64, lemma_pow2, lemma_pow2_strictly_increases, lemma_pow2_unfold, pow2,
};

use crate::shape::{ArityTriple, ShapeError};

verus! {

/// Bytes per tree node: every leaf and inner unit of a sector tree
/// represents 32 bytes.
pub const NODE_SIZE: u64 = 32;

/// Log base 2 of `NODE_SIZE`.
pub const LOG_NODE_SIZE: u64 = 5;

/// Largest allowable arity exponent: the optimal base arity is
/// `2^MAX_TREE_LOG == 8`.
pub const MAX_TREE_LOG: u64 = 3;

/// A base level caps out at representing `2^LOG_MAX_BASE` nodes
/// (4 GiB worth of data).
pub const LOG_MAX_BASE: u64 = 27;

/// A size the calculator accepts: a power of two spanning at least one
/// whole node.
pub open spec fn valid_sector_size(size: u64) -> bool {
    is_pow2(size as int) && size >= NODE_SIZE
}

/// Log base 2 of the number of nodes in a sector of the given byte size.
pub open spec fn log2_node_count(size: u64) -> nat
    recommends
        valid_sector_size(size),
{
    (log(2, size as int) - LOG_NODE_SIZE) as nat
}

/// The canonical arity triple for a sector of `2^log_nodes` nodes.
///
/// The largest multiple of `MAX_TREE_LOG` not exceeding both `log_nodes`
/// and `LOG_MAX_BASE` goes to the base level; of the remaining bits, whole
/// multiples of `MAX_TREE_LOG` fill an optimal sub level and any remainder
/// goes to the sub level if it is alone, else to a separate top level.
pub open spec fn shape_of_log_nodes(log_nodes: nat) -> ArityTriple {
    let full_octs = (log_nodes / (MAX_TREE_LOG as nat)) * (MAX_TREE_LOG as nat);
    let log_in_base = if full_octs <= LOG_MAX_BASE { full_octs } else { LOG_MAX_BASE as nat };
    let log_upper = (log_nodes - log_in_base) as nat;
    let log_rem = log_upper % (MAX_TREE_LOG as nat);
    if log_upper == 0 {
        ArityTriple { base: pow2(MAX_TREE_LOG as nat) as u64, sub: 0, top: 0 }
    } else if log_rem == 0 {
        ArityTriple {
            base: pow2(MAX_TREE_LOG as nat) as u64,
            sub: pow2(MAX_TREE_LOG as nat) as u64,
            top: 0,
        }
    } else if log_upper > MAX_TREE_LOG {
        ArityTriple {
            base: pow2(MAX_TREE_LOG as nat) as u64,
            sub: pow2(MAX_TREE_LOG as nat) as u64,
            top: pow2(log_rem) as u64,
        }
    } else {
        ArityTriple { base: pow2(MAX_TREE_LOG as nat) as u64, sub: pow2(log_rem) as u64, top: 0 }
    }
}

/// The canonical arity triple for a sector of the given byte size.
pub open spec fn canonical_triple(size: u64) -> ArityTriple
    recommends
        valid_sector_size(size),
{
    shape_of_log_nodes(log2_node_count(size))
}

/// Everything `canonical_shape` promises of its result: it succeeds exactly
/// on the valid sizes, and on those it returns the canonical triple.
pub open spec fn canonical_shape_post(size: u64, r: Result<ArityTriple, ShapeError>) -> bool {
    &&& r is Ok <==> valid_sector_size(size)
    &&& valid_sector_size(size) ==> r == Ok::<ArityTriple, ShapeError>(canonical_triple(size))
    &&& !valid_sector_size(size) ==> r == Err::<ArityTriple, ShapeError>(ShapeError::InvalidSize)
}

/// Compute the canonical shape of a sector of `sector_size` bytes.
///
/// Returns `Err(ShapeError::InvalidSize)` exactly when `sector_size` is not
/// a power of two of at least `NODE_SIZE` bytes.
pub fn canonical_shape(sector_size: u64) -> (r: Result<ArityTriple, ShapeError>)
    ensures
        canonical_shape_post(sector_size, r),
        r matches Ok(t) ==> t.wf(),
{
    if sector_size < NODE_SIZE {
        return Err(ShapeError::InvalidSize);
    }

    // Strip factors of two, so that at the end `pow2(log_size) == sector_size`.
    let mut v: u64 = sector_size;
    let mut log_size: u64 = 0;
    proof {
        lemma2_to64();
    }
    while v > 1
        invariant
            1 <= v <= sector_size,
            sector_size >= NODE_SIZE,
            pow2(log_size as nat) * (v as int) == sector_size as int,
            pow2(log_size as nat) <= sector_size,
            is_pow2(sector_size as int) <==> is_pow2(v as int),
        decreases v,
    {
        if v % 2 == 1 {
            proof {
                // An odd factor above one means the size is not a power of two.
                reveal(is_pow2);
            }
            return Err(ShapeError::InvalidSize);
        }
        proof {
            reveal(is_pow2);
            lemma2_to64();
            if log_size >= 64 {
                if log_size > 64 {
                    lemma_pow2_strictly_increases(64, log_size as nat);
                }
                assert(false);
            }
            lemma_pow2_unfold((log_size + 1) as nat);
            assert(pow2((log_size + 1) as nat) * ((v / 2) as int) == pow2(log_size as nat) * (
            v as int)) by (nonlinear_arith)
                requires
                    pow2((log_size + 1) as nat) == 2 * pow2(log_size as nat),
                    v % 2 == 0,
            ;
            assert(pow2((log_size + 1) as nat) <= pow2((log_size + 1) as nat) * ((v / 2) as int))
                by (nonlinear_arith)
                requires
                    v >= 2,
            ;
        }
        v = v / 2;
        log_size = log_size + 1;
    }

    proof {
        reveal(is_pow2);
        assert(pow2(log_size as nat) == sector_size);
        lemma_pow2(log_size as nat);
        lemma_log_pow(2, log_size as nat);
        lemma2_to64();
        if log_size < LOG_NODE_SIZE {
            lemma_pow2_strictly_increases(log_size as nat, LOG_NODE_SIZE as nat);
            assert(false);
        }
        if log_size >= 64 {
            if log_size > 64 {
                lemma_pow2_strictly_increases(64, log_size as nat);
            }
            assert(false);
        }
    }

    let log_nodes: u64 = log_size - LOG_NODE_SIZE;
    let full_octs: u64 = (log_nodes / MAX_TREE_LOG) * MAX_TREE_LOG;
    let log_in_base: u64 = if full_octs <= LOG_MAX_BASE {
        full_octs
    } else {
        LOG_MAX_BASE
    };
    let log_upper: u64 = log_nodes - log_in_base;
    let log_rem: u64 = log_upper % MAX_TREE_LOG;

    let triple = if log_upper == 0 {
        ArityTriple { base: 8, sub: 0, top: 0 }
    } else if log_rem == 0 {
        ArityTriple { base: 8, sub: 8, top: 0 }
    } else if log_upper > MAX_TREE_LOG {
        ArityTriple { base: 8, sub: 8, top: if log_rem == 1 { 2 } else { 4 } }
    } else {
        ArityTriple { base: 8, sub: if log_rem == 1 { 2 } else { 4 }, top: 0 }
    };
    proof {
        lemma2_to64();
        assert(triple == shape_of_log_nodes(log_nodes as nat));
    }
    Ok(triple)
}

/// Law: the calculator is deterministic. Any two results its contract
/// allows for the same size are equal, so repeated calls on one input
/// always yield one output.
pub proof fn lemma_calculator_deterministic(
    size: u64,
    r1: Result<ArityTriple, ShapeError>,
    r2: Result<ArityTriple, ShapeError>,
)
    requires
        canonical_shape_post(size, r1),
        canonical_shape_post(size, r2),
    ensures
        r1 == r2,
{
}

} // verus!
