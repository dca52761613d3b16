//! The shape registry: the fixed enumeration of supported sector sizes,
//! their classification into shape categories, and the laws tying the
//! registry to the calculator.

use vstd::prelude::*;

use vstd::arithmetic::logarithm::lemma_log_pow;
use vstd::arithmetic::power2::{
    is_pow2_equiv, is_pow2_exists, lemma2_to64, lemma2_to64_rest, lemma_pow2,
    lemma_pow2_strictly_increases, pow2,
};

use crate::calculator::{canonical_triple, shape_of_log_nodes, valid_sector_size, LOG_NODE_SIZE};
use crate::shape::{arity_of_spec, ShapeCategory};

verus! {

/// 2 KiB sector.
pub const SECTOR_SIZE_2_KIB: u64 = 2_048;

/// 4 KiB sector.
pub const SECTOR_SIZE_4_KIB: u64 = 4_096;

/// 16 KiB sector.
pub const SECTOR_SIZE_16_KIB: u64 = 16_384;

/// 32 KiB sector.
pub const SECTOR_SIZE_32_KIB: u64 = 32_768;

/// 8 MiB sector.
pub const SECTOR_SIZE_8_MIB: u64 = 8_388_608;

/// 16 MiB sector.
pub const SECTOR_SIZE_16_MIB: u64 = 16_777_216;

/// 512 MiB sector.
pub const SECTOR_SIZE_512_MIB: u64 = 536_870_912;

/// 1 GiB sector.
pub const SECTOR_SIZE_1_GIB: u64 = 1_073_741_824;

/// 32 GiB sector.
pub const SECTOR_SIZE_32_GIB: u64 = 34_359_738_368;

/// 64 GiB sector.
pub const SECTOR_SIZE_64_GIB: u64 = 68_719_476_736;

/// The category of each supported sector size; `None` for every other value.
pub open spec fn classify_spec(size: u64) -> Option<ShapeCategory> {
    if size == SECTOR_SIZE_2_KIB || size == SECTOR_SIZE_8_MIB || size == SECTOR_SIZE_512_MIB {
        Some(ShapeCategory::Base)
    } else if size == SECTOR_SIZE_4_KIB || size == SECTOR_SIZE_16_MIB || size == SECTOR_SIZE_1_GIB {
        Some(ShapeCategory::Sub2)
    } else if size == SECTOR_SIZE_16_KIB || size == SECTOR_SIZE_32_GIB {
        Some(ShapeCategory::Sub8)
    } else if size == SECTOR_SIZE_32_KIB || size == SECTOR_SIZE_64_GIB {
        Some(ShapeCategory::Top2)
    } else {
        None
    }
}

/// A size is supported when it is one of the ten registered sector sizes.
pub open spec fn is_supported_size(size: u64) -> bool {
    classify_spec(size) is Some
}

/// The supported sizes of category `Base`.
pub open spec fn is_base_size(size: u64) -> bool {
    classify_spec(size) == Some(ShapeCategory::Base)
}

/// The supported sizes of category `Sub2`.
pub open spec fn is_sub2_size(size: u64) -> bool {
    classify_spec(size) == Some(ShapeCategory::Sub2)
}

/// The supported sizes of category `Sub8`.
pub open spec fn is_sub8_size(size: u64) -> bool {
    classify_spec(size) == Some(ShapeCategory::Sub8)
}

/// The supported sizes of category `Top2`.
pub open spec fn is_top2_size(size: u64) -> bool {
    classify_spec(size) == Some(ShapeCategory::Top2)
}

/// Classify a byte size: its category for one of the ten supported sector
/// sizes, `None` for any other value.
pub fn classify(sector_size: u64) -> (r: Option<ShapeCategory>)
    ensures
        r == classify_spec(sector_size),
{
    if sector_size == SECTOR_SIZE_2_KIB || sector_size == SECTOR_SIZE_8_MIB || sector_size
        == SECTOR_SIZE_512_MIB {
        Some(ShapeCategory::Base)
    } else if sector_size == SECTOR_SIZE_4_KIB || sector_size == SECTOR_SIZE_16_MIB || sector_size
        == SECTOR_SIZE_1_GIB {
        Some(ShapeCategory::Sub2)
    } else if sector_size == SECTOR_SIZE_16_KIB || sector_size == SECTOR_SIZE_32_GIB {
        Some(ShapeCategory::Sub8)
    } else if sector_size == SECTOR_SIZE_32_KIB || sector_size == SECTOR_SIZE_64_GIB {
        Some(ShapeCategory::Top2)
    } else {
        None
    }
}

/// True iff `sector_size` is a supported size of category `Base`.
pub fn is_sector_shape_base(sector_size: u64) -> (r: bool)
    ensures
        r == is_base_size(sector_size),
{
    sector_size == SECTOR_SIZE_2_KIB || sector_size == SECTOR_SIZE_8_MIB || sector_size
        == SECTOR_SIZE_512_MIB
}

/// True iff `sector_size` is a supported size of category `Sub2`.
pub fn is_sector_shape_sub2(sector_size: u64) -> (r: bool)
    ensures
        r == is_sub2_size(sector_size),
{
    sector_size == SECTOR_SIZE_4_KIB || sector_size == SECTOR_SIZE_16_MIB || sector_size
        == SECTOR_SIZE_1_GIB
}

/// True iff `sector_size` is a supported size of category `Sub8`.
pub fn is_sector_shape_sub8(sector_size: u64) -> (r: bool)
    ensures
        r == is_sub8_size(sector_size),
{
    sector_size == SECTOR_SIZE_16_KIB || sector_size == SECTOR_SIZE_32_GIB
}

/// True iff `sector_size` is a supported size of category `Top2`.
pub fn is_sector_shape_top2(sector_size: u64) -> (r: bool)
    ensures
        r == is_top2_size(sector_size),
{
    sector_size == SECTOR_SIZE_32_KIB || sector_size == SECTOR_SIZE_64_GIB
}

/// Law: the four category predicates partition the supported sizes. A
/// supported size satisfies exactly one of them; an unsupported size
/// satisfies none.
pub proof fn lemma_category_partition(size: u64)
    ensures
        is_supported_size(size) <==> (is_base_size(size) || is_sub2_size(size) || is_sub8_size(
            size,
        ) || is_top2_size(size)),
        is_base_size(size) ==> !is_sub2_size(size) && !is_sub8_size(size) && !is_top2_size(size),
        is_sub2_size(size) ==> !is_sub8_size(size) && !is_top2_size(size),
        is_sub8_size(size) ==> !is_top2_size(size),
{
}

/// Law: the registry is deterministic. Any two results that `classify`'s
/// contract allows for the same size are equal, so repeated calls on one
/// input always yield one output.
pub proof fn lemma_registry_deterministic(
    size: u64,
    r1: Option<ShapeCategory>,
    r2: Option<ShapeCategory>,
)
    requires
        r1 == classify_spec(size),
        r2 == classify_spec(size),
    ensures
        r1 == r2,
{
}

/// For a size of `pow2(e)` bytes, the calculator accepts the size and its
/// canonical triple is the shape of `e - LOG_NODE_SIZE` node bits.
proof fn lemma_canonical_at_pow2(e: nat, size: u64)
    requires
        pow2(e) == size,
        LOG_NODE_SIZE <= e,
    ensures
        valid_sector_size(size),
        canonical_triple(size) == shape_of_log_nodes((e - LOG_NODE_SIZE) as nat),
{
    lemma_pow2(e);
    lemma_log_pow(2, e);
    assert(is_pow2_exists(size as int));
    is_pow2_equiv(size as int);
    lemma2_to64();
    if e > LOG_NODE_SIZE {
        lemma_pow2_strictly_increases(LOG_NODE_SIZE as nat, e);
    }
}

/// Law: on a supported size, the registry's category resolves to the very
/// triple the calculator computes — except for the 16 KiB and 32 KiB sizes,
/// whose hard-coded categories differ from the calculator's formula.
pub proof fn lemma_registry_matches_calculator(size: u64)
    requires
        is_supported_size(size),
        size != SECTOR_SIZE_16_KIB,
        size != SECTOR_SIZE_32_KIB,
    ensures
        valid_sector_size(size),
        arity_of_spec(classify_spec(size)->Some_0) == canonical_triple(size),
{
    lemma2_to64();
    lemma2_to64_rest();
    if size == SECTOR_SIZE_2_KIB {
        lemma_canonical_at_pow2(11, size);
    } else if size == SECTOR_SIZE_4_KIB {
        lemma_canonical_at_pow2(12, size);
    } else if size == SECTOR_SIZE_8_MIB {
        lemma_canonical_at_pow2(23, size);
    } else if size == SECTOR_SIZE_16_MIB {
        lemma_canonical_at_pow2(24, size);
    } else if size == SECTOR_SIZE_512_MIB {
        lemma_canonical_at_pow2(29, size);
    } else if size == SECTOR_SIZE_1_GIB {
        lemma_canonical_at_pow2(30, size);
    } else if size == SECTOR_SIZE_32_GIB {
        lemma_canonical_at_pow2(35, size);
    } else {
        assert(size == SECTOR_SIZE_64_GIB);
        lemma_canonical_at_pow2(36, size);
    }
}

} // verus!
