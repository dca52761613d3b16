//! The type-specialized dispatcher: route a caller-supplied operation to
//! the arity triple matching a runtime sector size, through an exhaustive
//! case analysis over the ten supported sizes.

use vstd::prelude::*;

use crate::registry::{
    classify_spec, SECTOR_SIZE_16_KIB, SECTOR_SIZE_16_MIB, SECTOR_SIZE_1_GIB, SECTOR_SIZE_2_KIB,
    SECTOR_SIZE_32_GIB, SECTOR_SIZE_32_KIB, SECTOR_SIZE_4_KIB, SECTOR_SIZE_512_MIB,
    SECTOR_SIZE_64_GIB, SECTOR_SIZE_8_MIB,
};
use crate::shape::{arity_of_spec, ArityTriple, ShapeCategory, ShapeError};

verus! {

/// The discrete enumeration of the ten supported sector sizes.
#[derive(Clone, Copy, Debug, PartialEq, Eq, Structural)]
pub enum SectorSize {
    /// 2 KiB.
    KiB2,
    /// 4 KiB.
    KiB4,
    /// 16 KiB.
    KiB16,
    /// 32 KiB.
    KiB32,
    /// 8 MiB.
    MiB8,
    /// 16 MiB.
    MiB16,
    /// 512 MiB.
    MiB512,
    /// 1 GiB.
    GiB1,
    /// 32 GiB.
    GiB32,
    /// 64 GiB.
    GiB64,
}

/// The variant standing for each supported byte size; `None` for every
/// other value.
pub open spec fn sector_size_of_bytes(size: u64) -> Option<SectorSize> {
    if size == SECTOR_SIZE_2_KIB {
        Some(SectorSize::KiB2)
    } else if size == SECTOR_SIZE_4_KIB {
        Some(SectorSize::KiB4)
    } else if size == SECTOR_SIZE_16_KIB {
        Some(SectorSize::KiB16)
    } else if size == SECTOR_SIZE_32_KIB {
        Some(SectorSize::KiB32)
    } else if size == SECTOR_SIZE_8_MIB {
        Some(SectorSize::MiB8)
    } else if size == SECTOR_SIZE_16_MIB {
        Some(SectorSize::MiB16)
    } else if size == SECTOR_SIZE_512_MIB {
        Some(SectorSize::MiB512)
    } else if size == SECTOR_SIZE_1_GIB {
        Some(SectorSize::GiB1)
    } else if size == SECTOR_SIZE_32_GIB {
        Some(SectorSize::GiB32)
    } else if size == SECTOR_SIZE_64_GIB {
        Some(SectorSize::GiB64)
    } else {
        None
    }
}

/// The byte size each variant stands for.
pub open spec fn bytes_of_sector_size(e: SectorSize) -> u64 {
    match e {
        SectorSize::KiB2 => SECTOR_SIZE_2_KIB,
        SectorSize::KiB4 => SECTOR_SIZE_4_KIB,
        SectorSize::KiB16 => SECTOR_SIZE_16_KIB,
        SectorSize::KiB32 => SECTOR_SIZE_32_KIB,
        SectorSize::MiB8 => SECTOR_SIZE_8_MIB,
        SectorSize::MiB16 => SECTOR_SIZE_16_MIB,
        SectorSize::MiB512 => SECTOR_SIZE_512_MIB,
        SectorSize::GiB1 => SECTOR_SIZE_1_GIB,
        SectorSize::GiB32 => SECTOR_SIZE_32_GIB,
        SectorSize::GiB64 => SECTOR_SIZE_64_GIB,
    }
}

/// The shape category of each variant.
pub open spec fn category_of_sector_size(e: SectorSize) -> ShapeCategory {
    classify_spec(bytes_of_sector_size(e))->Some_0
}

impl SectorSize {
    /// Convert a raw byte size into the discrete enumeration; fails on any
    /// value outside the ten supported sizes.
    pub fn from_bytes(size: u64) -> (r: Option<SectorSize>)
        ensures
            r == sector_size_of_bytes(size),
    {
        if size == SECTOR_SIZE_2_KIB {
            Some(SectorSize::KiB2)
        } else if size == SECTOR_SIZE_4_KIB {
            Some(SectorSize::KiB4)
        } else if size == SECTOR_SIZE_16_KIB {
            Some(SectorSize::KiB16)
        } else if size == SECTOR_SIZE_32_KIB {
            Some(SectorSize::KiB32)
        } else if size == SECTOR_SIZE_8_MIB {
            Some(SectorSize::MiB8)
        } else if size == SECTOR_SIZE_16_MIB {
            Some(SectorSize::MiB16)
        } else if size == SECTOR_SIZE_512_MIB {
            Some(SectorSize::MiB512)
        } else if size == SECTOR_SIZE_1_GIB {
            Some(SectorSize::GiB1)
        } else if size == SECTOR_SIZE_32_GIB {
            Some(SectorSize::GiB32)
        } else if size == SECTOR_SIZE_64_GIB {
            Some(SectorSize::GiB64)
        } else {
            None
        }
    }

    /// The byte size this variant stands for.
    pub fn bytes(self) -> (r: u64)
        ensures
            r == bytes_of_sector_size(self),
    {
        match self {
            SectorSize::KiB2 => SECTOR_SIZE_2_KIB,
            SectorSize::KiB4 => SECTOR_SIZE_4_KIB,
            SectorSize::KiB16 => SECTOR_SIZE_16_KIB,
            SectorSize::KiB32 => SECTOR_SIZE_32_KIB,
            SectorSize::MiB8 => SECTOR_SIZE_8_MIB,
            SectorSize::MiB16 => SECTOR_SIZE_16_MIB,
            SectorSize::MiB512 => SECTOR_SIZE_512_MIB,
            SectorSize::GiB1 => SECTOR_SIZE_1_GIB,
            SectorSize::GiB32 => SECTOR_SIZE_32_GIB,
            SectorSize::GiB64 => SECTOR_SIZE_64_GIB,
        }
    }

    /// The shape category of this variant.
    pub fn category(self) -> (r: ShapeCategory)
        ensures
            r == category_of_sector_size(self),
    {
        match self {
            SectorSize::KiB2 | SectorSize::MiB8 | SectorSize::MiB512 => ShapeCategory::Base,
            SectorSize::KiB4 | SectorSize::MiB16 | SectorSize::GiB1 => ShapeCategory::Sub2,
            SectorSize::KiB16 | SectorSize::GiB32 => ShapeCategory::Sub8,
            SectorSize::KiB32 | SectorSize::GiB64 => ShapeCategory::Top2,
        }
    }
}

/// Invoke `operation` with the arity triple of the shape matching the given
/// discrete sector size. Total: every variant has a shape.
pub fn with_shape_enum<R, F: FnOnce(ArityTriple) -> R>(e: SectorSize, operation: F) -> (r: R)
    requires
        call_requires(operation, (arity_of_spec(category_of_sector_size(e)),)),
    ensures
        call_ensures(operation, (arity_of_spec(category_of_sector_size(e)),), r),
{
    match e {
        SectorSize::KiB2 => operation(ArityTriple { base: 8, sub: 0, top: 0 }),
        SectorSize::KiB4 => operation(ArityTriple { base: 8, sub: 2, top: 0 }),
        SectorSize::KiB16 => operation(ArityTriple { base: 8, sub: 8, top: 0 }),
        SectorSize::KiB32 => operation(ArityTriple { base: 8, sub: 8, top: 2 }),
        SectorSize::MiB8 => operation(ArityTriple { base: 8, sub: 0, top: 0 }),
        SectorSize::MiB16 => operation(ArityTriple { base: 8, sub: 2, top: 0 }),
        SectorSize::MiB512 => operation(ArityTriple { base: 8, sub: 0, top: 0 }),
        SectorSize::GiB1 => operation(ArityTriple { base: 8, sub: 2, top: 0 }),
        SectorSize::GiB32 => operation(ArityTriple { base: 8, sub: 8, top: 0 }),
        SectorSize::GiB64 => operation(ArityTriple { base: 8, sub: 8, top: 2 }),
    }
}

/// Invoke `operation` with the arity triple of the shape matching the given
/// raw sector byte size.
///
/// On each of the ten supported sizes this succeeds and hands `operation`
/// the triple of that size's category; on every other value it fails with
/// `ShapeError::UnsupportedSectorSize` without invoking `operation`.
pub fn with_shape<R, F: FnOnce(ArityTriple) -> R>(
    sector_size: u64,
    operation: F,
) -> (r: Result<R, ShapeError>)
    requires
        classify_spec(sector_size) matches Some(c) ==> call_requires(
            operation,
            (arity_of_spec(c),),
        ),
    ensures
        classify_spec(sector_size) matches Some(c) ==> r matches Ok(v) && call_ensures(
            operation,
            (arity_of_spec(c),),
            v,
        ),
        classify_spec(sector_size) is None ==> r == Result::<R, ShapeError>::Err(
            ShapeError::UnsupportedSectorSize,
        ),
{
    match SectorSize::from_bytes(sector_size) {
        Some(e) => Ok(with_shape_enum(e, operation)),
        None => Err(ShapeError::UnsupportedSectorSize),
    }
}

} // verus!
