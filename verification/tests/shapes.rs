use sector_shape::calculator::canonical_shape;
use sector_shape::dispatch::{with_shape, with_shape_enum, SectorSize};
use sector_shape::registry::{
    classify, is_sector_shape_base, is_sector_shape_sub2, is_sector_shape_sub8,
    is_sector_shape_top2, SECTOR_SIZE_16_KIB, SECTOR_SIZE_16_MIB, SECTOR_SIZE_1_GIB,
    SECTOR_SIZE_2_KIB, SECTOR_SIZE_32_GIB, SECTOR_SIZE_32_KIB, SECTOR_SIZE_4_KIB,
    SECTOR_SIZE_512_MIB, SECTOR_SIZE_64_GIB, SECTOR_SIZE_8_MIB,
};
use sector_shape::shape::{arity_of, ArityTriple, ShapeCategory, ShapeError};

fn triple(base: u64, sub: u64, top: u64) -> ArityTriple {
    ArityTriple { base, sub, top }
}

fn all_supported_sizes() -> Vec<u64> {
    vec![
        SECTOR_SIZE_2_KIB,
        SECTOR_SIZE_4_KIB,
        SECTOR_SIZE_16_KIB,
        SECTOR_SIZE_32_KIB,
        SECTOR_SIZE_8_MIB,
        SECTOR_SIZE_16_MIB,
        SECTOR_SIZE_512_MIB,
        SECTOR_SIZE_1_GIB,
        SECTOR_SIZE_32_GIB,
        SECTOR_SIZE_64_GIB,
    ]
}

fn test_with_shape_macro_aux(sector_size: u64) {
    let expected = canonical_shape(sector_size).unwrap();
    let arities = with_shape(sector_size, |t: ArityTriple| t).unwrap();
    assert_eq!(
        arities, expected,
        "Wrong shape for sector size {}: have {:?} but need {:?}.",
        sector_size, arities, expected
    );
}

#[test]
fn test_with_shape_macro() {
    test_with_shape_macro_aux(SECTOR_SIZE_2_KIB);
    test_with_shape_macro_aux(SECTOR_SIZE_4_KIB);
    test_with_shape_macro_aux(SECTOR_SIZE_8_MIB);
    test_with_shape_macro_aux(SECTOR_SIZE_16_MIB);
    test_with_shape_macro_aux(SECTOR_SIZE_512_MIB);
    test_with_shape_macro_aux(SECTOR_SIZE_1_GIB);
    test_with_shape_macro_aux(SECTOR_SIZE_32_GIB);
    test_with_shape_macro_aux(SECTOR_SIZE_64_GIB);
}

#[test]
fn dispatcher_scenarios() {
    let cases: Vec<(u64, ArityTriple)> = vec![
        (2_048, triple(8, 0, 0)),
        (4_096, triple(8, 2, 0)),
        (16_384, triple(8, 8, 0)),
        (32_768, triple(8, 8, 2)),
        (8 * (1 << 20), triple(8, 0, 0)),
        (16 * (1 << 20), triple(8, 2, 0)),
        (512 * (1 << 20), triple(8, 0, 0)),
        (1 << 30, triple(8, 2, 0)),
        (32 * (1u64 << 30), triple(8, 8, 0)),
        (64 * (1u64 << 30), triple(8, 8, 2)),
    ];
    for (size, expected) in cases {
        let got = with_shape(size, |t: ArityTriple| t);
        assert_eq!(got, Ok(expected), "size {}", size);
    }
}

#[test]
fn dispatcher_rejects_unsupported_sizes() {
    assert_eq!(
        with_shape(3_000_000, |t: ArityTriple| t),
        Err(ShapeError::UnsupportedSectorSize)
    );
    assert_eq!(
        with_shape(0, |t: ArityTriple| t),
        Err(ShapeError::UnsupportedSectorSize)
    );
    assert_eq!(
        with_shape(1_024, |t: ArityTriple| t),
        Err(ShapeError::UnsupportedSectorSize)
    );
}

#[test]
fn dispatcher_never_invokes_operation_on_failure() {
    let r: Result<(), ShapeError> = with_shape(3_000_000, |_t: ArityTriple| {
        panic!("the operation must not run for an unsupported size");
    });
    assert_eq!(r, Err(ShapeError::UnsupportedSectorSize));
}

#[test]
fn dispatcher_forwards_the_operation_result() {
    let r = with_shape(SECTOR_SIZE_2_KIB, |t: ArityTriple| t.base + t.sub + t.top);
    assert_eq!(r, Ok(8));
    let r = with_shape(SECTOR_SIZE_64_GIB, |t: ArityTriple| t.base + t.sub + t.top);
    assert_eq!(r, Ok(18));
}

#[test]
fn dispatcher_enum_covers_every_variant() {
    let cases = vec![
        (SectorSize::KiB2, triple(8, 0, 0)),
        (SectorSize::KiB4, triple(8, 2, 0)),
        (SectorSize::KiB16, triple(8, 8, 0)),
        (SectorSize::KiB32, triple(8, 8, 2)),
        (SectorSize::MiB8, triple(8, 0, 0)),
        (SectorSize::MiB16, triple(8, 2, 0)),
        (SectorSize::MiB512, triple(8, 0, 0)),
        (SectorSize::GiB1, triple(8, 2, 0)),
        (SectorSize::GiB32, triple(8, 8, 0)),
        (SectorSize::GiB64, triple(8, 8, 2)),
    ];
    for (e, expected) in cases {
        assert_eq!(with_shape_enum(e, |t: ArityTriple| t), expected, "{:?}", e);
        assert_eq!(arity_of(e.category()), expected);
    }
}

#[test]
fn sector_size_round_trips_through_bytes() {
    for size in all_supported_sizes() {
        let e = SectorSize::from_bytes(size).unwrap();
        assert_eq!(e.bytes(), size);
    }
    assert_eq!(SectorSize::from_bytes(3_000_000), None);
    assert_eq!(SectorSize::from_bytes(u64::MAX), None);
}

#[test]
fn calculator_values_on_supported_sizes() {
    assert_eq!(canonical_shape(SECTOR_SIZE_2_KIB), Ok(triple(8, 0, 0)));
    assert_eq!(canonical_shape(SECTOR_SIZE_4_KIB), Ok(triple(8, 2, 0)));
    // For 16 KiB and 32 KiB the formula disagrees with the hard-coded
    // categories (Sub8 and Top2): it packs all node bits into the base level.
    assert_eq!(canonical_shape(SECTOR_SIZE_16_KIB), Ok(triple(8, 0, 0)));
    assert_eq!(canonical_shape(SECTOR_SIZE_32_KIB), Ok(triple(8, 2, 0)));
    assert_eq!(canonical_shape(SECTOR_SIZE_8_MIB), Ok(triple(8, 0, 0)));
    assert_eq!(canonical_shape(SECTOR_SIZE_16_MIB), Ok(triple(8, 2, 0)));
    assert_eq!(canonical_shape(SECTOR_SIZE_512_MIB), Ok(triple(8, 0, 0)));
    assert_eq!(canonical_shape(SECTOR_SIZE_1_GIB), Ok(triple(8, 2, 0)));
    assert_eq!(canonical_shape(SECTOR_SIZE_32_GIB), Ok(triple(8, 8, 0)));
    assert_eq!(canonical_shape(SECTOR_SIZE_64_GIB), Ok(triple(8, 8, 2)));
}

#[test]
fn calculator_values_on_other_powers_of_two() {
    // One node: everything fits in the base level.
    assert_eq!(canonical_shape(32), Ok(triple(8, 0, 0)));
    // 2^1 nodes: one leftover bit goes to a sub level of arity 2.
    assert_eq!(canonical_shape(64), Ok(triple(8, 2, 0)));
    // 2^2 nodes: two leftover bits go to a sub level of arity 4.
    assert_eq!(canonical_shape(128), Ok(triple(8, 4, 0)));
    // 2^35 nodes: 27 bits in base, 8 above; rem 2 goes to a top level of 4.
    assert_eq!(canonical_shape(1 << 40), Ok(triple(8, 8, 4)));
    // 2^58 nodes: the largest power of two a u64 admits.
    assert_eq!(canonical_shape(1 << 63), Ok(triple(8, 8, 2)));
}

#[test]
fn calculator_rejects_invalid_sizes() {
    assert_eq!(canonical_shape(0), Err(ShapeError::InvalidSize));
    assert_eq!(canonical_shape(3_000_000), Err(ShapeError::InvalidSize));
    assert_eq!(canonical_shape(2_049), Err(ShapeError::InvalidSize));
    assert_eq!(canonical_shape(u64::MAX), Err(ShapeError::InvalidSize));
    // Powers of two below one 32-byte node are rejected too.
    assert_eq!(canonical_shape(16), Err(ShapeError::InvalidSize));
    assert_eq!(canonical_shape(1), Err(ShapeError::InvalidSize));
}

#[test]
fn registry_classifies_every_supported_size() {
    assert_eq!(classify(SECTOR_SIZE_2_KIB), Some(ShapeCategory::Base));
    assert_eq!(classify(SECTOR_SIZE_4_KIB), Some(ShapeCategory::Sub2));
    assert_eq!(classify(SECTOR_SIZE_16_KIB), Some(ShapeCategory::Sub8));
    assert_eq!(classify(SECTOR_SIZE_32_KIB), Some(ShapeCategory::Top2));
    assert_eq!(classify(SECTOR_SIZE_8_MIB), Some(ShapeCategory::Base));
    assert_eq!(classify(SECTOR_SIZE_16_MIB), Some(ShapeCategory::Sub2));
    assert_eq!(classify(SECTOR_SIZE_512_MIB), Some(ShapeCategory::Base));
    assert_eq!(classify(SECTOR_SIZE_1_GIB), Some(ShapeCategory::Sub2));
    assert_eq!(classify(SECTOR_SIZE_32_GIB), Some(ShapeCategory::Sub8));
    assert_eq!(classify(SECTOR_SIZE_64_GIB), Some(ShapeCategory::Top2));
    assert_eq!(classify(3_000_000), None);
    assert_eq!(classify(0), None);
}

#[test]
fn arity_of_every_category() {
    assert_eq!(arity_of(ShapeCategory::Base), triple(8, 0, 0));
    assert_eq!(arity_of(ShapeCategory::Sub2), triple(8, 2, 0));
    assert_eq!(arity_of(ShapeCategory::Sub8), triple(8, 8, 0));
    assert_eq!(arity_of(ShapeCategory::Top2), triple(8, 8, 2));
}

#[test]
fn predicates_partition_the_supported_sizes() {
    for size in all_supported_sizes() {
        let count = [
            is_sector_shape_base(size),
            is_sector_shape_sub2(size),
            is_sector_shape_sub8(size),
            is_sector_shape_top2(size),
        ]
        .iter()
        .filter(|&&b| b)
        .count();
        assert_eq!(count, 1, "size {}", size);
    }
    for size in [0u64, 1, 1_024, 3_000_000, u64::MAX] {
        assert!(!is_sector_shape_base(size));
        assert!(!is_sector_shape_sub2(size));
        assert!(!is_sector_shape_sub8(size));
        assert!(!is_sector_shape_top2(size));
    }
}

#[test]
fn predicates_match_classification() {
    for size in all_supported_sizes() {
        let c = classify(size).unwrap();
        assert_eq!(is_sector_shape_base(size), c == ShapeCategory::Base);
        assert_eq!(is_sector_shape_sub2(size), c == ShapeCategory::Sub2);
        assert_eq!(is_sector_shape_sub8(size), c == ShapeCategory::Sub8);
        assert_eq!(is_sector_shape_top2(size), c == ShapeCategory::Top2);
    }
}

#[test]
fn registry_matches_calculator_on_agreeing_sizes() {
    for size in all_supported_sizes() {
        if size == SECTOR_SIZE_16_KIB || size == SECTOR_SIZE_32_KIB {
            continue;
        }
        let c = classify(size).unwrap();
        assert_eq!(arity_of(c), canonical_shape(size).unwrap(), "size {}", size);
    }
}

#[test]
fn repeated_calls_yield_the_same_output() {
    for size in [2_048u64, 16_384, 3_000_000, 0, 1 << 40] {
        assert_eq!(canonical_shape(size), canonical_shape(size));
        assert_eq!(classify(size), classify(size));
        assert_eq!(
            with_shape(size, |t: ArityTriple| t),
            with_shape(size, |t: ArityTriple| t)
        );
    }
}
