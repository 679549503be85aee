use etable_layout::allocator::{EventTableCellAllocator, EventTableCommonConfig};
use etable_layout::cells::{CellKind, ColumnId};

/// The step region of the worked example: height 16, bit zone from 2,
/// common-range zone from 12 (capacity 4), lookup zone 5..8, 64-bit zone
/// 8..12 over a nibble bank of width 4, shared zone from 12.
fn example_config() -> EventTableCommonConfig {
    EventTableCommonConfig {
        shared_bits: ColumnId { index: 0 },
        aux_in_common: ColumnId { index: 1 },
        aux: ColumnId { index: 2 },
        u4_shared: vec![
            ColumnId { index: 3 },
            ColumnId { index: 4 },
            ColumnId { index: 5 },
            ColumnId { index: 6 },
        ],
        step_size: 16,
        bit_start: 2,
        common_range_start: 12,
        shared_start: 12,
        mtable_lookup_start: 5,
        u64_start: 8,
    }
}

#[test]
fn example_config_is_well_formed() {
    assert!(example_config().is_well_formed());
}

#[test]
fn duplicate_column_is_rejected() {
    let mut config = example_config();
    config.u4_shared[2] = ColumnId { index: 2 };
    assert!(!config.is_well_formed());
}

#[test]
fn u64_zone_overrunning_shared_zone_is_rejected() {
    let mut config = example_config();
    config.u64_start = 10;
    assert!(!config.is_well_formed());
}

#[test]
fn lookup_zone_past_u64_zone_is_rejected() {
    let mut config = example_config();
    config.mtable_lookup_start = 9;
    assert!(!config.is_well_formed());
}

#[test]
fn fresh_cursors_start_at_zone_starts() {
    let a = EventTableCellAllocator::new(example_config());
    assert_eq!(a.bit_index, 2);
    assert_eq!(a.common_range_index, 12);
    assert_eq!(a.unlimit_index, 12);
    assert_eq!(a.u64_index, 0);
    assert_eq!(a.mtable_lookup_index, 5);
}

#[test]
fn common_range_fills_to_capacity_then_fails() {
    let mut a = EventTableCellAllocator::new(example_config());
    for relative in 0..4usize {
        let c = a.alloc_common_range_value().unwrap();
        assert_eq!(c.col, ColumnId { index: 1 });
        assert_eq!(c.rot, 12 + relative);
    }
    let e = a.alloc_common_range_value().unwrap_err();
    assert_eq!(e.kind, CellKind::CommonRange);
}

#[test]
fn bit_offsets_strictly_increase() {
    let mut a = EventTableCellAllocator::new(example_config());
    let mut last = None;
    for _ in 0..14 {
        let c = a.alloc_bit_value().unwrap();
        assert_eq!(c.col, ColumnId { index: 0 });
        if let Some(prev) = last {
            assert!(c.rot > prev);
        }
        last = Some(c.rot);
    }
    let e = a.alloc_bit_value().unwrap_err();
    assert_eq!(e.kind, CellKind::Bit);
}

#[test]
fn unlimited_fills_shared_zone_then_fails() {
    let mut a = EventTableCellAllocator::new(example_config());
    for relative in 0..4usize {
        let c = a.alloc_unlimited_value().unwrap();
        assert_eq!(c.col, ColumnId { index: 2 });
        assert_eq!(c.rot, 12 + relative);
    }
    let e = a.alloc_unlimited_value().unwrap_err();
    assert_eq!(e.kind, CellKind::Unlimited);
}

#[test]
fn u64_bank_of_four_pairs_limbs_then_fails() {
    let mut a = EventTableCellAllocator::new(example_config());
    let mut limb_cols = Vec::new();
    for relative in 0..4usize {
        let c = a.alloc_u64().unwrap();
        assert_eq!(c.value_col, ColumnId { index: 2 });
        assert_eq!(c.value_rot, 8 + relative);
        assert_eq!(c.u4_col, ColumnId { index: 3 + relative });
        assert!(!limb_cols.contains(&c.u4_col));
        limb_cols.push(c.u4_col);
    }
    let e = a.alloc_u64().unwrap_err();
    assert_eq!(e.kind, CellKind::U64Limb);
}

#[test]
fn mtable_lookup_fills_its_zone_then_fails() {
    let mut a = EventTableCellAllocator::new(example_config());
    for relative in 0..3usize {
        let c = a.alloc_mtable_lookup().unwrap();
        assert_eq!(c.col, ColumnId { index: 2 });
        assert_eq!(c.rot, 5 + relative);
    }
    let e = a.alloc_mtable_lookup().unwrap_err();
    assert_eq!(e.kind, CellKind::MTableLookup);
}

#[test]
fn lookup_and_u64_zones_never_intersect() {
    let mut a = EventTableCellAllocator::new(example_config());
    let mut lookup_rots = Vec::new();
    while let Ok(c) = a.alloc_mtable_lookup() {
        lookup_rots.push(c.rot);
    }
    let mut u64_rots = Vec::new();
    while let Ok(c) = a.alloc_u64() {
        assert_eq!(c.value_col, ColumnId { index: 2 });
        u64_rots.push(c.value_rot);
    }
    for m in &lookup_rots {
        for u in &u64_rots {
            assert_ne!(m, u);
            assert!(m < u);
        }
    }
}

#[test]
fn kinds_use_independent_cursors() {
    let mut a = EventTableCellAllocator::new(example_config());
    let b = a.alloc_bit_value().unwrap();
    let c = a.alloc_common_range_value().unwrap();
    let u = a.alloc_u64().unwrap();
    let m = a.alloc_mtable_lookup().unwrap();
    assert_eq!(b.rot, 2);
    assert_eq!(c.rot, 12);
    assert_eq!(u.value_rot, 8);
    assert_eq!(m.rot, 5);
    let b2 = a.alloc_bit_value().unwrap();
    assert_eq!(b2.rot, 3);
}
