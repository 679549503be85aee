use etable_layout::allocator::{EventTableCellAllocator, EventTableCommonConfig};
use etable_layout::cells::{CellKind, ColumnId};
use etable_layout::event::{Context, EventTableEntry, OpcodeClass, StepInfo};
use etable_layout::op_configure::{
    EventTableOpcodeConfig, EventTableOpcodeConfigBuilder, OpConfig,
};
use etable_layout::op_const::ConstConfigBuilder;
use etable_layout::op_drop::DropConfigBuilder;
use etable_layout::op_return::ReturnConfigBuilder;
use etable_layout::substrate::{ConstraintRegistry, Expr, LookupTable};

fn example_config() -> EventTableCommonConfig {
    EventTableCommonConfig {
        shared_bits: ColumnId { index: 0 },
        aux_in_common: ColumnId { index: 1 },
        aux: ColumnId { index: 2 },
        u4_shared: vec![
            ColumnId { index: 3 },
            ColumnId { index: 4 },
            ColumnId { index: 5 },
            ColumnId { index: 6 },
        ],
        step_size: 16,
        bit_start: 2,
        common_range_start: 12,
        shared_start: 12,
        mtable_lookup_start: 5,
        u64_start: 8,
    }
}

fn enable() -> Expr {
    Expr::Advice { col: ColumnId { index: 0 }, rot: 0 }
}

#[test]
fn builders_report_their_own_class() {
    let mut meta = ConstraintRegistry::new();
    let mut a = EventTableCellAllocator::new(example_config());
    let c = ConstConfigBuilder::configure(&mut meta, &mut a, enable()).unwrap();
    assert_eq!(c.opcode_class(), OpcodeClass::Const);
    let d = DropConfigBuilder::configure(&mut meta, &mut a, enable()).unwrap();
    assert_eq!(d.opcode_class(), OpcodeClass::Drop);
    let r = ReturnConfigBuilder::configure(&mut meta, &mut a, enable()).unwrap();
    assert_eq!(r.opcode_class(), OpcodeClass::Return);
}

#[test]
fn opcode_encodings_are_distinct() {
    let mut meta = ConstraintRegistry::new();
    let mut a = EventTableCellAllocator::new(example_config());
    let c = ConstConfigBuilder::configure(&mut meta, &mut a, enable()).unwrap();
    let d = DropConfigBuilder::configure(&mut meta, &mut a, enable()).unwrap();
    let r = ReturnConfigBuilder::configure(&mut meta, &mut a, enable()).unwrap();
    assert_eq!(c.opcode(), Expr::Constant(1));
    assert_eq!(d.opcode(), Expr::Constant(2));
    assert_eq!(r.opcode(), Expr::Constant(3));
}

#[test]
fn return_builder_registers_gate_and_jtable_lookup() {
    let mut meta = ConstraintRegistry::new();
    let mut a = EventTableCellAllocator::new(example_config());
    ReturnConfigBuilder::configure(&mut meta, &mut a, enable()).unwrap();
    assert_eq!(meta.gates.len(), 1);
    assert_eq!(meta.gates[0].selector, enable());
    assert_eq!(meta.gates[0].expr, Expr::Advice { col: ColumnId { index: 1 }, rot: 12 });
    assert_eq!(meta.lookups.len(), 1);
    assert_eq!(meta.lookups[0].table, LookupTable::JTable);
    assert_eq!(meta.lookups[0].selector, enable());
}

#[test]
fn const_builder_registers_mtable_lookup() {
    let mut meta = ConstraintRegistry::new();
    let mut a = EventTableCellAllocator::new(example_config());
    ConstConfigBuilder::configure(&mut meta, &mut a, enable()).unwrap();
    assert!(meta.gates.is_empty());
    assert_eq!(meta.lookups.len(), 1);
    assert_eq!(meta.lookups[0].table, LookupTable::MTable);
    assert_eq!(meta.lookups[0].expr, Expr::Advice { col: ColumnId { index: 2 }, rot: 8 });
}

#[test]
fn const_builder_fails_on_exhausted_bank() {
    let mut config = example_config();
    config.u4_shared = Vec::new();
    assert!(config.is_well_formed());
    let mut meta = ConstraintRegistry::new();
    let mut a = EventTableCellAllocator::new(config);
    let e = ConstConfigBuilder::configure(&mut meta, &mut a, enable()).unwrap_err();
    assert_eq!(e.kind, CellKind::U64Limb);
}

#[test]
fn const_assign_writes_value_and_nibbles() {
    let mut meta = ConstraintRegistry::new();
    let mut a = EventTableCellAllocator::new(example_config());
    let c = ConstConfigBuilder::configure(&mut meta, &mut a, enable()).unwrap();
    let entry = EventTableEntry {
        eid: 1,
        sp: 0,
        step_info: StepInfo::Const { value: 0x0123_4567_89AB_CDEF },
    };
    let mut ctx = Context::new();
    c.assign(&mut ctx, &entry).unwrap();
    assert_eq!(ctx.writes.len(), 17);
    assert_eq!(ctx.writes[0].col, ColumnId { index: 2 });
    assert_eq!(ctx.writes[0].rot, 8);
    assert_eq!(ctx.writes[0].value, 0x0123_4567_89AB_CDEF);
    let expected_limbs = [0xF, 0xE, 0xD, 0xC, 0xB, 0xA, 9, 8, 7, 6, 5, 4, 3, 2, 1, 0];
    for (i, limb) in expected_limbs.iter().enumerate() {
        assert_eq!(ctx.writes[1 + i].col, ColumnId { index: 3 });
        assert_eq!(ctx.writes[1 + i].rot, i);
        assert_eq!(ctx.writes[1 + i].value, *limb);
    }
}

#[test]
fn return_assign_writes_drop_count() {
    let mut meta = ConstraintRegistry::new();
    let mut a = EventTableCellAllocator::new(example_config());
    let r = ReturnConfigBuilder::configure(&mut meta, &mut a, enable()).unwrap();
    let entry = EventTableEntry { eid: 7, sp: 3, step_info: StepInfo::Return { drop_n: 2 } };
    let mut ctx = Context::new();
    r.assign(&mut ctx, &entry).unwrap();
    assert_eq!(ctx.writes.len(), 1);
    assert_eq!(ctx.writes[0].col, ColumnId { index: 1 });
    assert_eq!(ctx.writes[0].rot, 12);
    assert_eq!(ctx.writes[0].value, 2);
}

#[test]
fn drop_assign_writes_nothing() {
    let mut meta = ConstraintRegistry::new();
    let mut a = EventTableCellAllocator::new(example_config());
    let d = DropConfigBuilder::configure(&mut meta, &mut a, enable()).unwrap();
    let entry = EventTableEntry { eid: 2, sp: 1, step_info: StepInfo::Drop };
    let mut ctx = Context::new();
    d.assign(&mut ctx, &entry).unwrap();
    assert!(ctx.writes.is_empty());
}

#[test]
fn assign_is_deterministic() {
    let mut meta = ConstraintRegistry::new();
    let mut a = EventTableCellAllocator::new(example_config());
    let c = ConstConfigBuilder::configure(&mut meta, &mut a, enable()).unwrap();
    let entry = EventTableEntry {
        eid: 5,
        sp: 9,
        step_info: StepInfo::Const { value: 0xDEAD_BEEF_0BAD_F00D },
    };
    let mut ctx1 = Context::new();
    let mut ctx2 = Context::new();
    c.assign(&mut ctx1, &entry).unwrap();
    c.assign(&mut ctx2, &entry).unwrap();
    assert_eq!(ctx1.writes, ctx2.writes);
    let mut again = Context::new();
    c.assign(&mut again, &entry).unwrap();
    assert_eq!(ctx1.writes, again.writes);
}

#[test]
fn assign_rejects_mismatched_entry_and_leaves_context_unchanged() {
    let mut meta = ConstraintRegistry::new();
    let mut a = EventTableCellAllocator::new(example_config());
    let r = ReturnConfigBuilder::configure(&mut meta, &mut a, enable()).unwrap();
    let entry = EventTableEntry { eid: 4, sp: 2, step_info: StepInfo::Drop };
    let mut ctx = Context::new();
    let e = r.assign(&mut ctx, &entry).unwrap_err();
    assert_eq!(e.expected, OpcodeClass::Return);
    assert!(ctx.writes.is_empty());
}

#[test]
fn optional_contributions_default_to_none() {
    let mut meta = ConstraintRegistry::new();
    let mut a = EventTableCellAllocator::new(example_config());
    let r = ReturnConfigBuilder::configure(&mut meta, &mut a, enable()).unwrap();
    assert!(r.mops().is_none());
    assert!(r.last_jump_eid_change().is_none());
    assert!(r.next_iid().is_none());
    assert!(r.next_moid().is_none());
    assert!(r.mtable_lookup(0).is_none());
    assert!(r.jtable_lookup().is_none());
    assert!(r.itable_lookup().is_none());
}

#[test]
fn sp_diff_of_return_is_its_drop_cell() {
    let mut meta = ConstraintRegistry::new();
    let mut a = EventTableCellAllocator::new(example_config());
    let r = ReturnConfigBuilder::configure(&mut meta, &mut a, enable()).unwrap();
    assert_eq!(r.sp_diff(), Expr::Advice { col: ColumnId { index: 1 }, rot: 12 });
    match r {
        OpConfig::Return(inner) => {
            assert_eq!(inner.drop_cell.col, ColumnId { index: 1 });
            assert_eq!(inner.drop_cell.rot, 12);
        }
        _ => panic!("return builder produced another variant"),
    }
}

#[test]
fn expression_clone_is_equal() {
    let e = Expr::Sum(
        Box::new(Expr::Constant(5)),
        Box::new(Expr::Product(
            Box::new(Expr::Advice { col: ColumnId { index: 1 }, rot: 3 }),
            Box::new(Expr::Constant(2)),
        )),
    );
    assert_eq!(e.clone(), e);
}
