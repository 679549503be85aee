//! The return opcode plugin: leaves the current call frame, dropping a
//! recorded number of stack values. It allocates one common-range cell for
//! the drop count, registers a constraint binding that cell and a jump-table
//! lookup for the frame it returns to, and at assignment time writes the
//! entry's drop count.

use vstd::prelude::*;

use crate::allocator::{CapacityError, EventTableCellAllocator};
use crate::cells::{CellKind, CommonRangeCell};
use crate::event::{AssignError, Context, EventTableEntry, OpcodeClass, StepInfo, WitnessWrite};
use crate::op_configure::{EventTableOpcodeConfig, EventTableOpcodeConfigBuilder, OpConfig};
use crate::substrate::{ConstraintRegistry, Expr, GateEntry, LookupEntry, LookupTable};

verus! {

/// Runtime capability of the return opcode: the cell holding the number of
/// stack values dropped on return.
#[derive(Debug)]
pub struct ReturnConfig {
    pub drop_cell: CommonRangeCell,
}

/// Builder capability of the return opcode.
pub struct ReturnConfigBuilder {}

impl EventTableOpcodeConfig for ReturnConfig {
    open spec fn opcode_class_spec(&self) -> OpcodeClass {
        OpcodeClass::Return
    }

    open spec fn opcode_spec(&self) -> Expr {
        Expr::Constant(OpcodeClass::Return.encoding_spec())
    }

    open spec fn sp_diff_spec(&self) -> Expr {
        Expr::Advice { col: self.drop_cell.col, rot: self.drop_cell.rot }
    }

    open spec fn writes_of(&self, entry: EventTableEntry) -> Seq<WitnessWrite> {
        match entry.step_info {
            StepInfo::Return { drop_n } => seq![
                WitnessWrite { col: self.drop_cell.col, rot: self.drop_cell.rot, value: drop_n },
            ],
            _ => Seq::empty(),
        }
    }

    fn opcode(&self) -> (r: Expr) {
        Expr::Constant(OpcodeClass::Return.encoding())
    }

    /// The stack shrinks by the dropped count, which only the witness
    /// knows: the delta is the drop cell itself.
    fn sp_diff(&self) -> (r: Expr) {
        Expr::Advice { col: self.drop_cell.col, rot: self.drop_cell.rot }
    }

    fn assign(&self, ctx: &mut Context, entry: &EventTableEntry) -> (r: Result<(), AssignError>) {
        match entry.step_info {
            StepInfo::Return { drop_n } => {
                ctx.assign_advice(self.drop_cell.col, self.drop_cell.rot, drop_n);
                proof {
                    assert(ctx.writes@ =~= old(ctx).writes@ + self.writes_of(*entry));
                }
                Ok(())
            },
            _ => Err(AssignError { expected: OpcodeClass::Return }),
        }
    }

    fn opcode_class(&self) -> (r: OpcodeClass) {
        OpcodeClass::Return
    }
}

impl EventTableOpcodeConfigBuilder for ReturnConfigBuilder {
    open spec fn builds_class() -> OpcodeClass {
        OpcodeClass::Return
    }

    /// Allocates the drop-count cell, registers the constraint binding it
    /// on this variant's rows, and requests the jump-table lookup for the
    /// frame returned to; both registrations are gated by `enable`.
    /// Succeeds exactly when the common-range zone has an offset left.
    fn configure(
        meta: &mut ConstraintRegistry,
        common: &mut EventTableCellAllocator,
        enable: Expr,
    ) -> (r: Result<OpConfig, CapacityError>)
        ensures
            r is Ok <==> old(common).common_range_index < old(common).config.step_size,
            r matches Ok(c) ==> {
                let cell = CommonRangeCell {
                    col: old(common).config.aux_in_common,
                    rot: old(common).common_range_index,
                };
                let drop_expr = Expr::Advice { col: cell.col, rot: cell.rot };
                &&& c == OpConfig::Return((ReturnConfig { drop_cell: cell }))
                &&& *final(common) == (EventTableCellAllocator {
                    common_range_index: (old(common).common_range_index + 1) as usize,
                    ..*old(common)
                })
                &&& final(meta).gates@ == old(meta).gates@.push(
                    GateEntry { selector: enable, expr: drop_expr },
                )
                &&& final(meta).lookups@ == old(meta).lookups@.push(
                    LookupEntry { table: LookupTable::JTable, selector: enable, expr: drop_expr },
                )
            },
            r is Err ==> *final(common) == *old(common) && *final(meta) == *old(meta) && r
                == Err::<OpConfig, CapacityError>(
                (CapacityError { kind: CellKind::CommonRange }),
            ),
    {
        let drop_cell = match common.alloc_common_range_value() {
            Ok(c) => c,
            Err(e) => {
                return Err(e);
            },
        };
        let drop_expr = Expr::Advice { col: drop_cell.col, rot: drop_cell.rot };
        meta.register_gate(enable.clone(), drop_expr.clone());
        meta.register_lookup(LookupTable::JTable, enable, drop_expr);
        Ok(OpConfig::Return(ReturnConfig { drop_cell }))
    }
}

} // verus!
