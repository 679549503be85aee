//! The const opcode plugin: pushes one immediate 64-bit value. It allocates
//! one 64-bit cell for the value, requests a memory-table lookup for the
//! push, and at assignment time writes the value and its nibble limbs.

use vstd::prelude::*;

use crate::allocator::{CapacityError, EventTableCellAllocator};
use crate::cells::{CellKind, U64Cell};
use crate::event::{
    u64_writes, AssignError, Context, EventTableEntry, OpcodeClass, StepInfo, WitnessWrite,
};
use crate::op_configure::{EventTableOpcodeConfig, EventTableOpcodeConfigBuilder, OpConfig};
use crate::substrate::{ConstraintRegistry, Expr, LookupEntry, LookupTable};

verus! {

/// Runtime capability of the const opcode: the 64-bit cell holding the
/// pushed value.
#[derive(Debug)]
pub struct ConstConfig {
    pub value_cell: U64Cell,
}

/// Builder capability of the const opcode.
pub struct ConstConfigBuilder {}

impl EventTableOpcodeConfig for ConstConfig {
    open spec fn opcode_class_spec(&self) -> OpcodeClass {
        OpcodeClass::Const
    }

    open spec fn opcode_spec(&self) -> Expr {
        Expr::Constant(OpcodeClass::Const.encoding_spec())
    }

    open spec fn sp_diff_spec(&self) -> Expr {
        Expr::Constant(1)
    }

    open spec fn writes_of(&self, entry: EventTableEntry) -> Seq<WitnessWrite> {
        match entry.step_info {
            StepInfo::Const { value } => u64_writes(self.value_cell, value),
            _ => Seq::empty(),
        }
    }

    fn opcode(&self) -> (r: Expr) {
        Expr::Constant(OpcodeClass::Const.encoding())
    }

    fn sp_diff(&self) -> (r: Expr) {
        Expr::Constant(1)
    }

    fn assign(&self, ctx: &mut Context, entry: &EventTableEntry) -> (r: Result<(), AssignError>) {
        match entry.step_info {
            StepInfo::Const { value } => {
                ctx.assign_u64(&self.value_cell, value);
                Ok(())
            },
            _ => Err(AssignError { expected: OpcodeClass::Const }),
        }
    }

    fn opcode_class(&self) -> (r: OpcodeClass) {
        OpcodeClass::Const
    }
}

impl EventTableOpcodeConfigBuilder for ConstConfigBuilder {
    open spec fn builds_class() -> OpcodeClass {
        OpcodeClass::Const
    }

    /// Allocates the value cell and requests the memory-table lookup that
    /// records the push, gated by this variant's row selector. Succeeds
    /// exactly when the nibble bank has a column left.
    fn configure(
        meta: &mut ConstraintRegistry,
        common: &mut EventTableCellAllocator,
        enable: Expr,
    ) -> (r: Result<OpConfig, CapacityError>)
        ensures
            r is Ok <==> old(common).u64_index < old(common).config.u4_shared@.len(),
            r matches Ok(c) ==> {
                let cell = U64Cell {
                    value_col: old(common).config.aux,
                    value_rot: (old(common).u64_index + old(common).config.u64_start) as usize,
                    u4_col: old(common).config.u4_shared@[old(common).u64_index as int],
                };
                &&& c == OpConfig::Const((ConstConfig { value_cell: cell }))
                &&& *final(common) == (EventTableCellAllocator {
                    u64_index: (old(common).u64_index + 1) as usize,
                    ..*old(common)
                })
                &&& final(meta).gates@ == old(meta).gates@
                &&& final(meta).lookups@ == old(meta).lookups@.push(
                    LookupEntry {
                        table: LookupTable::MTable,
                        selector: enable,
                        expr: Expr::Advice { col: cell.value_col, rot: cell.value_rot },
                    },
                )
            },
            r is Err ==> *final(common) == *old(common) && *final(meta) == *old(meta) && r
                == Err::<OpConfig, CapacityError>((CapacityError { kind: CellKind::U64Limb })),
    {
        let value_cell = match common.alloc_u64() {
            Ok(c) => c,
            Err(e) => {
                return Err(e);
            },
        };
        meta.register_lookup(
            LookupTable::MTable,
            enable,
            Expr::Advice { col: value_cell.value_col, rot: value_cell.value_rot },
        );
        Ok(OpConfig::Const(ConstConfig { value_cell }))
    }
}

} // verus!
