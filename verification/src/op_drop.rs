//! The drop opcode plugin: pops one value off the evaluation stack. It
//! allocates no cells, registers nothing, and writes no witness values.

use vstd::prelude::*;

use crate::allocator::{CapacityError, EventTableCellAllocator};
use crate::event::{AssignError, Context, EventTableEntry, OpcodeClass, StepInfo, WitnessWrite};
use crate::op_configure::{EventTableOpcodeConfig, EventTableOpcodeConfigBuilder, OpConfig};
use crate::substrate::{ConstraintRegistry, Expr};

verus! {

/// Runtime capability of the drop opcode; it holds no cells.
#[derive(Debug)]
pub struct DropConfig {}

/// Builder capability of the drop opcode.
pub struct DropConfigBuilder {}

impl EventTableOpcodeConfig for DropConfig {
    open spec fn opcode_class_spec(&self) -> OpcodeClass {
        OpcodeClass::Drop
    }

    open spec fn opcode_spec(&self) -> Expr {
        Expr::Constant(OpcodeClass::Drop.encoding_spec())
    }

    open spec fn sp_diff_spec(&self) -> Expr {
        Expr::Constant(1)
    }

    open spec fn writes_of(&self, entry: EventTableEntry) -> Seq<WitnessWrite> {
        Seq::empty()
    }

    fn opcode(&self) -> (r: Expr) {
        Expr::Constant(OpcodeClass::Drop.encoding())
    }

    fn sp_diff(&self) -> (r: Expr) {
        Expr::Constant(1)
    }

    fn assign(&self, ctx: &mut Context, entry: &EventTableEntry) -> (r: Result<(), AssignError>) {
        match entry.step_info {
            StepInfo::Drop => {
                proof {
                    assert(ctx.writes@ =~= old(ctx).writes@ + self.writes_of(*entry));
                }
                Ok(())
            },
            _ => Err(AssignError { expected: OpcodeClass::Drop }),
        }
    }

    fn opcode_class(&self) -> (r: OpcodeClass) {
        OpcodeClass::Drop
    }
}

impl EventTableOpcodeConfigBuilder for DropConfigBuilder {
    open spec fn builds_class() -> OpcodeClass {
        OpcodeClass::Drop
    }

    /// The drop opcode needs no storage and no constraints of its own:
    /// building always succeeds and changes nothing.
    fn configure(
        _meta: &mut ConstraintRegistry,
        _common: &mut EventTableCellAllocator,
        _enable: Expr,
    ) -> (r: Result<OpConfig, CapacityError>)
        ensures
            r == Ok::<OpConfig, CapacityError>(OpConfig::Drop((DropConfig {}))),
            *final(_common) == *old(_common),
            *final(_meta) == *old(_meta),
    {
        Ok(OpConfig::Drop(DropConfig {}))
    }
}

} // verus!
