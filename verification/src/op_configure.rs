//! The opcode configuration contract: the builder capability every opcode
//! variant implements once at configuration time, and the runtime capability
//! the driver invokes once per executed step. The driver holds the variants
//! behind the closed union `OpConfig`, which implements the runtime
//! capability by dispatch.

use vstd::prelude::*;

use crate::allocator::{CapacityError, EventTableCellAllocator};
use crate::cells::CellKind;
use crate::event::{AssignError, Context, EventTableEntry, OpcodeClass, WitnessWrite};
use crate::op_const::ConstConfig;
use crate::op_drop::DropConfig;
use crate::op_return::ReturnConfig;
use crate::substrate::{ConstraintRegistry, Expr};

verus! {

/// The runtime capability of one opcode variant: its row-selection encoding,
/// its stack-pointer delta, and the witness assignment for one entry.
///
/// An assignment succeeds exactly on entries whose recorded event belongs to
/// this variant, and on success it appends `writes_of(entry)` — a function
/// of the configuration and the entry alone — to the context; a refused
/// entry leaves the context untouched.
pub trait EventTableOpcodeConfig: Sized {
    /// The opcode variant this capability implements.
    spec fn opcode_class_spec(&self) -> OpcodeClass;

    /// The expression `opcode` returns.
    spec fn opcode_spec(&self) -> Expr;

    /// The expression `sp_diff` returns.
    spec fn sp_diff_spec(&self) -> Expr;

    /// The writes one assignment of `entry` appends on success.
    spec fn writes_of(&self, entry: EventTableEntry) -> Seq<WitnessWrite>;

    /// The opcode's numeric encoding as an expression, used to select this
    /// variant's rows.
    fn opcode(&self) -> (r: Expr)
        ensures
            r == self.opcode_spec(),
    ;

    /// The stack-pointer delta this opcode contributes.
    fn sp_diff(&self) -> (r: Expr)
        ensures
            r == self.sp_diff_spec(),
    ;

    /// Write this opcode's witness values for one trace entry into the
    /// cells allocated at configuration time.
    fn assign(&self, ctx: &mut Context, entry: &EventTableEntry) -> (r: Result<(), AssignError>)
        ensures
            r is Ok <==> entry.step_info.class_of() == self.opcode_class_spec(),
            r is Ok ==> final(ctx).writes@ == old(ctx).writes@ + self.writes_of(*entry),
            r is Err ==> final(ctx).writes@ == old(ctx).writes@,
            r matches Err(e) ==> e == (AssignError { expected: self.opcode_class_spec() }),
    ;

    /// The variant discriminant the driver dispatches on.
    fn opcode_class(&self) -> (r: OpcodeClass)
        ensures
            r == self.opcode_class_spec(),
    ;

    /// Memory-operation count, for variants that touch memory.
    fn mops(&self) -> (r: Option<Expr>)
        default_ensures
            r is None,
    {
        None
    }

    /// Change of the last jump event id, for jumping variants.
    fn last_jump_eid_change(&self) -> (r: Option<Expr>)
        default_ensures
            r is None,
    {
        None
    }

    /// The next instruction id, for variants that redirect control.
    fn next_iid(&self) -> (r: Option<Expr>)
        default_ensures
            r is None,
    {
        None
    }

    /// The next module id, for variants that cross module boundaries.
    fn next_moid(&self) -> (r: Option<Expr>)
        default_ensures
            r is None,
    {
        None
    }

    /// The memory-table lookup expression at lookup slot `i`, if any.
    fn mtable_lookup(&self, i: i32) -> (r: Option<Expr>)
        default_ensures
            r is None,
    {
        None
    }

    /// The jump-table lookup expression, if any.
    fn jtable_lookup(&self) -> (r: Option<Expr>)
        default_ensures
            r is None,
    {
        None
    }

    /// The instruction-table lookup expression, if any.
    fn itable_lookup(&self) -> (r: Option<Expr>)
        default_ensures
            r is None,
    {
        None
    }
}

/// The closed union of configured opcode variants the driver dispatches on.
#[derive(Debug)]
pub enum OpConfig {
    Const(ConstConfig),
    Drop(DropConfig),
    Return(ReturnConfig),
}

/// The builder capability of one opcode variant: invoked once at
/// configuration time with the registration context, the shared allocator
/// and the variant's row-selector expression; it allocates this variant's
/// cells, registers its constraints and lookups, and returns the runtime
/// capability.
///
/// All plugins of one table share one allocator, and the driver invokes
/// their builders one after another in a fixed registration order: the
/// aggregate layout is therefore deterministic, and collision-free across
/// plugins because building never disturbs what stands already — the
/// allocator keeps its configuration and stays well formed, cursors only
/// grow, and everything already registered stays registered.
pub trait EventTableOpcodeConfigBuilder {
    /// The opcode variant this builder configures.
    spec fn builds_class() -> OpcodeClass;

    /// Allocate cells and register constraints for this variant, gating
    /// every registration by `enable`.
    fn configure(
        meta: &mut ConstraintRegistry,
        common: &mut EventTableCellAllocator,
        enable: Expr,
    ) -> (r: Result<OpConfig, CapacityError>)
        requires
            old(common).wf(),
        ensures
            final(common).wf(),
            final(common).config == old(common).config,
            forall|k: CellKind| old(common).cursor_of(k) <= final(common).cursor_of(k),
            old(meta).gates@.is_prefix_of(final(meta).gates@),
            old(meta).lookups@.is_prefix_of(final(meta).lookups@),
            r matches Ok(c) ==> c.opcode_class_spec() == Self::builds_class(),
    ;
}

impl EventTableOpcodeConfig for OpConfig {
    open spec fn opcode_class_spec(&self) -> OpcodeClass {
        match self {
            OpConfig::Const(c) => c.opcode_class_spec(),
            OpConfig::Drop(c) => c.opcode_class_spec(),
            OpConfig::Return(c) => c.opcode_class_spec(),
        }
    }

    open spec fn opcode_spec(&self) -> Expr {
        match self {
            OpConfig::Const(c) => c.opcode_spec(),
            OpConfig::Drop(c) => c.opcode_spec(),
            OpConfig::Return(c) => c.opcode_spec(),
        }
    }

    open spec fn sp_diff_spec(&self) -> Expr {
        match self {
            OpConfig::Const(c) => c.sp_diff_spec(),
            OpConfig::Drop(c) => c.sp_diff_spec(),
            OpConfig::Return(c) => c.sp_diff_spec(),
        }
    }

    open spec fn writes_of(&self, entry: EventTableEntry) -> Seq<WitnessWrite> {
        match self {
            OpConfig::Const(c) => c.writes_of(entry),
            OpConfig::Drop(c) => c.writes_of(entry),
            OpConfig::Return(c) => c.writes_of(entry),
        }
    }

    fn opcode(&self) -> (r: Expr) {
        match self {
            OpConfig::Const(c) => c.opcode(),
            OpConfig::Drop(c) => c.opcode(),
            OpConfig::Return(c) => c.opcode(),
        }
    }

    fn sp_diff(&self) -> (r: Expr) {
        match self {
            OpConfig::Const(c) => c.sp_diff(),
            OpConfig::Drop(c) => c.sp_diff(),
            OpConfig::Return(c) => c.sp_diff(),
        }
    }

    fn assign(&self, ctx: &mut Context, entry: &EventTableEntry) -> (r: Result<(), AssignError>) {
        match self {
            OpConfig::Const(c) => c.assign(ctx, entry),
            OpConfig::Drop(c) => c.assign(ctx, entry),
            OpConfig::Return(c) => c.assign(ctx, entry),
        }
    }

    fn opcode_class(&self) -> (r: OpcodeClass) {
        match self {
            OpConfig::Const(c) => c.opcode_class(),
            OpConfig::Drop(c) => c.opcode_class(),
            OpConfig::Return(c) => c.opcode_class(),
        }
    }
}

} // verus!
