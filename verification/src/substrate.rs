//! Model of the constraint-system substrate this layer is built on: a
//! field-expression algebra over the step region's cells, and a registry
//! collecting the polynomial constraints and cross-table lookup requests
//! that plugins contribute at configuration time. Registrations are
//! append-only: once registered, a constraint stands for the life of the
//! circuit.

use vstd::prelude::*;

use crate::cells::ColumnId;

verus! {

/// A field expression over the step region: a constant, the value of an
/// advice cell at a row offset, or a sum or product of expressions.
#[derive(Debug, PartialEq, Eq)]
pub enum Expr {
    Constant(u64),
    Advice { col: ColumnId, rot: usize },
    Sum(Box<Expr>, Box<Expr>),
    Product(Box<Expr>, Box<Expr>),
}

impl Clone for Expr {
    /// A deep copy, equal to the cloned expression.
    fn clone(&self) -> (r: Self)
        ensures
            r == *self,
        decreases *self,
    {
        match self {
            Expr::Constant(v) => Expr::Constant(*v),
            Expr::Advice { col, rot } => Expr::Advice { col: *col, rot: *rot },
            Expr::Sum(a, b) => Expr::Sum(Box::new((**a).clone()), Box::new((**b).clone())),
            Expr::Product(a, b) => Expr::Product(Box::new((**a).clone()), Box::new((**b).clone())),
        }
    }
}

/// The cross-table lookup providers a plugin may request a lookup against.
#[derive(Clone, Copy, Debug, PartialEq, Eq, Structural)]
pub enum LookupTable {
    MTable,
    JTable,
    ITable,
}

/// One registered polynomial constraint: `expr` must vanish on every row on
/// which `selector` is active.
#[derive(Debug, PartialEq, Eq)]
pub struct GateEntry {
    pub selector: Expr,
    pub expr: Expr,
}

/// One registered lookup request: on rows where `selector` is active,
/// `expr` must appear in `table`.
#[derive(Debug, PartialEq, Eq)]
pub struct LookupEntry {
    pub table: LookupTable,
    pub selector: Expr,
    pub expr: Expr,
}

/// The registration context handed to every builder capability.
#[derive(Debug)]
pub struct ConstraintRegistry {
    pub gates: Vec<GateEntry>,
    pub lookups: Vec<LookupEntry>,
}

impl ConstraintRegistry {
    /// An empty registry: nothing registered yet.
    pub fn new() -> (r: Self)
        ensures
            r.gates@ == Seq::<GateEntry>::empty(),
            r.lookups@ == Seq::<LookupEntry>::empty(),
    {
        Self { gates: Vec::new(), lookups: Vec::new() }
    }

    /// Register one constraint gated by `selector`; everything registered
    /// before stays as it was.
    pub fn register_gate(&mut self, selector: Expr, expr: Expr)
        ensures
            final(self).gates@ == old(self).gates@.push((GateEntry { selector, expr })),
            final(self).lookups@ == old(self).lookups@,
    {
        self.gates.push(GateEntry { selector, expr });
    }

    /// Register one lookup request against `table`, gated by `selector`;
    /// everything registered before stays as it was.
    pub fn register_lookup(&mut self, table: LookupTable, selector: Expr, expr: Expr)
        ensures
            final(self).lookups@ == old(self).lookups@.push((LookupEntry { table, selector, expr })),
            final(self).gates@ == old(self).gates@,
    {
        self.lookups.push(LookupEntry { table, selector, expr });
    }
}

} // verus!
