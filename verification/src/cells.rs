//! Cell descriptors: lightweight handles naming one storage location inside a
//! step region (a physical advice column plus a row offset), one handle type
//! per allocation kind. Handles are plain values and never own circuit state;
//! two handles denote the same storage exactly when their fields are equal.

use vstd::prelude::*;

verus! {

/// Identifier of one physical advice column of the ambient table.
#[derive(Clone, Copy, Debug, PartialEq, Eq, Structural)]
pub struct ColumnId {
    pub index: usize,
}

/// The five allocation kinds the allocator hands out, one cursor each.
#[derive(Clone, Copy, Debug, PartialEq, Eq, Structural)]
pub enum CellKind {
    Bit,
    CommonRange,
    Unlimited,
    U64Limb,
    MTableLookup,
}

/// A value with no built-in range constraint.
#[derive(Clone, Copy, Debug, PartialEq, Eq, Structural)]
pub struct Cell {
    pub col: ColumnId,
    pub rot: usize,
}

/// A value reserved for a memory-table lookup argument.
#[derive(Clone, Copy, Debug, PartialEq, Eq, Structural)]
pub struct MTableLookupCell {
    pub col: ColumnId,
    pub rot: usize,
}

/// A boolean-constrained value.
#[derive(Clone, Copy, Debug, PartialEq, Eq, Structural)]
pub struct BitCell {
    pub col: ColumnId,
    pub rot: usize,
}

/// A value range-checked against the shared common-range table.
#[derive(Clone, Copy, Debug, PartialEq, Eq, Structural)]
pub struct CommonRangeCell {
    pub col: ColumnId,
    pub rot: usize,
}

/// A 64-bit value: one location for the full value, plus one column of the
/// nibble bank holding its 4-bit limbs, one limb per row of the step region.
#[derive(Clone, Copy, Debug, PartialEq, Eq, Structural)]
pub struct U64Cell {
    pub value_col: ColumnId,
    pub value_rot: usize,
    pub u4_col: ColumnId,
}

} // verus!
