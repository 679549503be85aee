//! Trace-side data: the opcode variant set, one executed step's event entry,
//! and the witness-assignment context into which a plugin's runtime
//! capability writes its values. The context records writes as plain
//! (column, offset, value) triples, so what an assignment produces is a
//! value the contracts can speak about exactly.

use vstd::prelude::*;

use crate::cells::{ColumnId, U64Cell};

verus! {

/// Number of 4-bit limbs of a 64-bit value.
pub const U64_NIBBLES: usize = 16;

/// The closed set of opcode variants this catalog provides.
#[derive(Clone, Copy, Debug, PartialEq, Eq, Structural)]
pub enum OpcodeClass {
    Const,
    Drop,
    Return,
}

impl OpcodeClass {
    /// The numeric encoding of the variant, as the instruction table writes
    /// it; no two variants share an encoding.
    pub open spec fn encoding_spec(self) -> u64 {
        match self {
            OpcodeClass::Const => 1,
            OpcodeClass::Drop => 2,
            OpcodeClass::Return => 3,
        }
    }

    /// Runtime value of `encoding_spec`.
    pub fn encoding(self) -> (r: u64)
        ensures
            r == self.encoding_spec(),
    {
        match self {
            OpcodeClass::Const => 1,
            OpcodeClass::Drop => 2,
            OpcodeClass::Return => 3,
        }
    }
}

/// The recorded event of one executed step, one variant per opcode.
#[derive(Clone, Copy, Debug, PartialEq, Eq, Structural)]
pub enum StepInfo {
    Const { value: u64 },
    Drop,
    Return { drop_n: u64 },
}

impl StepInfo {
    /// The opcode variant this event belongs to.
    pub open spec fn class_of(self) -> OpcodeClass {
        match self {
            StepInfo::Const { .. } => OpcodeClass::Const,
            StepInfo::Drop => OpcodeClass::Drop,
            StepInfo::Return { .. } => OpcodeClass::Return,
        }
    }
}

/// One entry of the execution trace: event id, stack pointer, and the
/// recorded event itself.
#[derive(Clone, Copy, Debug, PartialEq, Eq, Structural)]
pub struct EventTableEntry {
    pub eid: u64,
    pub sp: u64,
    pub step_info: StepInfo,
}

/// One witness value written at a storage location of the step region.
#[derive(Clone, Copy, Debug, PartialEq, Eq, Structural)]
pub struct WitnessWrite {
    pub col: ColumnId,
    pub rot: usize,
    pub value: u64,
}

/// Assignment mismatch: the entry's recorded event did not belong to the
/// variant named here, the one the runtime capability implements.
#[derive(Clone, Copy, Debug, PartialEq, Eq, Structural)]
pub struct AssignError {
    pub expected: OpcodeClass,
}

/// The `i`-th 4-bit limb of `value`, lowest limb first.
pub open spec fn nibble(value: u64, i: int) -> u64 {
    (value >> ((4 * i) as u64)) & 0xf
}

/// The writes that store `value` into a 64-bit cell: the full value at the
/// value location, then one limb per row of the nibble column, lowest row
/// first.
pub open spec fn u64_writes(cell: U64Cell, value: u64) -> Seq<WitnessWrite> {
    seq![WitnessWrite { col: cell.value_col, rot: cell.value_rot, value }].add(
        Seq::new(
            U64_NIBBLES as nat,
            |i: int| WitnessWrite { col: cell.u4_col, rot: i as usize, value: nibble(value, i) },
        ),
    )
}

/// The witness surface of one step region: the log of values written so
/// far. Writes only accumulate; nothing already written is changed.
#[derive(Debug)]
pub struct Context {
    pub writes: Vec<WitnessWrite>,
}

impl Context {
    /// A fresh context with nothing written.
    pub fn new() -> (r: Self)
        ensures
            r.writes@ == Seq::<WitnessWrite>::empty(),
    {
        Self { writes: Vec::new() }
    }

    /// Write one value at one storage location.
    pub fn assign_advice(&mut self, col: ColumnId, rot: usize, value: u64)
        ensures
            final(self).writes@ == old(self).writes@.push((WitnessWrite { col, rot, value })),
    {
        self.writes.push(WitnessWrite { col, rot, value });
    }

    /// Write a 64-bit value into a 64-bit cell: the value itself, then its
    /// sixteen 4-bit limbs down the cell's nibble column.
    pub fn assign_u64(&mut self, cell: &U64Cell, value: u64)
        ensures
            final(self).writes@ == old(self).writes@ + u64_writes(*cell, value),
    {
        self.assign_advice(cell.value_col, cell.value_rot, value);
        let mut i: usize = 0;
        while i < U64_NIBBLES
            invariant
                i <= U64_NIBBLES,
                self.writes@ == old(self).writes@ + seq![
                    WitnessWrite { col: cell.value_col, rot: cell.value_rot, value },
                ].add(
                    Seq::new(
                        i as nat,
                        |j: int| WitnessWrite {
                            col: cell.u4_col,
                            rot: j as usize,
                            value: nibble(value, j),
                        },
                    ),
                ),
            decreases U64_NIBBLES - i,
        {
            let shamt: u64 = 4 * (i as u64);
            let limb: u64 = (value >> shamt) & 0xf;
            assert(limb == nibble(value, i as int));
            self.assign_advice(cell.u4_col, i, limb);
            let ghost prev = Seq::new(
                i as nat,
                |j: int| WitnessWrite { col: cell.u4_col, rot: j as usize, value: nibble(value, j) },
            );
            let ghost next = Seq::new(
                (i + 1) as nat,
                |j: int| WitnessWrite { col: cell.u4_col, rot: j as usize, value: nibble(value, j) },
            );
            assert(next =~= prev.push(
                WitnessWrite { col: cell.u4_col, rot: i, value: nibble(value, i as int) },
            ));
            i += 1;
        }
        assert(self.writes@ =~= old(self).writes@ + u64_writes(*cell, value));
    }
}

} // verus!
