//! The cell allocator: a cursor per allocation kind over one step region.
//! Each successful allocation returns the offset at the cursor and advances
//! the cursor by one, so offsets of one kind never repeat; a request past the
//! kind's ceiling is refused with a typed capacity error.

use vstd::prelude::*;

use crate::cells::{BitCell, Cell, CellKind, ColumnId, CommonRangeCell, MTableLookupCell, U64Cell};

verus! {

/// Capacity violation: the cursor of the named kind stood at its ceiling.
#[derive(Clone, Copy, Debug, PartialEq, Eq, Structural)]
pub struct CapacityError {
    pub kind: CellKind,
}

/// The shared per-step column set and the fixed partitioning of the step
/// region: where each allocation zone starts and where it ends.
///
/// Offsets live in `0 .. step_size`. The column `aux` hosts three disjoint
/// zones: a reserved header in `0 .. mtable_lookup_start`, the lookup zone in
/// `mtable_lookup_start .. u64_start`, the 64-bit value zone in
/// `u64_start .. u64_start + u4_shared.len()`, and the shared (unlimited)
/// zone from `shared_start` on.
#[derive(Debug)]
pub struct EventTableCommonConfig {
    /// Column hosting boolean-constrained values.
    pub shared_bits: ColumnId,
    /// Column hosting common-range-checked values.
    pub aux_in_common: ColumnId,
    /// Column hosting lookup targets, 64-bit values and unlimited values.
    pub aux: ColumnId,
    /// The fixed bank of nibble columns for 64-bit decomposition.
    pub u4_shared: Vec<ColumnId>,
    /// Height of the step region: every offset is below it.
    pub step_size: usize,
    /// First offset of the bit zone (past the reserved header rows).
    pub bit_start: usize,
    /// First offset of the common-range zone (past the reserved header rows).
    pub common_range_start: usize,
    /// First offset of the shared (unlimited) zone of `aux`.
    pub shared_start: usize,
    /// First offset of the memory-table lookup zone of `aux`.
    pub mtable_lookup_start: usize,
    /// First offset of the 64-bit value zone of `aux`; also the ceiling of
    /// the lookup zone.
    pub u64_start: usize,
}

impl EventTableCommonConfig {
    /// Every physical column the configuration names, the nibble bank last.
    pub open spec fn cols(self) -> Seq<ColumnId> {
        seq![self.shared_bits, self.aux_in_common, self.aux] + self.u4_shared@
    }

    /// A valid partitioning: each zone fits inside the step region, the
    /// lookup zone ends where the 64-bit zone starts, the 64-bit zone ends
    /// before the shared zone starts, and no physical column is named twice.
    pub open spec fn wf(self) -> bool {
        &&& self.bit_start <= self.step_size
        &&& self.common_range_start <= self.step_size
        &&& self.mtable_lookup_start <= self.u64_start
        &&& self.u64_start + self.u4_shared@.len() <= self.shared_start
        &&& self.shared_start <= self.step_size
        &&& forall|i: int, j: int|
            0 <= i < j < self.cols().len() ==> self.cols()[i] != self.cols()[j]
    }

    /// Runtime check of `wf`, for callers outside verified code.
    pub fn is_well_formed(&self) -> (b: bool)
        ensures
            b == self.wf(),
    {
        let bounds_ok = self.bit_start <= self.step_size && self.common_range_start
            <= self.step_size && self.mtable_lookup_start <= self.u64_start && self.u64_start
            <= self.shared_start && self.u4_shared.len() <= self.shared_start - self.u64_start
            && self.shared_start <= self.step_size;
        if !bounds_ok {
            return false;
        }
        let mut cols: Vec<ColumnId> = Vec::new();
        cols.push(self.shared_bits);
        cols.push(self.aux_in_common);
        cols.push(self.aux);
        let mut k: usize = 0;
        while k < self.u4_shared.len()
            invariant
                k <= self.u4_shared@.len(),
                cols@ == seq![self.shared_bits, self.aux_in_common, self.aux]
                    + self.u4_shared@.subrange(0, k as int),
            decreases self.u4_shared@.len() - k,
        {
            cols.push(self.u4_shared[k]);
            k += 1;
        }
        assert(cols@ == self.cols()) by {
            assert(self.u4_shared@.subrange(0, self.u4_shared@.len() as int) == self.u4_shared@);
        }
        let mut i: usize = 0;
        while i < cols.len()
            invariant
                i <= cols@.len(),
                cols@ == self.cols(),
                forall|p: int, q: int| 0 <= p < q < cols@.len() && p < i ==> cols@[p] != cols@[q],
            decreases cols@.len() - i,
        {
            let mut j: usize = i + 1;
            while j < cols.len()
                invariant
                    i < j <= cols@.len(),
                    cols@ == self.cols(),
                    forall|q: int| i < q < j ==> cols@[i as int] != cols@[q],
                decreases cols@.len() - j,
            {
                if cols[i] == cols[j] {
                    return false;
                }
                j += 1;
            }
            i += 1;
        }
        true
    }
}

/// The allocator: the shared configuration plus one monotone cursor per
/// allocation kind. Cursors start at their zone's first offset and only ever
/// grow, one step per successful allocation.
#[derive(Debug)]
pub struct EventTableCellAllocator {
    pub config: EventTableCommonConfig,
    pub bit_index: usize,
    pub common_range_index: usize,
    pub unlimit_index: usize,
    pub u64_index: usize,
    pub mtable_lookup_index: usize,
}

impl EventTableCellAllocator {
    /// The cursor of the given kind.
    pub open spec fn cursor_of(self, k: CellKind) -> int {
        match k {
            CellKind::Bit => self.bit_index as int,
            CellKind::CommonRange => self.common_range_index as int,
            CellKind::Unlimited => self.unlimit_index as int,
            CellKind::U64Limb => self.u64_index as int,
            CellKind::MTableLookup => self.mtable_lookup_index as int,
        }
    }

    /// The ceiling the cursor of the given kind may never pass.
    pub open spec fn ceiling_of(self, k: CellKind) -> int {
        match k {
            CellKind::Bit => self.config.step_size as int,
            CellKind::CommonRange => self.config.step_size as int,
            CellKind::Unlimited => self.config.step_size as int,
            CellKind::U64Limb => self.config.u4_shared@.len() as int,
            CellKind::MTableLookup => self.config.u64_start as int,
        }
    }

    /// The offset the next successful allocation of the given kind returns.
    /// For the 64-bit kind the cursor counts limb columns, and the value
    /// offset lives in the 64-bit zone of `aux`.
    pub open spec fn rot_of_next(self, k: CellKind) -> int {
        match k {
            CellKind::U64Limb => self.cursor_of(k) + self.config.u64_start as int,
            _ => self.cursor_of(k),
        }
    }

    /// Every cursor sits between its zone's first offset and its ceiling.
    pub open spec fn wf(self) -> bool {
        &&& self.config.wf()
        &&& self.config.bit_start <= self.bit_index <= self.config.step_size
        &&& self.config.common_range_start <= self.common_range_index <= self.config.step_size
        &&& self.config.shared_start <= self.unlimit_index <= self.config.step_size
        &&& self.u64_index <= self.config.u4_shared@.len()
        &&& self.config.mtable_lookup_start <= self.mtable_lookup_index <= self.config.u64_start
    }

    /// One successful allocation of kind `k`: it was below its ceiling, its
    /// cursor advanced by one, and nothing else moved.
    pub open spec fn alloc_step(pre: Self, post: Self, k: CellKind) -> bool {
        &&& pre.cursor_of(k) < pre.ceiling_of(k)
        &&& post.config == pre.config
        &&& post.cursor_of(k) == pre.cursor_of(k) + 1
        &&& forall|k2: CellKind| k2 != k ==> post.cursor_of(k2) == pre.cursor_of(k2)
    }

    /// A fresh allocator over `config`, each cursor at its zone's start.
    pub fn new(config: EventTableCommonConfig) -> (r: Self)
        requires
            config.wf(),
        ensures
            r.wf(),
            r.config == config,
            r.bit_index == config.bit_start,
            r.common_range_index == config.common_range_start,
            r.unlimit_index == config.shared_start,
            r.u64_index == 0,
            r.mtable_lookup_index == config.mtable_lookup_start,
    {
        let bit_index = config.bit_start;
        let common_range_index = config.common_range_start;
        let unlimit_index = config.shared_start;
        let mtable_lookup_index = config.mtable_lookup_start;
        Self { config, bit_index, common_range_index, unlimit_index, u64_index: 0, mtable_lookup_index }
    }

    /// Allocate one boolean-constrained value in the `shared_bits` column.
    pub fn alloc_bit_value(&mut self) -> (r: Result<BitCell, CapacityError>)
        requires
            old(self).wf(),
        ensures
            final(self).wf(),
            r is Ok <==> old(self).bit_index < old(self).config.step_size,
            r matches Ok(c) ==> Self::alloc_step(*old(self), *final(self), CellKind::Bit) && c
                == (BitCell { col: old(self).config.shared_bits, rot: old(self).bit_index }),
            r is Ok ==> *final(self) == (Self {
                bit_index: (old(self).bit_index + 1) as usize,
                ..*old(self)
            }),
            r is Err ==> *final(self) == *old(self) && r == Err::<BitCell, CapacityError>(
                (CapacityError { kind: CellKind::Bit }),
            ),
    {
        if self.bit_index >= self.config.step_size {
            return Err(CapacityError { kind: CellKind::Bit });
        }
        let allocated_index = self.bit_index;
        self.bit_index = self.bit_index + 1;
        Ok(BitCell { col: self.config.shared_bits, rot: allocated_index })
    }

    /// Allocate one common-range-checked value in the `aux_in_common` column.
    pub fn alloc_common_range_value(&mut self) -> (r: Result<CommonRangeCell, CapacityError>)
        requires
            old(self).wf(),
        ensures
            final(self).wf(),
            r is Ok <==> old(self).common_range_index < old(self).config.step_size,
            r matches Ok(c) ==> Self::alloc_step(*old(self), *final(self), CellKind::CommonRange)
                && c == (CommonRangeCell {
                col: old(self).config.aux_in_common,
                rot: old(self).common_range_index,
            }),
            r is Ok ==> *final(self) == (Self {
                common_range_index: (old(self).common_range_index + 1) as usize,
                ..*old(self)
            }),
            r is Err ==> *final(self) == *old(self) && r == Err::<CommonRangeCell, CapacityError>(
                (CapacityError { kind: CellKind::CommonRange }),
            ),
    {
        if self.common_range_index >= self.config.step_size {
            return Err(CapacityError { kind: CellKind::CommonRange });
        }
        let allocated_index = self.common_range_index;
        self.common_range_index = self.common_range_index + 1;
        Ok(CommonRangeCell { col: self.config.aux_in_common, rot: allocated_index })
    }

    /// Allocate one unconstrained value in the shared zone of the `aux`
    /// column.
    pub fn alloc_unlimited_value(&mut self) -> (r: Result<Cell, CapacityError>)
        requires
            old(self).wf(),
        ensures
            final(self).wf(),
            r is Ok <==> old(self).unlimit_index < old(self).config.step_size,
            r matches Ok(c) ==> Self::alloc_step(*old(self), *final(self), CellKind::Unlimited)
                && c == (Cell { col: old(self).config.aux, rot: old(self).unlimit_index }),
            r is Ok ==> *final(self) == (Self {
                unlimit_index: (old(self).unlimit_index + 1) as usize,
                ..*old(self)
            }),
            r is Err ==> *final(self) == *old(self) && r == Err::<Cell, CapacityError>(
                (CapacityError { kind: CellKind::Unlimited }),
            ),
    {
        if self.unlimit_index >= self.config.step_size {
            return Err(CapacityError { kind: CellKind::Unlimited });
        }
        let allocated_index = self.unlimit_index;
        self.unlimit_index = self.unlimit_index + 1;
        Ok(Cell { col: self.config.aux, rot: allocated_index })
    }

    /// Allocate one 64-bit value: a value offset in the 64-bit zone of `aux`
    /// and the nibble column at the same cursor, so the pair is always
    /// derived from one cursor value.
    pub fn alloc_u64(&mut self) -> (r: Result<U64Cell, CapacityError>)
        requires
            old(self).wf(),
        ensures
            final(self).wf(),
            r is Ok <==> old(self).u64_index < old(self).config.u4_shared@.len(),
            r matches Ok(c) ==> Self::alloc_step(*old(self), *final(self), CellKind::U64Limb) && c
                == (U64Cell {
                value_col: old(self).config.aux,
                value_rot: (old(self).u64_index + old(self).config.u64_start) as usize,
                u4_col: old(self).config.u4_shared@[old(self).u64_index as int],
            }),
            r is Ok ==> *final(self) == (Self {
                u64_index: (old(self).u64_index + 1) as usize,
                ..*old(self)
            }),
            r is Err ==> *final(self) == *old(self) && r == Err::<U64Cell, CapacityError>(
                (CapacityError { kind: CellKind::U64Limb }),
            ),
    {
        if self.u64_index >= self.config.u4_shared.len() {
            return Err(CapacityError { kind: CellKind::U64Limb });
        }
        let allocated_index = self.u64_index;
        self.u64_index = self.u64_index + 1;
        Ok(
            U64Cell {
                value_col: self.config.aux,
                value_rot: allocated_index + self.config.u64_start,
                u4_col: self.config.u4_shared[allocated_index],
            },
        )
    }

    /// Allocate one memory-table lookup target in the lookup zone of `aux`;
    /// the zone may never grow into the 64-bit zone that starts at
    /// `u64_start`.
    pub fn alloc_mtable_lookup(&mut self) -> (r: Result<MTableLookupCell, CapacityError>)
        requires
            old(self).wf(),
        ensures
            final(self).wf(),
            r is Ok <==> old(self).mtable_lookup_index < old(self).config.u64_start,
            r matches Ok(c) ==> Self::alloc_step(*old(self), *final(self), CellKind::MTableLookup)
                && c == (MTableLookupCell {
                col: old(self).config.aux,
                rot: old(self).mtable_lookup_index,
            }),
            r is Ok ==> *final(self) == (Self {
                mtable_lookup_index: (old(self).mtable_lookup_index + 1) as usize,
                ..*old(self)
            }),
            r is Err ==> *final(self) == *old(self) && r == Err::<MTableLookupCell, CapacityError>(
                (CapacityError { kind: CellKind::MTableLookup }),
            ),
    {
        if self.mtable_lookup_index >= self.config.u64_start {
            return Err(CapacityError { kind: CellKind::MTableLookup });
        }
        let allocated_index = self.mtable_lookup_index;
        self.mtable_lookup_index = self.mtable_lookup_index + 1;
        Ok(MTableLookupCell { col: self.config.aux, rot: allocated_index })
    }
}

} // verus!
