//! Laws of the allocator, stated over traces: a trace is a sequence of
//! allocator states in which each state follows from the one before it by a
//! single successful allocation of one kind.

use vstd::prelude::*;

use crate::allocator::EventTableCellAllocator;
use crate::cells::CellKind;
use crate::event::{EventTableEntry, WitnessWrite};
use crate::op_configure::EventTableOpcodeConfig;

verus! {

/// Each adjacent pair of states is linked by one successful allocation of
/// kind `k`.
pub open spec fn alloc_trace(states: Seq<EventTableCellAllocator>, k: CellKind) -> bool {
    forall|i: int| #![trigger states[i]]
        0 <= i < states.len() - 1 ==> EventTableCellAllocator::alloc_step(
            states[i],
            states[i + 1],
            k,
        )
}

/// Along a trace, the configuration never changes, the cursor of the traced
/// kind advances by exactly one per step, and it stays below its ceiling
/// before every step.
pub proof fn lemma_trace_cursor(states: Seq<EventTableCellAllocator>, k: CellKind, i: int)
    requires
        alloc_trace(states, k),
        0 <= i < states.len(),
        states.len() >= 1,
    ensures
        states[i].config == states[0].config,
        states[i].cursor_of(k) == states[0].cursor_of(k) + i,
        i < states.len() - 1 ==> states[i].cursor_of(k) < states[i].ceiling_of(k),
    decreases i,
{
    if i > 0 {
        lemma_trace_cursor(states, k, i - 1);
        assert(EventTableCellAllocator::alloc_step(states[i - 1], states[i - 1 + 1], k));
        assert(states[i - 1 + 1] == states[i]);
    }
    if i < states.len() - 1 {
        assert(EventTableCellAllocator::alloc_step(states[i], states[i + 1], k));
    }
}

/// No-overlap: along a trace of one kind, the offsets handed out are
/// strictly increasing, and so pairwise distinct.
pub proof fn lemma_no_overlap(states: Seq<EventTableCellAllocator>, k: CellKind)
    requires
        alloc_trace(states, k),
        states.len() >= 1,
    ensures
        forall|i: int, j: int|
            0 <= i < j < states.len() - 1 ==> states[i].rot_of_next(k) < states[j].rot_of_next(k),
{
    assert forall|i: int, j: int|
        0 <= i < j < states.len() - 1 implies states[i].rot_of_next(k) < states[j].rot_of_next(
        k,
    ) by {
        lemma_trace_cursor(states, k, i);
        lemma_trace_cursor(states, k, j);
    }
}

/// Capacity enforcement: no trace of successful allocations of one kind is
/// longer than the room left below that kind's ceiling; in particular, from
/// a fresh cursor at most `ceiling - start` allocations can ever succeed.
pub proof fn lemma_capacity(states: Seq<EventTableCellAllocator>, k: CellKind)
    requires
        alloc_trace(states, k),
        states.len() >= 1,
        states[0].wf(),
    ensures
        states.len() - 1 <= states[0].ceiling_of(k) - states[0].cursor_of(k),
{
    let n = states.len() as int;
    if n >= 2 {
        lemma_trace_cursor(states, k, n - 2);
        assert(states[n - 2].ceiling_of(k) == states[0].ceiling_of(k));
    }
}

/// Disjoint zones: a memory-table lookup offset handed out from any
/// well-formed state lies strictly below every 64-bit value offset handed
/// out over the same configuration.
pub proof fn lemma_disjoint_zones(a: EventTableCellAllocator, b: EventTableCellAllocator)
    requires
        a.wf(),
        b.wf(),
        a.config == b.config,
        a.cursor_of(CellKind::MTableLookup) < a.ceiling_of(CellKind::MTableLookup),
        b.cursor_of(CellKind::U64Limb) < b.ceiling_of(CellKind::U64Limb),
    ensures
        a.rot_of_next(CellKind::MTableLookup) < b.rot_of_next(CellKind::U64Limb),
{
}

/// What a successful assignment leaves behind, as the runtime capability's
/// contract states it: the write log before the call, extended by the
/// writes the configuration produces for the entry.
pub open spec fn assign_outcome<C: EventTableOpcodeConfig>(
    c: C,
    entry: EventTableEntry,
    pre: Seq<WitnessWrite>,
    post: Seq<WitnessWrite>,
) -> bool {
    post == pre + c.writes_of(entry)
}

/// Assignment determinism: a configuration and an entry determine the
/// appended writes, so two successful assignments of the same entry from
/// equal write logs leave equal write logs.
pub proof fn lemma_assign_deterministic<C: EventTableOpcodeConfig>(
    c: C,
    entry: EventTableEntry,
    pre1: Seq<WitnessWrite>,
    post1: Seq<WitnessWrite>,
    pre2: Seq<WitnessWrite>,
    post2: Seq<WitnessWrite>,
)
    requires
        pre1 == pre2,
        assign_outcome(c, entry, pre1, post1),
        assign_outcome(c, entry, pre2, post2),
    ensures
        post1 == post2,
{
}

/// Limb pairing: along a trace of 64-bit allocations from a well-formed
/// state, the value offset and the limb column handed out at each step are
/// derived from one cursor value, and no two steps use the same limb column.
pub proof fn lemma_u64_limb_pairing(states: Seq<EventTableCellAllocator>)
    requires
        alloc_trace(states, CellKind::U64Limb),
        states.len() >= 1,
        states[0].wf(),
    ensures
        forall|i: int|
            0 <= i < states.len() - 1 ==> states[i].rot_of_next(CellKind::U64Limb)
                == states[i].cursor_of(CellKind::U64Limb) + states[i].config.u64_start,
        forall|i: int, j: int|
            0 <= i < j < states.len() - 1 ==> states[i].config.u4_shared@[states[i].cursor_of(
                CellKind::U64Limb,
            )] != states[j].config.u4_shared@[states[j].cursor_of(CellKind::U64Limb)],
{
    let k = CellKind::U64Limb;
    assert forall|i: int, j: int|
        0 <= i < j < states.len() - 1 implies states[i].config.u4_shared@[states[i].cursor_of(k)]
        != states[j].config.u4_shared@[states[j].cursor_of(k)] by {
        lemma_trace_cursor(states, k, i);
        lemma_trace_cursor(states, k, j);
        let cfg = states[0].config;
        let ci = states[i].cursor_of(k);
        let cj = states[j].cursor_of(k);
        assert(0 <= ci < cj < cfg.u4_shared@.len());
        assert(cfg.cols()[3 + ci] == cfg.u4_shared@[ci]);
        assert(cfg.cols()[3 + cj] == cfg.u4_shared@[cj]);
        assert(cfg.cols()[3 + ci] != cfg.cols()[3 + cj]);
    }
}

} // verus!
