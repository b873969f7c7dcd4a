//! Laws of the slot under any interleaving of requests.
//!
//! Each concurrent `submit` or `terminate_current` call touches the slot in
//! exactly one atomic critical section, so any concurrent execution
//! linearizes into a sequence of `SlotOp`s applied to the slot's initial
//! content. The proofs here quantify over such sequences.

use vstd::multiset::Multiset;
use vstd::prelude::*;

use crate::slot::handles_installed;
use crate::slot::handles_returned;
use crate::slot::occupant;
use crate::slot::slot_after;
use crate::slot::slot_op_next;
use crate::slot::slot_op_returned;
use crate::slot::ProcessHandle;
use crate::slot::SlotOp;

verus! {

/// Exclusivity: over any sequence of operations, the handles handed out for
/// termination together with the one handle still installed at the end are
/// exactly the handles ever installed together with the initial occupant —
/// as multisets, so no handle is handed out twice and none is leaked.
pub proof fn lemma_exclusivity(init: Option<ProcessHandle>, ops: Seq<SlotOp>)
    ensures
        handles_installed(ops).add(occupant(init)) =~= handles_returned(init, ops).add(
            occupant(slot_after(init, ops)),
        ),
        handles_installed(ops).len() + occupant(init).len() == handles_returned(init, ops).len()
            + occupant(slot_after(init, ops)).len(),
    decreases ops.len(),
{
    if ops.len() == 0 {
    } else {
        lemma_exclusivity(init, ops.drop_last());
    }
}

/// Idempotent kill: any number of takes on an empty slot leave it empty and
/// hand no handle to anyone, so each such call succeeds with nothing to do.
pub proof fn lemma_idempotent_kill(n: nat)
    ensures
        slot_after(None, Seq::new(n, |i: int| SlotOp::Take)) is None,
        handles_returned(None, Seq::new(n, |i: int| SlotOp::Take)) =~= Multiset::empty(),
    decreases n,
{
    if n > 0 {
        lemma_idempotent_kill((n - 1) as nat);
        assert(Seq::new(n, |i: int| SlotOp::Take).drop_last() =~= Seq::new(
            (n - 1) as nat,
            |i: int| SlotOp::Take,
        ));
    }
}

/// Spawn before kill: installing a handle puts it in the slot whatever the
/// slot held, and the previous occupant is handed out only in that same step.
/// The old process is therefore terminated only once the new one already
/// stands installed; its termination is never needed for the new one to be.
pub proof fn lemma_spawn_before_kill(s: Option<ProcessHandle>, h: ProcessHandle)
    ensures
        slot_op_next(s, SlotOp::Install(h)) == Some(h),
        slot_op_returned(s, SlotOp::Install(h)) == s,
{
}

/// Race resolution: after two installs in swap order, the slot holds exactly
/// the later one's handle, and the termination work handed out is exactly the
/// earlier one's handle together with the initial occupant — one termination
/// when the slot started empty, two when it started occupied.
pub proof fn lemma_race_resolution(init: Option<ProcessHandle>, a: ProcessHandle, b: ProcessHandle)
    ensures
        slot_after(init, seq![SlotOp::Install(a), SlotOp::Install(b)]) == Some(b),
        handles_returned(init, seq![SlotOp::Install(a), SlotOp::Install(b)]) =~= occupant(
            init,
        ).insert(a),
        init is None ==> handles_returned(init, seq![SlotOp::Install(a), SlotOp::Install(b)]).len()
            == 1,
        init is Some ==> handles_returned(init, seq![SlotOp::Install(a), SlotOp::Install(b)]).len()
            == 2,
{
    let ops = seq![SlotOp::Install(a), SlotOp::Install(b)];
    let first = seq![SlotOp::Install(a)];
    assert(ops.drop_last() =~= first);
    assert(first.drop_last() =~= Seq::<SlotOp>::empty());
    assert(slot_after(init, Seq::<SlotOp>::empty()) == init);
    assert(handles_returned(init, Seq::<SlotOp>::empty()) == Multiset::<ProcessHandle>::empty());
    assert(slot_after(init, first) == Some(a));
    assert(handles_returned(init, first) =~= occupant(init));
    assert(handles_returned(init, ops) =~= handles_returned(init, first).add(
        occupant(Some(a)),
    ));
    assert(handles_returned(init, ops) =~= occupant(init).insert(a));
    assert(occupant(init).insert(a).len() == occupant(init).len() + 1);
    if let Some(h) = init {
        assert(occupant(init) == Multiset::empty().insert(h));
        assert(occupant(init).len() == 1);
    } else {
        assert(occupant(init).len() == 0);
    }
}

} // verus!
