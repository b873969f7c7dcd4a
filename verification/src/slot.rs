//! The slot that holds the currently running process.
//!
//! A `ProcessSlot` stores zero or one `ProcessHandle`s. Its two operations,
//! `install` and `take`, each swap the stored value in a single step and hand
//! the previous occupant to the caller, so that every handle ever installed is
//! returned to exactly one caller for termination. The embedding program
//! serializes concurrent requests around these operations (a mutex held only
//! for the instant of the swap); each critical section is then one `SlotOp`
//! of the step model below, and the laws proved over sequences of `SlotOp`s
//! apply to any interleaving.

use vstd::multiset::Multiset;
use vstd::prelude::*;

verus! {

/// An opaque capability standing for one spawned process: enough to request
/// its termination and to tell two processes apart, and nothing more.
#[derive(Clone, Copy, PartialEq, Eq, Structural, Debug)]
pub struct ProcessHandle {
    /// The operating-system id of the process this handle stands for.
    pub pid: u64,
}

/// The single shared cell holding the currently installed process handle,
/// or nothing.
pub struct ProcessSlot {
    current: Option<ProcessHandle>,
}

impl View for ProcessSlot {
    type V = Option<ProcessHandle>;

    closed spec fn view(&self) -> Option<ProcessHandle> {
        self.current
    }
}

impl ProcessSlot {
    /// Creates the slot empty: no process is running at service start.
    pub fn new() -> (s: ProcessSlot)
        ensures
            s@ is None,
    {
        ProcessSlot { current: None }
    }

    /// Atomically stores `h` as the current handle and returns whatever was
    /// installed before, removing it from the slot in the same step.
    ///
    /// The new handle is installed at the very step that hands the previous
    /// occupant out, so the caller terminates the old process only after the
    /// new one already stands in the slot.
    pub fn install(&mut self, h: ProcessHandle) -> (prev: Option<ProcessHandle>)
        ensures
            final(self)@ == slot_op_next(old(self)@, SlotOp::Install(h)),
            final(self)@ == Some(h),
            prev == slot_op_returned(old(self)@, SlotOp::Install(h)),
            prev == old(self)@,
    {
        let prev = self.current;
        self.current = Some(h);
        prev
    }

    /// Atomically removes and returns the current handle, leaving the slot
    /// empty.
    pub fn take(&mut self) -> (prev: Option<ProcessHandle>)
        ensures
            final(self)@ == slot_op_next(old(self)@, SlotOp::Take),
            final(self)@ is None,
            prev == slot_op_returned(old(self)@, SlotOp::Take),
            prev == old(self)@,
    {
        let prev = self.current;
        self.current = None;
        prev
    }
}

/// One atomic operation on the slot: the critical section of one request.
pub enum SlotOp {
    /// Store this handle, returning the previous occupant.
    Install(ProcessHandle),
    /// Empty the slot, returning the previous occupant.
    Take,
}

/// The slot's content after one operation.
pub open spec fn slot_op_next(s: Option<ProcessHandle>, op: SlotOp) -> Option<ProcessHandle> {
    match op {
        SlotOp::Install(h) => Some(h),
        SlotOp::Take => None,
    }
}

/// What one operation hands back to its caller: always the previous occupant,
/// and to that caller alone.
pub open spec fn slot_op_returned(s: Option<ProcessHandle>, op: SlotOp) -> Option<ProcessHandle> {
    s
}

/// The slot's content after a sequence of operations, applied in order.
pub open spec fn slot_after(init: Option<ProcessHandle>, ops: Seq<SlotOp>) -> Option<ProcessHandle>
    decreases ops.len(),
{
    if ops.len() == 0 {
        init
    } else {
        slot_op_next(slot_after(init, ops.drop_last()), ops.last())
    }
}

/// The occupant of the slot as a multiset: one handle, or none.
pub open spec fn occupant(s: Option<ProcessHandle>) -> Multiset<ProcessHandle> {
    match s {
        Some(h) => Multiset::empty().insert(h),
        None => Multiset::empty(),
    }
}

/// All handles handed back to callers over a sequence of operations: the
/// termination work the callers are charged with.
pub open spec fn handles_returned(init: Option<ProcessHandle>, ops: Seq<SlotOp>) -> Multiset<
    ProcessHandle,
>
    decreases ops.len(),
{
    if ops.len() == 0 {
        Multiset::empty()
    } else {
        handles_returned(init, ops.drop_last()).add(
            occupant(slot_after(init, ops.drop_last())),
        )
    }
}

/// All handles installed over a sequence of operations.
pub open spec fn handles_installed(ops: Seq<SlotOp>) -> Multiset<ProcessHandle>
    decreases ops.len(),
{
    if ops.len() == 0 {
        Multiset::empty()
    } else {
        handles_installed(ops.drop_last()).add(
            match ops.last() {
                SlotOp::Install(h) => Multiset::empty().insert(h),
                SlotOp::Take => Multiset::empty(),
            },
        )
    }
}

} // verus!
