//! How a call obtains the shared UI context.
//!
//! The bridge keeps its UI context in one shared slot behind a mutual
//! exclusion guard. Every entry point borrows the slot through the same
//! decision: a nested borrow is refused with a reentrancy error, an empty
//! slot is filled with a fresh context first, and a full slot is reused.

use vstd::prelude::*;

verus! {

/// What the host must do with the shared slot once the guard is held.
#[derive(Clone, Copy, Debug, PartialEq, Eq, Structural)]
pub enum SlotPlan {
    /// The slot is empty: create a fresh UI context, store it, then use it.
    Initialize,
    /// The slot already holds a context: use it as it is.
    Reuse,
}

/// Why the shared slot cannot be borrowed at all.
#[derive(Clone, Copy, Debug, PartialEq, Eq, Structural)]
pub enum AccessError {
    /// The slot is already borrowed: an entry point was nested inside
    /// another, such as a configuration call inside a UI-building closure.
    Reentrant,
}

/// Decides how a call obtains the shared UI context.
///
/// `guard_acquired` says whether the mutual exclusion guard was taken
/// without contention; `slot_occupied` says whether the slot already holds
/// a context. The call is refused exactly when the guard could not be
/// taken; otherwise the context is created exactly when the slot is empty,
/// so a context is never created twice.
pub fn plan_access(guard_acquired: bool, slot_occupied: bool) -> (r: Result<SlotPlan, AccessError>)
    ensures
        r is Ok <==> guard_acquired,
        !guard_acquired ==> r == Err::<SlotPlan, AccessError>(AccessError::Reentrant),
        guard_acquired && slot_occupied ==> r == Ok::<SlotPlan, AccessError>(SlotPlan::Reuse),
        guard_acquired && !slot_occupied ==> r == Ok::<SlotPlan, AccessError>(SlotPlan::Initialize),
{
    if !guard_acquired {
        Err(AccessError::Reentrant)
    } else if slot_occupied {
        Ok(SlotPlan::Reuse)
    } else {
        Ok(SlotPlan::Initialize)
    }
}

} // verus!
