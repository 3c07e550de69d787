//! A write-once slot for the terminal value of a request.
//!
//! The first write wins; later writes fail with `AlreadyResolved` and leave
//! the value alone, so every observer of the cell sees the same outcome.
use vstd::prelude::*;

use crate::approvals::{ApprovalError, ApprovalOutcome};

verus! {

/// The cell's value after a write of `v` to a cell holding `c`.
pub open spec fn after_write(c: Option<ApprovalOutcome>, v: ApprovalOutcome) -> Option<
    ApprovalOutcome,
> {
    if c is None {
        Some(v)
    } else {
        c
    }
}

/// The cell's value after the writes `writes`, in order, to a cell holding `c`.
pub open spec fn after_writes(c: Option<ApprovalOutcome>, writes: Seq<ApprovalOutcome>) -> Option<
    ApprovalOutcome,
>
    decreases writes.len(),
{
    if writes.len() == 0 {
        c
    } else {
        after_writes(after_write(c, writes[0]), writes.drop_first())
    }
}

/// Once a cell holds a value, no sequence of writes changes it.
pub proof fn lemma_resolved_stays(c: Option<ApprovalOutcome>, writes: Seq<ApprovalOutcome>)
    requires
        c is Some,
    ensures
        after_writes(c, writes) == c,
    decreases writes.len(),
{
    if writes.len() > 0 {
        lemma_resolved_stays(after_write(c, writes[0]), writes.drop_first());
    }
}

/// However many writes reach an empty cell, it ends holding the first of
/// them, and that one value is what every observer sees.
pub proof fn lemma_first_write_wins(writes: Seq<ApprovalOutcome>)
    requires
        writes.len() > 0,
    ensures
        after_writes(None, writes) == Some(writes[0]),
{
    lemma_resolved_stays(Some(writes[0]), writes.drop_first());
}

/// Holds at most one outcome, written once.
pub struct OutcomeCell {
    value: Option<ApprovalOutcome>,
}

impl View for OutcomeCell {
    type V = Option<ApprovalOutcome>;

    closed spec fn view(&self) -> Option<ApprovalOutcome> {
        self.value
    }
}

impl OutcomeCell {
    /// An empty cell.
    pub fn new() -> (r: OutcomeCell)
        ensures
            r@ is None,
    {
        OutcomeCell { value: None }
    }

    /// Stores `v` when the cell is empty; fails with `AlreadyResolved`, and
    /// keeps the value it holds, otherwise.
    pub fn resolve(&mut self, v: ApprovalOutcome) -> (r: Result<(), ApprovalError>)
        ensures
            final(self)@ == after_write(old(self)@, v),
            r is Ok <==> old(self)@ is None,
            r matches Err(e) ==> e == ApprovalError::AlreadyResolved,
    {
        if self.value.is_some() {
            return Err(ApprovalError::AlreadyResolved);
        }
        self.value = Some(v);
        Ok(())
    }

    /// Whether the cell holds its outcome.
    pub fn is_resolved(&self) -> (r: bool)
        ensures
            r == self@ is Some,
    {
        self.value.is_some()
    }

    /// The outcome the cell holds, if it holds one.
    pub fn observe(&self) -> (r: Option<&ApprovalOutcome>)
        ensures
            r is Some <==> self@ is Some,
            r matches Some(o) ==> self@ == Some(*o),
    {
        match &self.value {
            Some(o) => Some(o),
            None => None,
        }
    }
}

} // verus!
