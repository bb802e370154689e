//! The operation bridge: pairs each created operation with exactly one
//! eventual outcome.
//!
//! The executable program hands a one-shot completion slot to the
//! virtualization service's callback; the callback publishes one outcome
//! and the awaiting logic receives it. This module is that ledger: every
//! created operation has one slot, a slot is completed exactly once, and a
//! completed outcome is taken exactly once. The contracts of `complete`
//! and `take_outcome` are the two safety invariants of the bridge:
//! exactly-once delivery and exactly-once release.

use vstd::prelude::*;

verus! {

/// The eventual result of one asynchronous operation: the service's
/// structured response document on success, or a service result code
/// paired with a diagnostic payload on failure.
#[derive(Debug)]
pub enum OperationOutcome {
    Success(String),
    Failure(i32, String),
}

/// The lifecycle of one completion slot.
#[derive(Debug)]
pub enum SlotState {
    /// Created; the service has not yet invoked the completion callback.
    Pending,
    /// The callback published exactly one outcome, not yet received.
    Completed(OperationOutcome),
    /// The outcome was received by the awaiting logic.
    Delivered,
}

/// The bridge: one slot per created operation, in creation order.
pub struct OperationBridge {
    pub slots: Vec<SlotState>,
}

pub open spec fn count_pending(s: Seq<SlotState>) -> nat
    decreases s.len(),
{
    if s.len() == 0 {
        0
    } else {
        count_pending(s.drop_last()) + (if s.last() is Pending {
            1nat
        } else {
            0nat
        })
    }
}

pub open spec fn count_completed(s: Seq<SlotState>) -> nat
    decreases s.len(),
{
    if s.len() == 0 {
        0
    } else {
        count_completed(s.drop_last()) + (if s.last() is Completed {
            1nat
        } else {
            0nat
        })
    }
}

pub open spec fn count_delivered(s: Seq<SlotState>) -> nat
    decreases s.len(),
{
    if s.len() == 0 {
        0
    } else {
        count_delivered(s.drop_last()) + (if s.last() is Delivered {
            1nat
        } else {
            0nat
        })
    }
}

impl OperationBridge {
    /// Number of operations created so far.
    pub open spec fn created(self) -> nat {
        self.slots@.len()
    }

    pub fn new() -> (b: Self)
        ensures
            b.slots@.len() == 0,
    {
        OperationBridge { slots: Vec::new() }
    }

    /// Creates one operation: allocates a fresh pending slot and returns
    /// its identifier.
    pub fn begin_operation(&mut self) -> (id: usize)
        ensures
            final(self).slots@ == old(self).slots@.push(SlotState::Pending),
            id == old(self).slots@.len(),
    {
        let id = self.slots.len();
        self.slots.push(SlotState::Pending);
        id
    }

    /// The completion callback publishes the outcome of one operation.
    /// It may run for any pending operation in any order, but only once
    /// per operation: a slot that already holds an outcome cannot be
    /// completed again.
    pub fn complete(&mut self, id: usize, outcome: OperationOutcome)
        requires
            id < old(self).slots@.len(),
            old(self).slots@[id as int] is Pending,
        ensures
            final(self).slots@ == old(self).slots@.update(
                id as int,
                SlotState::Completed(outcome),
            ),
    {
        self.slots.set(id, SlotState::Completed(outcome));
    }

    /// The awaiting logic receives the published outcome, exactly once:
    /// a delivered slot cannot be taken again.
    pub fn take_outcome(&mut self, id: usize) -> (r: OperationOutcome)
        requires
            id < old(self).slots@.len(),
            old(self).slots@[id as int] is Completed,
        ensures
            final(self).slots@ == old(self).slots@.update(id as int, SlotState::Delivered),
            old(self).slots@[id as int] matches SlotState::Completed(o) && r == o,
    {
        let taken = self.slots.remove(id);
        self.slots.insert(id, SlotState::Delivered);
        proof {
            assert(self.slots@ =~= old(self).slots@.update(
                id as int,
                SlotState::Delivered,
            ));
        }
        match taken {
            SlotState::Completed(o) => o,
            _ => vstd::pervasive::unreached(),
        }
    }
}

/// Folds a raw operation result — the response document on success, a
/// result code with its diagnostic payload on failure — into one outcome
/// value, changing nothing.
pub fn outcome_of_result(res: Result<String, (i32, String)>) -> (r: OperationOutcome)
    ensures
        res matches Ok(s) ==> r == OperationOutcome::Success(s),
        res matches Err(e) ==> r == OperationOutcome::Failure(e.0, e.1),
{
    match res {
        Ok(s) => OperationOutcome::Success(s),
        Err((code, payload)) => OperationOutcome::Failure(code, payload),
    }
}

/// Creating an operation adds one pending slot and touches nothing else.
pub proof fn lemma_begin_counts(s: Seq<SlotState>)
    ensures
        count_pending(s.push(SlotState::Pending)) == count_pending(s) + 1,
        count_completed(s.push(SlotState::Pending)) == count_completed(s),
        count_delivered(s.push(SlotState::Pending)) == count_delivered(s),
{
    assert(s.push(SlotState::Pending).drop_last() =~= s);
}

/// Completing a pending operation moves exactly one slot from pending to
/// completed: no other outcome appears and none disappears.
pub proof fn lemma_complete_counts(s: Seq<SlotState>, i: int, o: OperationOutcome)
    requires
        0 <= i < s.len(),
        s[i] is Pending,
    ensures
        count_pending(s.update(i, SlotState::Completed(o))) == count_pending(s) - 1,
        count_completed(s.update(i, SlotState::Completed(o))) == count_completed(s) + 1,
        count_delivered(s.update(i, SlotState::Completed(o))) == count_delivered(s),
    decreases s.len(),
{
    let t = s.update(i, SlotState::Completed(o));
    if i == s.len() - 1 {
        assert(t.drop_last() =~= s.drop_last());
        assert(t.last() == SlotState::Completed(o));
    } else {
        lemma_complete_counts(s.drop_last(), i, o);
        assert(t.drop_last() =~= s.drop_last().update(i, SlotState::Completed(o)));
        assert(t.last() == s.last());
    }
}

/// Taking a published outcome moves exactly one slot from completed to
/// delivered: one outcome is received, none is lost or duplicated.
pub proof fn lemma_take_counts(s: Seq<SlotState>, i: int)
    requires
        0 <= i < s.len(),
        s[i] is Completed,
    ensures
        count_pending(s.update(i, SlotState::Delivered)) == count_pending(s),
        count_completed(s.update(i, SlotState::Delivered)) == count_completed(s) - 1,
        count_delivered(s.update(i, SlotState::Delivered)) == count_delivered(s) + 1,
    decreases s.len(),
{
    let t = s.update(i, SlotState::Delivered);
    if i == s.len() - 1 {
        assert(t.drop_last() =~= s.drop_last());
        assert(t.last() == SlotState::Delivered);
    } else {
        lemma_take_counts(s.drop_last(), i);
        assert(t.drop_last() =~= s.drop_last().update(i, SlotState::Delivered));
        assert(t.last() == s.last());
    }
}

/// Every slot is pending, completed or delivered, so the three counts
/// partition the created operations.
pub proof fn lemma_outcomes_conserved(s: Seq<SlotState>)
    ensures
        count_pending(s) + count_completed(s) + count_delivered(s) == s.len(),
    decreases s.len(),
{
    if s.len() > 0 {
        lemma_outcomes_conserved(s.drop_last());
    }
}

/// Exactly one outcome per created operation: once no slot is still
/// pending and no published outcome is still waiting, the number of
/// delivered outcomes equals the number of created operations — never
/// fewer, never duplicated — whatever order the callbacks ran in.
pub proof fn lemma_exactly_one_outcome_each(b: OperationBridge)
    requires
        count_pending(b.slots@) == 0,
        count_completed(b.slots@) == 0,
    ensures
        count_delivered(b.slots@) == b.created(),
{
    lemma_outcomes_conserved(b.slots@);
}

} // verus!
