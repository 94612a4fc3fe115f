//! The shared response slot: a single cell holding "no result yet" or the
//! last outcome of a dispatched request, together with a small event model
//! of the accesses the dispatcher makes to it.
//!
//! The interactive thread and the background units communicate only through
//! this cell. Embedding code wraps a [`Slot`] in its own atomic guard (a
//! mutex held just across one access); each verified operation here is what
//! one such guarded access does to the cell's content.

use vstd::prelude::*;

use crate::models::{Response, ResponseError};

verus! {

/// The tri-state content of the slot: no attempt yet / succeeded / failed.
pub type Outcome = Option<Result<Response, ResponseError>>;

/// The shared response slot's content. `None` means no attempt yet, or
/// cleared for an in-flight request.
pub struct Slot {
    value: Outcome,
}

impl View for Slot {
    type V = Outcome;

    closed spec fn view(&self) -> Outcome {
        self.value
    }
}

impl Slot {
    /// A fresh slot: no attempt yet.
    pub fn new() -> (r: Slot)
        ensures
            r@ is None,
    {
        Slot { value: None }
    }

    /// Discard whatever outcome is there, returning the slot to "no result
    /// yet".
    pub fn clear(&mut self)
        ensures
            final(self)@ is None,
    {
        self.value = None;
    }

    /// Publish an outcome, overwriting whatever was there.
    pub fn set(&mut self, outcome: Result<Response, ResponseError>)
        ensures
            final(self)@ == Some(outcome),
    {
        self.value = Some(outcome);
    }

    /// Read the current content. The caller's critical section ends with the
    /// borrow; the reference is not a lock held across rendering.
    pub fn read(&self) -> (r: &Outcome)
        ensures
            *r == self@,
    {
        &self.value
    }
}

/// One access a dispatched request makes to the slot: the synchronous clear
/// when it is triggered, or a write of a terminal outcome.
pub enum SlotEvent {
    Clear,
    Write(Result<Response, ResponseError>),
}

/// What one access leaves in the slot.
pub open spec fn apply_event(s: Outcome, e: SlotEvent) -> Outcome {
    match e {
        SlotEvent::Clear => None,
        SlotEvent::Write(o) => Some(o),
    }
}

/// What a sequence of accesses, in order, leaves in the slot.
pub open spec fn apply_events(s: Outcome, es: Seq<SlotEvent>) -> Outcome
    decreases es.len(),
{
    if es.len() == 0 {
        s
    } else {
        apply_event(apply_events(s, es.drop_last()), es.last())
    }
}

/// How many of the accesses are writes.
pub open spec fn write_count(es: Seq<SlotEvent>) -> nat
    decreases es.len(),
{
    if es.len() == 0 {
        0
    } else {
        write_count(es.drop_last()) + (if es.last() is Write {
            1nat
        } else {
            0nat
        })
    }
}

/// Exactly-once write: a request whose build succeeds touches the slot as
/// the trace `[Clear, Write(outcome)]` — after the synchronous clear the
/// slot is unset, after the background unit's single write it holds exactly
/// that outcome, and the trace contains one write and no more.
pub proof fn lemma_exactly_once_write(s0: Outcome, outcome: Result<Response, ResponseError>)
    ensures
        ({
            let es = seq![SlotEvent::Clear, SlotEvent::Write(outcome)];
            &&& apply_events(s0, es.take(1)) is None
            &&& apply_events(s0, es) == Some(outcome)
            &&& write_count(es) == 1
        }),
{
    let es = seq![SlotEvent::Clear, SlotEvent::Write(outcome)];
    let just_clear = seq![SlotEvent::Clear];
    assert(es.take(1) =~= just_clear);
    assert(apply_events(s0, just_clear) is None);
    assert(es.drop_last() =~= just_clear);
    assert(apply_events(s0, es) == Some(outcome));
    assert(just_clear.drop_last() =~= Seq::<SlotEvent>::empty());
    assert(write_count(Seq::<SlotEvent>::empty()) == 0);
    assert(write_count(just_clear) == 0);
    assert(write_count(es) == 1);
}

/// Stale overwrite, the documented hazard this design does not prevent: if
/// request A is still in flight when request B is triggered, B's clear runs
/// first, and A's late write then makes the slot transiently show A's
/// outcome even though B is the current request; only B's own eventual write
/// replaces it. Nothing cancels A — a superseded result is overwritten, not
/// prevented.
pub proof fn lemma_stale_overwrite(
    s0: Outcome,
    a: Result<Response, ResponseError>,
    b: Result<Response, ResponseError>,
)
    ensures
        apply_events(s0, seq![SlotEvent::Clear, SlotEvent::Clear, SlotEvent::Write(a)]) == Some(a),
        apply_events(
            s0,
            seq![SlotEvent::Clear, SlotEvent::Clear, SlotEvent::Write(a), SlotEvent::Write(b)],
        ) == Some(b),
{
    let es3 = seq![SlotEvent::Clear, SlotEvent::Clear, SlotEvent::Write(a)];
    assert(apply_events(s0, es3) == Some(a));
    let es4 = seq![SlotEvent::Clear, SlotEvent::Clear, SlotEvent::Write(a), SlotEvent::Write(b)];
    assert(apply_events(s0, es4) == Some(b));
}

} // verus!
