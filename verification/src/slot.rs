//! A slot that is written once and read many times.
//!
//! The tracer of a process is created once, during start-up, and used until
//! the process ends. [`TracerSlot`] is the place it is kept in: empty at
//! first, filled by the first value offered, and never changed after that.
//! Filling a full slot and reading an empty one are mistakes in the order of
//! start-up, not conditions to recover from; [`TracerSlot::set`] and
//! [`TracerSlot::get`] rule them out by their preconditions. Code that cannot
//! know the state of the slot uses [`TracerSlot::try_set`] and
//! [`TracerSlot::try_get`], which report it.
//!
//! The slot is an ordinary value with one owner, so filling it takes
//! `&mut self`. A process that fills the slot from one thread while others
//! may read it needs a cell that fills atomically; what such a cell may do is
//! what is stated here.
use vstd::prelude::*;

verus! {

/// A slot holding at most one value, which once set stays for good.
pub struct TracerSlot<T> {
    held: Option<T>,
}

impl<T> View for TracerSlot<T> {
    type V = Option<T>;

    closed spec fn view(&self) -> Option<T> {
        self.held
    }
}

/// What a slot holding `held` holds after `value` is offered to it: the first
/// value offered stays.
pub open spec fn offer<T>(held: Option<T>, value: T) -> Option<T> {
    match held {
        Some(_) => held,
        None => Some(value),
    }
}

/// What a slot holding `held` holds after the values of `offers` are offered
/// to it in order.
pub open spec fn after_offers<T>(held: Option<T>, offers: Seq<T>) -> Option<T>
    decreases offers.len(),
{
    if offers.len() == 0 {
        held
    } else {
        after_offers(offer(held, offers[0]), offers.drop_first())
    }
}

/// A full slot keeps its value whatever is offered to it afterwards.
pub proof fn lemma_full_slot_keeps_its_value<T>(value: T, offers: Seq<T>)
    ensures
        after_offers(Some(value), offers) == Some(value),
    decreases offers.len(),
{
    if offers.len() > 0 {
        lemma_full_slot_keeps_its_value(value, offers.drop_first());
    }
}

/// An empty slot ends up holding the first value offered to it, however many
/// follow.
pub proof fn lemma_first_offer_wins<T>(offers: Seq<T>)
    requires
        offers.len() > 0,
    ensures
        after_offers(None, offers) == Some(offers[0]),
{
    lemma_full_slot_keeps_its_value(offers[0], offers.drop_first());
}

impl<T> TracerSlot<T> {
    /// An empty slot.
    pub fn new() -> (slot: Self)
        ensures
            slot@.is_none(),
    {
        TracerSlot { held: None }
    }

    /// Whether the slot has been filled.
    pub fn is_set(&self) -> (set: bool)
        ensures
            set == self@.is_some(),
    {
        self.held.is_some()
    }

    /// Fills the slot. The slot must be empty: filling it twice is a mistake
    /// of the caller.
    pub fn set(&mut self, value: T)
        requires
            old(self)@.is_none(),
        ensures
            final(self)@ == Some(value),
    {
        self.held = Some(value);
    }

    /// The value in the slot. The slot must be full: reading it before it is
    /// filled is a mistake of the caller.
    pub fn get(&self) -> (value: &T)
        requires
            self@.is_some(),
        ensures
            Some(*value) == self@,
    {
        self.held.as_ref().unwrap()
    }

    /// Offers `value` to the slot. An empty slot takes it. A full slot stays
    /// as it is and the value comes back as the error.
    pub fn try_set(&mut self, value: T) -> (taken: Result<(), T>)
        ensures
            final(self)@ == offer(old(self)@, value),
            old(self)@.is_none() ==> taken.is_ok(),
            old(self)@.is_some() ==> taken == Err::<(), T>(value),
    {
        if self.held.is_some() {
            Err(value)
        } else {
            self.held = Some(value);
            Ok(())
        }
    }

    /// The value in the slot, if it has been filled.
    pub fn try_get(&self) -> (value: Option<&T>)
        ensures
            value.is_some() == self@.is_some(),
            value matches Some(held) ==> Some(*held) == self@,
    {
        self.held.as_ref()
    }
}

} // verus!
