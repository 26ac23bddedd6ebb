//! The single-word handoff slot that a switch request is published in.

use portable_atomic::AtomicUsize;
use vstd::prelude::*;

verus! {

/// The handle that stands for "no context": a free slot holds it.
pub const NULL_CONTEXT: usize = 0;

#[verifier::external_type_specification]
#[verifier::external_body]
pub struct ExAtomicUsize(AtomicUsize);

/// The word that an atomic cell holds.
pub uninterp spec fn cell_value(cell: AtomicUsize) -> usize;

/// `portable_atomic::AtomicUsize::new`: the new cell holds `value`.
#[verifier::external_body]
fn cell_new(value: usize) -> (cell: AtomicUsize)
    ensures
        cell_value(cell) == value,
{
    AtomicUsize::new(value)
}

/// `portable_atomic::AtomicUsize::load` with sequentially consistent
/// ordering, with which it does not panic: returns the word that the cell
/// holds.
#[verifier::external_body]
fn cell_load(cell: &AtomicUsize) -> (value: usize)
    ensures
        value == cell_value(*cell),
{
    cell.load(portable_atomic::Ordering::SeqCst)
}

/// `portable_atomic::AtomicUsize::store` with sequentially consistent
/// ordering, with which it does not panic: afterwards the cell holds `value`.
/// The cell is taken by unique reference, so no other reader sees it change.
#[verifier::external_body]
fn cell_store(cell: &mut AtomicUsize, value: usize)
    ensures
        cell_value(*final(cell)) == value,
{
    cell.store(value, portable_atomic::Ordering::SeqCst)
}

/// One of the two words through which a switch request reaches the
/// trampoline. It holds a context handle, or [`NULL_CONTEXT`] when free.
pub struct HandoffSlot {
    word: AtomicUsize,
}

impl View for HandoffSlot {
    type V = usize;

    closed spec fn view(&self) -> usize {
        cell_value(self.word)
    }
}

impl HandoffSlot {
    /// Whether the slot holds a handle.
    pub open spec fn occupied(&self) -> bool {
        self@ != NULL_CONTEXT
    }

    /// A free slot.
    pub fn new() -> (slot: HandoffSlot)
        ensures
            slot@ == NULL_CONTEXT,
    {
        HandoffSlot { word: cell_new(NULL_CONTEXT) }
    }

    /// The handle in the slot.
    pub fn load(&self) -> (handle: usize)
        ensures
            handle == self@,
    {
        cell_load(&self.word)
    }

    /// Whether the slot is free.
    pub fn is_null(&self) -> (free: bool)
        ensures
            free == !self.occupied(),
    {
        cell_load(&self.word) == NULL_CONTEXT
    }

    /// Puts `handle` in the slot.
    pub fn store(&mut self, handle: usize)
        ensures
            final(self)@ == handle,
    {
        cell_store(&mut self.word, handle)
    }

    /// Empties the slot and returns what it held.
    pub fn take(&mut self) -> (handle: usize)
        ensures
            handle == old(self)@,
            final(self)@ == NULL_CONTEXT,
    {
        let handle = cell_load(&self.word);
        cell_store(&mut self.word, NULL_CONTEXT);
        handle
    }
}

} // verus!
