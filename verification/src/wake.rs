//! Wake handles.
//!
//! A wake handle is a `core::task::Waker`: signalling it makes the executor poll a
//! suspended task again. The handle is opaque to the proofs of this crate. A handle
//! waits in a slot, the `AtomicWaker` of `embassy_sync`; what the proofs follow is
//! whether a slot holds one.
use core::task::Waker;
use embassy_sync::waitqueue::AtomicWaker;
use vstd::prelude::*;

verus! {

/// `core::task::Waker`, which the proofs carry through without looking inside.
#[verifier::external_type_specification]
#[verifier::external_body]
pub struct ExWaker(core::task::Waker);

/// The slot for one wake handle of `embassy_sync`.
#[verifier::external_type_specification]
#[verifier::external_body]
pub struct ExAtomicWaker(embassy_sync::waitqueue::AtomicWaker);

/// Whether a slot holds a wake handle.
pub uninterp spec fn holds_waker(slot: AtomicWaker) -> bool;

/// Calls `AtomicWaker::new`, which makes a slot that holds no wake handle.
#[verifier::external_body]
fn slot_new() -> (slot: AtomicWaker)
    ensures
        !holds_waker(slot),
{
    AtomicWaker::new()
}

/// Calls `AtomicWaker::register`, after which the slot holds a wake handle for the task
/// of `waker`, in place of what it held.
#[verifier::external_body]
fn slot_register(slot: &mut AtomicWaker, waker: &Waker)
    ensures
        holds_waker(*final(slot)),
{
    slot.register(waker)
}

/// Calls `AtomicWaker::wake`, which signals the wake handle that the slot holds, if it
/// holds one, and keeps it in the slot.
#[verifier::external_body]
fn slot_wake(slot: &mut AtomicWaker)
    ensures
        holds_waker(*final(slot)) == holds_waker(*old(slot)),
{
    slot.wake()
}

/// Whether a wait is over.
#[derive(Debug, Clone, Copy, PartialEq, Eq)]
pub enum Poll<T> {
    /// The wait is over, with this result.
    Ready(T),
    /// The wait goes on: the task is woken when there is news.
    Pending,
}

/// A place for the wake handle of one waiting task.
///
/// A registration replaces the one before it: a slot serves a single waiter. A wake
/// signals the handle and leaves it in the slot. The slot counts, for the proofs alone,
/// how often it was signalled.
pub struct WakeSlot {
    waker: AtomicWaker,
    signals: Ghost<nat>,
}

impl WakeSlot {
    /// Whether a wake handle is registered in the slot.
    pub closed spec fn is_registered(&self) -> bool {
        holds_waker(self.waker)
    }

    /// How often the slot was signalled since it was made.
    pub closed spec fn spec_signals(&self) -> nat {
        self.signals@
    }

    /// An empty slot that was never signalled.
    pub fn new() -> (slot: WakeSlot)
        ensures
            !slot.is_registered(),
            slot.spec_signals() == 0,
    {
        WakeSlot { waker: slot_new(), signals: Ghost(0) }
    }

    /// Registers the wake handle `waker`, in place of what the slot held.
    pub fn register(&mut self, waker: &Waker)
        ensures
            final(self).is_registered(),
            final(self).spec_signals() == old(self).spec_signals(),
    {
        slot_register(&mut self.waker, waker);
    }

    /// Signals the slot once: the registered wake handle, if there is one, wakes its
    /// task. The handle stays registered.
    pub fn wake(&mut self)
        ensures
            final(self).is_registered() == old(self).is_registered(),
            final(self).spec_signals() == old(self).spec_signals() + 1,
    {
        slot_wake(&mut self.waker);
        self.signals = Ghost(self.signals@ + 1);
    }
}

} // verus!
