//! The command hand-off: a single slot in which the newest tightening
//! command replaces whatever has not been read yet.

use embassy_sync::blocking_mutex::raw::NoopRawMutex;
use embassy_sync::signal::Signal;
use vstd::prelude::*;

verus! {

/// Holder of the `Signal` of embassy-sync that carries the command. Verus
/// sees nothing inside it; what it holds is named by [`slot_pending`].
///
/// The channel has one owner at a time and is only reached through `&mut`,
/// so the signal is built over the mutex that does no locking.
#[verifier::external_body]
pub struct Slot {
    signal: Signal<NoopRawMutex, i8>,
}

/// The value that waits in the signal, if one does.
pub uninterp spec fn slot_pending(slot: Slot) -> Option<i8>;

/// `Signal::new` of embassy-sync: the signal it makes holds no value.
#[verifier::external_body]
fn slot_new() -> (slot: Slot)
    ensures
        slot_pending(slot) is None,
{
    Slot { signal: Signal::new() }
}

/// `Signal::signal` of embassy-sync: afterwards the signal holds `value`,
/// whether or not it held one before.
#[verifier::external_body]
fn slot_signal(slot: &mut Slot, value: i8)
    ensures
        slot_pending(*final(slot)) == Some(value),
{
    slot.signal.signal(value)
}

/// `Signal::try_take` of embassy-sync: hands out the value that the signal
/// held, if any, and leaves the signal without one.
#[verifier::external_body]
fn slot_try_take(slot: &mut Slot) -> (taken: Option<i8>)
    ensures
        taken == slot_pending(*old(slot)),
        slot_pending(*final(slot)) is None,
{
    slot.signal.try_take()
}

/// What the slot holds after `value` has been signalled into it.
pub open spec fn spec_signal(pending: Option<i8>, value: i8) -> Option<i8> {
    Some(value)
}

/// What the slot holds after an optional command has been delivered to it.
pub open spec fn spec_deliver(pending: Option<i8>, forward: Option<i8>) -> Option<i8> {
    match forward {
        Some(value) => spec_signal(pending, value),
        None => pending,
    }
}

/// Single-slot mailbox from the dispatcher to the control loop.
pub struct CommandChannel {
    slot: Slot,
}

impl View for CommandChannel {
    type V = Option<i8>;

    /// The command that waits to be read, if one does.
    closed spec fn view(&self) -> Option<i8> {
        slot_pending(self.slot)
    }
}

impl CommandChannel {
    /// An empty channel.
    pub fn new() -> (channel: CommandChannel)
        ensures
            channel@ is None,
    {
        CommandChannel { slot: slot_new() }
    }

    /// Stores `value`, replacing a pending command that was not read.
    pub fn signal(&mut self, value: i8)
        ensures
            final(self)@ == spec_signal(old(self)@, value),
    {
        slot_signal(&mut self.slot, value);
    }

    /// Takes the pending command out of the channel, if there is one.
    pub fn try_take(&mut self) -> (taken: Option<i8>)
        ensures
            taken == old(self)@,
            final(self)@ is None,
    {
        slot_try_take(&mut self.slot)
    }
}

} // verus!
