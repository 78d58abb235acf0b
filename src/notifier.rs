use vstd::prelude::*;

use crate::schedule::ScreenState;
use embassy_sync::blocking_mutex::raw::NoopRawMutex;
use embassy_sync::signal::Signal;

verus! {

/// Single-slot, latest-value relay of display states from the control loop
/// to the rendering task: a new value replaces one not yet taken.
///
/// Backed by embassy_sync's `Signal`, whose methods change it through a
/// shared reference; the relay takes `&mut self` so that contracts can say
/// what each call does to the slot.
#[verifier::external_body]
pub struct DisplayNotifier {
    inner: Signal<NoopRawMutex, ScreenState>,
}

/// The value waiting in the relay's slot, if any.
pub uninterp spec fn relay_slot(n: DisplayNotifier) -> Option<ScreenState>;

/// The slot after publishing `s` over `slot`.
pub open spec fn slot_after_publish(slot: Option<ScreenState>, s: ScreenState) -> Option<ScreenState> {
    Some(s)
}

/// The slot after a read of `slot`.
pub open spec fn slot_after_take(slot: Option<ScreenState>) -> Option<ScreenState> {
    None
}

/// Relies on embassy_sync::signal::Signal::new: a signal with no value.
#[verifier::external_body]
fn empty_signal() -> (r: DisplayNotifier)
    ensures
        relay_slot(r) is None,
{
    DisplayNotifier { inner: Signal::new() }
}

/// Relies on embassy_sync::signal::Signal::signal: the value replaces
/// whatever the slot held.
#[verifier::external_body]
fn signal_value(n: &mut DisplayNotifier, s: ScreenState)
    ensures
        relay_slot(*final(n)) == Some(s),
{
    n.inner.signal(s)
}

/// Relies on embassy_sync::signal::Signal::try_take: hands out the waiting
/// value, if any, and leaves the slot empty.
#[verifier::external_body]
fn take_value(n: &mut DisplayNotifier) -> (r: Option<ScreenState>)
    ensures
        r == relay_slot(*old(n)),
        relay_slot(*final(n)) is None,
{
    n.inner.try_take()
}

impl DisplayNotifier {
    /// An empty relay.
    pub fn new() -> (r: DisplayNotifier)
        ensures
            relay_slot(r) is None,
    {
        empty_signal()
    }

    /// Publishes `s`, discarding any value not yet taken.
    pub fn publish(&mut self, s: ScreenState)
        ensures
            relay_slot(*final(self)) == slot_after_publish(relay_slot(*old(self)), s),
    {
        signal_value(self, s)
    }

    /// Takes the latest published value, if one is waiting.
    pub fn try_take(&mut self) -> (r: Option<ScreenState>)
        ensures
            r == relay_slot(*old(self)),
            relay_slot(*final(self)) == slot_after_take(relay_slot(*old(self))),
    {
        take_value(self)
    }
}

/// Publishing `a` and then `b` before any read delivers `b` alone: the first
/// read yields `b`, never a distinct `a`, and a second read finds nothing.
pub proof fn lemma_overwrite(slot: Option<ScreenState>, a: ScreenState, b: ScreenState)
    ensures
        slot_after_publish(slot_after_publish(slot, a), b) == Some(b),
        a != b ==> slot_after_publish(slot_after_publish(slot, a), b) != Some(a),
        slot_after_take(slot_after_publish(slot_after_publish(slot, a), b)) is None,
{
}

} // verus!
