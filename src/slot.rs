use embassy_sync::blocking_mutex::raw::NoopRawMutex;
use embassy_sync::signal::Signal;
use vstd::prelude::*;

verus! {

/// A single-slot, overwrite-on-send carrier of one boolean. A value sent while
/// the slot is full replaces the one held; taking empties the slot. It is
/// backed by `embassy_sync`'s `Signal`, which Verus sees only through the
/// contracts below.
#[verifier::external_body]
pub struct SignalSlot {
    inner: Signal<NoopRawMutex, bool>,
}

/// The value that a slot holds and nobody has taken yet.
pub uninterp spec fn pending_of(s: SignalSlot) -> Option<bool>;

/// Relies on `embassy_sync::signal::Signal::new`: a new signal holds no value.
#[verifier::external_body]
fn new_slot() -> (r: SignalSlot)
    ensures
        pending_of(r) == None::<bool>,
{
    SignalSlot { inner: Signal::new() }
}

/// Relies on `Signal::signal`: the signal then holds `v`, whatever it held.
#[verifier::external_body]
fn put_slot(s: &mut SignalSlot, v: bool)
    ensures
        pending_of(*final(s)) == Some(v),
{
    s.inner.signal(v)
}

/// Relies on `Signal::try_take`: it hands out the held value, if any, and
/// leaves the signal empty.
#[verifier::external_body]
fn take_slot(s: &mut SignalSlot) -> (r: Option<bool>)
    ensures
        r == pending_of(*old(s)),
        pending_of(*final(s)) == None::<bool>,
{
    s.inner.try_take()
}

impl View for SignalSlot {
    type V = Option<bool>;

    closed spec fn view(&self) -> Option<bool> {
        pending_of(*self)
    }
}

impl SignalSlot {
    /// An empty slot.
    pub fn new() -> (r: SignalSlot)
        ensures
            r@ == None::<bool>,
    {
        new_slot()
    }

    /// Stores `v`, replacing any value not yet taken.
    pub fn signal(&mut self, v: bool)
        ensures
            final(self)@ == Some(v),
    {
        put_slot(self, v);
    }

    /// Takes the held value, if there is one; the slot is empty afterwards.
    pub fn try_take(&mut self) -> (r: Option<bool>)
        ensures
            r == old(self)@,
            final(self)@ == None::<bool>,
    {
        take_slot(self)
    }
}

} // verus!
