//! The wake-up signals of `tokio`.
use std::sync::Arc;
use tokio::sync::Notify;
use vstd::prelude::*;

verus! {

/// `tokio::sync::Notify`, carried as an opaque value.
#[verifier::external_type_specification]
#[verifier::external_body]
pub struct ExNotify(Notify);

/// `Notify::new`: a signal that nobody waits on.
#[verifier::external_body]
pub(crate) fn new_notify() -> (r: Notify) {
    Notify::new()
}

/// The evidence that a signal was given. Nothing but the call that gives a
/// signal makes one.
pub struct Wake {
    notify: Arc<Notify>,
}

impl Wake {
    /// The signal that was given.
    pub closed spec fn signal(&self) -> Notify {
        *self.notify
    }

    /// The signal that was given.
    pub fn notify(&self) -> (r: Arc<Notify>)
        ensures
            *r == self.signal(),
    {
        Arc::clone(&self.notify)
    }
}

/// `Notify::notify_waiters`: gives the signal to the tasks that wait on it. The
/// evidence is for this very signal.
///
/// Who waits is known to the runtime alone, so nothing is claimed of the effect
/// on the tasks.
#[verifier::external_body]
pub(crate) fn wake_waiters(notify: Arc<Notify>) -> (r: Wake)
    ensures
        r.signal() == *notify,
{
    notify.notify_waiters();
    Wake { notify }
}

} // verus!
