use vstd::prelude::*;

verus! {

/// The cooperative shutdown flag: set while the process should keep
/// serving, cleared exactly once when a termination request arrives. Every
/// long-running loop polls it and stops once it is cleared.
pub struct ShutdownFlag {
    running: bool,
}

impl ShutdownFlag {
    /// Whether the flag still permits running.
    pub closed spec fn is_running(self) -> bool {
        self.running
    }

    /// A fresh flag, set: the process starts in the running state.
    pub fn new() -> (f: ShutdownFlag)
        ensures
            f.is_running(),
    {
        ShutdownFlag { running: true }
    }

    /// Observes the flag, without changing it.
    pub fn check(&self) -> (b: bool)
        ensures
            b == self.is_running(),
    {
        self.running
    }

    /// Records a termination request: clears the flag, whatever state it was
    /// in. The only action of the shutdown coordinator; no retries, no
    /// escalation, and no effect beyond this one bit.
    pub fn request_shutdown(&mut self)
        ensures
            !final(self).is_running(),
    {
        self.running = false;
    }
}

/// Shutdown is idempotent: a termination request drives the flag into the
/// one cleared state regardless of where it started, so a second request
/// finds that state already reached and changes nothing.
pub proof fn lemma_shutdown_idempotent(f1: ShutdownFlag, f2: ShutdownFlag)
    requires
        !f1.is_running(),
        !f2.is_running(),
    ensures
        f1 == f2,
{
}

} // verus!
