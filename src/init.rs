use vstd::prelude::*;

verus! {

/// The process-wide record of whether the platform's component runtime has
/// been set up. It only ever moves from unset to set.
#[derive(Debug)]
pub struct InitGuard {
    pub initialized: bool,
}

impl InitGuard {
    /// A guard on which no setup has happened yet.
    pub fn new() -> (r: InitGuard)
        ensures
            !r.initialized,
    {
        InitGuard { initialized: false }
    }

    /// Marks the setup as done and says whether the caller is the one that
    /// must perform it: true on the first claim, false on every later one.
    pub fn claim(&mut self) -> (first: bool)
        ensures
            first == !old(self).initialized,
            final(self).initialized,
    {
        let first = !self.initialized;
        self.initialized = true;
        first
    }
}

/// How many of `n` successive claims on a guard whose flag is `initialized`
/// return true, that is, how many times the platform setup is performed.
pub open spec fn setups_after(initialized: bool, n: nat) -> nat
    decreases n,
{
    if n == 0 {
        0
    } else {
        (if initialized { 0nat } else { 1nat }) + setups_after(true, (n - 1) as nat)
    }
}

/// However many times the initialization path runs, the platform setup is
/// performed at most once, and never again once the guard is set.
pub proof fn lemma_setup_at_most_once(initialized: bool, n: nat)
    ensures
        setups_after(initialized, n) <= 1,
        initialized ==> setups_after(initialized, n) == 0,
    decreases n,
{
    if n > 0 {
        lemma_setup_at_most_once(true, (n - 1) as nat);
    }
}

} // verus!
