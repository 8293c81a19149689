//! The lock that keeps more than one update task from running at a time.

use vstd::prelude::*;
use std::sync::atomic::AtomicBool;
use std::sync::atomic::Ordering;

verus! {

/// Holds `true` while an update task runs.
pub struct UpdateLock(pub AtomicBool);

/// Proof that the holder runs the only update task; dropping it releases
/// the lock.
pub struct UpdateLockGuard<'a>(&'a AtomicBool);

/// `AtomicBool::compare_exchange(false, true, SeqCst, SeqCst)`. Which outcome
/// comes back depends on other threads; what the standard library documents
/// of every outcome is stated: success reports the expected old value
/// `false`, failure the differing current value `true`.
#[verifier::external_body]
fn claim_flag(flag: &AtomicBool) -> (r: Result<bool, bool>)
    ensures
        r matches Ok(v) ==> !v,
        r matches Err(v) ==> v,
{
    flag.compare_exchange(false, true, Ordering::SeqCst, Ordering::SeqCst)
}

/// `AtomicBool::store(false, SeqCst)`.
#[verifier::external_body]
fn release_flag(flag: &AtomicBool)
    opens_invariants none
    no_unwind
{
    flag.store(false, Ordering::SeqCst);
}

impl<'a> UpdateLockGuard<'a> {
    /// The flag this guard releases.
    pub closed spec fn flag(&self) -> &'a AtomicBool {
        self.0
    }

    /// A guard exactly when the flag was claimed (it read `false` and now
    /// holds `true`).
    pub fn from_claim(claim: Result<bool, bool>, flag: &'a AtomicBool) -> (r: Option<
        UpdateLockGuard<'a>,
    >)
        ensures
            r is Some <==> claim is Ok,
            r matches Some(g) ==> g.flag() == flag,
    {
        match claim {
            Ok(_) => Some(UpdateLockGuard(flag)),
            Err(_) => None,
        }
    }
}

impl UpdateLock {
    /// Claims the lock: a guard when no other update task holds it, `None`
    /// otherwise.
    pub fn acquire(&self) -> (r: Option<UpdateLockGuard<'_>>)
        ensures
            r matches Some(g) ==> g.flag() == &self.0,
    {
        let claim = claim_flag(&self.0);
        UpdateLockGuard::from_claim(claim, &self.0)
    }
}

impl<'a> Drop for UpdateLockGuard<'a> {
    fn drop(&mut self)
        opens_invariants none
        no_unwind
    {
        release_flag(self.0);
    }
}

} // verus!
