//! The guard that admits one streaming session at a time.

use crate::error::Error;
use vstd::prelude::*;

verus! {

/// The permit of a guard, in the hands of whoever claimed it. A permit comes
/// only from a claim that was granted, cannot be copied, and is used up when
/// it is returned: nothing is returned twice, and nothing is returned by
/// those who hold no permit.
#[derive(Debug)]
pub struct Permit {
    token: (),
}

/// The guard of a single permit. The service allows one streaming session
/// per user, so a session claims the permit before it negotiates and returns
/// it when it ends.
///
/// The guard is a plain value. Whoever holds `&mut SessionManager` is the
/// only one who can claim or return the permit at that moment, so every call
/// is one indivisible step and never waits. A guard that several tasks share
/// is kept behind a lock by its owner; the calls of those tasks then reach
/// the guard one after another, in some order, which is what the laws
/// below speak of.
#[derive(Debug)]
pub struct SessionManager {
    session_exists: bool,
}

impl SessionManager {
    /// Whether the permit is out.
    pub closed spec fn is_active(&self) -> bool {
        self.session_exists
    }

    /// The guard after a claim, granted or not.
    pub closed spec fn after_acquire(self) -> SessionManager {
        SessionManager { session_exists: true }
    }

    /// The guard after the permit came back.
    pub closed spec fn after_release(self) -> SessionManager {
        SessionManager { session_exists: false }
    }

    /// Whether a claim made now is granted.
    pub open spec fn grants(self) -> bool {
        !self.is_active()
    }

    /// How many of `attempts` claims in a row are granted, with no release
    /// between them.
    pub open spec fn granted_among(self, attempts: nat) -> nat
        decreases attempts,
    {
        if attempts == 0 {
            0
        } else {
            (if self.grants() {
                1nat
            } else {
                0nat
            }) + self.after_acquire().granted_among((attempts - 1) as nat)
        }
    }

    /// The guard after `attempts` claims in a row.
    pub open spec fn after_attempts(self, attempts: nat) -> SessionManager
        decreases attempts,
    {
        if attempts == 0 {
            self
        } else {
            self.after_acquire().after_attempts((attempts - 1) as nat)
        }
    }

    /// The guard after `rounds` sessions, each of which claims the permit and
    /// returns it before the next begins.
    pub open spec fn after_rounds(self, rounds: nat) -> SessionManager
        decreases rounds,
    {
        if rounds == 0 {
            self
        } else {
            self.after_acquire().after_release().after_rounds((rounds - 1) as nat)
        }
    }

    /// Whether each of `rounds` sessions in a row is granted the permit.
    pub open spec fn all_rounds_granted(self, rounds: nat) -> bool
        decreases rounds,
    {
        rounds == 0 || (self.grants() && self.after_acquire().after_release().all_rounds_granted(
            (rounds - 1) as nat,
        ))
    }

    /// A guard whose permit is in.
    pub fn new() -> (manager: Self)
        ensures
            !manager.is_active(),
    {
        SessionManager { session_exists: false }
    }

    /// Claims the permit. The claim is granted exactly when the permit is in;
    /// otherwise it fails at once with `SessionAlreadyExists`. Either way the
    /// permit is out afterwards.
    pub fn acquire_session(&mut self) -> (result: Result<Permit, Error>)
        ensures
            *final(self) == old(self).after_acquire(),
            final(self).is_active(),
            old(self).grants() <==> result is Ok,
            result is Err ==> result->Err_0 == Error::SessionAlreadyExists,
    {
        if self.session_exists {
            Err(Error::SessionAlreadyExists)
        } else {
            self.session_exists = true;
            Ok(Permit { token: () })
        }
    }

    /// Takes the permit back. The permit is meant for the guard that it came
    /// from; on a guard whose permit is in, nothing changes.
    pub fn release_session(&mut self, permit: Permit)
        ensures
            *final(self) == old(self).after_release(),
            !final(self).is_active(),
    {
        let Permit { token: _ } = permit;
        self.session_exists = false;
    }

    /// Whether the permit is out right now.
    pub fn session_exists(&self) -> (active: bool)
        ensures
            active == self.is_active(),
    {
        self.session_exists
    }
}

impl Default for SessionManager {
    fn default() -> (manager: Self)
        ensures
            !manager.is_active(),
    {
        SessionManager::new()
    }
}

/// A claim leaves the permit out and a release brings it in, whatever the
/// guard was before. A claim on a held guard and a release of a free guard
/// change nothing.
pub proof fn lemma_guard_steps(guard: SessionManager)
    ensures
        guard.after_acquire().is_active(),
        !guard.after_release().is_active(),
        guard.is_active() ==> guard.after_acquire() == guard,
        !guard.is_active() ==> guard.after_release() == guard,
{
}

/// A guard is nothing but its permit: two guards whose permits are in the
/// same place are equal.
pub proof fn lemma_guard_is_its_permit(guard: SessionManager, other: SessionManager)
    ensures
        guard.is_active() == other.is_active() ==> guard == other,
{
}

/// Mutual exclusion. Of any number of claims that reach a guard with no
/// release between them, exactly one is granted when the permit was in, and
/// none when it was out; the guard is held afterwards. Once the permit is
/// returned, the next claim is granted.
pub proof fn lemma_mutual_exclusion(guard: SessionManager, attempts: nat)
    ensures
        attempts > 0 && !guard.is_active() ==> guard.granted_among(attempts) == 1,
        guard.is_active() ==> guard.granted_among(attempts) == 0,
        attempts > 0 ==> guard.after_attempts(attempts).is_active(),
        guard.after_attempts(attempts).after_release().grants(),
    decreases attempts,
{
    lemma_guard_steps(guard);
    lemma_guard_steps(guard.after_attempts(attempts));
    if attempts > 0 {
        lemma_mutual_exclusion(guard.after_acquire(), (attempts - 1) as nat);
        if attempts == 1 {
            assert(guard.after_acquire().after_attempts(0) == guard.after_acquire());
        }
    }
}

/// Release happens once per session and never leaves the guard locked: when
/// sessions follow one another on a free guard, each claiming the permit and
/// returning it, every one of them is granted the permit and the guard is free
/// after the last, however many there are.
pub proof fn lemma_sequential_sessions(guard: SessionManager, rounds: nat)
    requires
        !guard.is_active(),
    ensures
        guard.all_rounds_granted(rounds),
        !guard.after_rounds(rounds).is_active(),
    decreases rounds,
{
    if rounds > 0 {
        let next = guard.after_acquire().after_release();
        lemma_guard_steps(guard.after_acquire());
        lemma_guard_is_its_permit(next, guard);
        lemma_sequential_sessions(next, (rounds - 1) as nat);
    }
}

} // verus!
