//! Process-local bookkeeping for global shortcut registrations.
//!
//! The registry guarantees at most one binding per key combo per process: a
//! duplicate registration is rejected rather than silently overwritten. The
//! OS-level hook attempt itself happens outside the library; its outcome is
//! handed in, and the registry records a combo only when the hook was
//! accepted.

use vstd::prelude::*;

verus! {

/// Why a registration attempt failed.
#[derive(Clone, Copy, PartialEq, Eq, Structural, Debug)]
pub enum RegistrationError {
    /// The combo is already bound, by this registry or as an OS-reported
    /// conflict.
    AlreadyBound,
    /// The OS denied the hook (for example, a missing permission).
    PlatformRejected,
}

/// What the OS said to a hook attempt for a combo this registry has not
/// bound yet.
#[derive(Clone, Copy, PartialEq, Eq, Structural, Debug)]
pub enum OsHookOutcome {
    /// The hook is in place.
    Accepted,
    /// Another process-visible registration already holds the combo.
    Conflict,
    /// The OS denied the hook (for example, a missing permission).
    Denied,
}

/// The outcome a registration attempt must have, given whether the combo was
/// already bound here and what the OS said to the hook attempt.
pub open spec fn register_outcome(
    already_bound: bool,
    os: OsHookOutcome,
) -> Result<(), RegistrationError> {
    if already_bound {
        Err(RegistrationError::AlreadyBound)
    } else {
        match os {
            OsHookOutcome::Accepted => Ok(()),
            OsHookOutcome::Conflict => Err(RegistrationError::AlreadyBound),
            OsHookOutcome::Denied => Err(RegistrationError::PlatformRejected),
        }
    }
}

/// The set of combos bound in a registry.
pub struct ShortcutRegistry {
    combos: Vec<String>,
}

impl ShortcutRegistry {
    /// The combos currently bound, as a set of character sequences.
    pub open spec fn bound_set(self) -> Set<Seq<char>> {
        Set::new(|c: Seq<char>| self.spec_is_bound(c))
    }

    /// Whether `combo` is currently bound.
    pub closed spec fn spec_is_bound(self, combo: Seq<char>) -> bool {
        exists|i: int| 0 <= i < self.combos@.len() && self.combos@[i]@ == combo
    }

    /// Well-formed: no combo occurs twice.
    pub closed spec fn wf(self) -> bool {
        forall|i: int, j: int|
            0 <= i < j < self.combos@.len() ==> self.combos@[i]@ != self.combos@[j]@
    }

    /// A registry with no bindings.
    pub fn new() -> (r: Self)
        ensures
            r.wf(),
            r.bound_set() == Set::<Seq<char>>::empty(),
    {
        let r = ShortcutRegistry { combos: Vec::new() };
        proof {
            assert(r.bound_set() =~= Set::<Seq<char>>::empty());
        }
        r
    }

    /// Whether `combo` is already bound.
    pub fn is_bound(&self, combo: &String) -> (r: bool)
        ensures
            r == self.spec_is_bound(combo@),
    {
        let mut i: usize = 0;
        while i < self.combos.len()
            invariant
                i <= self.combos@.len(),
                forall|j: int| 0 <= j < i ==> self.combos@[j]@ != combo@,
            decreases self.combos@.len() - i,
        {
            if self.combos[i] == *combo {
                return true;
            }
            i += 1;
        }
        false
    }

    /// Records a binding of `combo`. `os` is the outcome of the OS-level
    /// hook attempt, performed by the caller for a combo not yet bound. A
    /// combo already bound here is rejected without consulting the OS, and a
    /// conflicting or denied hook leaves the registry unchanged.
    pub fn register(&mut self, combo: String, os: OsHookOutcome) -> (r: Result<
        (),
        RegistrationError,
    >)
        requires
            old(self).wf(),
        ensures
            final(self).wf(),
            r == register_outcome(old(self).spec_is_bound(combo@), os),
            r matches Ok(_) ==> final(self).bound_set() == old(self).bound_set().insert(combo@),
            r matches Err(_) ==> *final(self) == *old(self),
    {
        if self.is_bound(&combo) {
            return Err(RegistrationError::AlreadyBound);
        }
        match os {
            OsHookOutcome::Conflict => {
                return Err(RegistrationError::AlreadyBound);
            },
            OsHookOutcome::Denied => {
                return Err(RegistrationError::PlatformRejected);
            },
            OsHookOutcome::Accepted => {},
        }
        let ghost pre = *self;
        self.combos.push(combo);
        proof {
            assert forall|c: Seq<char>| self.spec_is_bound(c) implies pre.bound_set().insert(
                combo@,
            ).contains(c) by {
                let i = choose|i: int|
                    0 <= i < self.combos@.len() && self.combos@[i]@ == c;
                if i < pre.combos@.len() {
                    assert(pre.spec_is_bound(c));
                }
            }
            assert forall|c: Seq<char>| pre.bound_set().insert(combo@).contains(c) implies self
                .spec_is_bound(c) by {
                if pre.spec_is_bound(c) {
                    let i = choose|i: int|
                        0 <= i < pre.combos@.len() && pre.combos@[i]@ == c;
                    assert(self.combos@[i]@ == c);
                } else {
                    assert(self.combos@[self.combos@.len() - 1]@ == combo@);
                }
            }
            assert(self.bound_set() =~= pre.bound_set().insert(combo@));
        }
        Ok(())
    }
}

/// Registering a combo that is free everywhere succeeds, and immediately
/// registering the same combo again is rejected as already bound, whatever
/// the OS would say the second time.
pub proof fn lemma_second_registration_rejected(
    bound: Set<Seq<char>>,
    combo: Seq<char>,
    os: OsHookOutcome,
)
    requires
        !bound.contains(combo),
    ensures
        register_outcome(bound.contains(combo), OsHookOutcome::Accepted) == Ok::<
            (),
            RegistrationError,
        >(()),
        register_outcome(bound.insert(combo).contains(combo), os) == Err::<
            (),
            RegistrationError,
        >(RegistrationError::AlreadyBound),
{
}

} // verus!
