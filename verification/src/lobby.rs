//! Lobby / slot registry: grants at most one session the exclusive right to
//! run the admission pipeline, and releases that right on every exit path.

use vstd::prelude::*;
use crate::errors::ContributeError;

verus! {

/// Token representing "currently contributing": returned by a successful
/// acquisition, at most one session holds it at a time.
#[derive(Clone, Copy, PartialEq, Eq, Structural, Debug)]
pub struct Slot {
    /// The session the slot was granted to.
    pub session: u64,
}

/// The single serialization point of the ceremony: no component mutates the
/// transcript or the ledger unless the caller first holds the slot.
pub struct Lobby {
    holder: Option<u64>,
}

/// Whether `session` may take the slot while `holder` holds it: the slot is
/// free, or the session already holds it.
pub open spec fn may_acquire(holder: Option<u64>, session: u64) -> bool {
    holder is None || holder == Some(session)
}

impl Lobby {
    /// The session currently holding the slot, if any.
    pub closed spec fn holder(self) -> Option<u64> {
        self.holder
    }

    /// A lobby whose slot is free.
    pub fn new() -> (r: Lobby)
        ensures
            r.holder() is None,
    {
        Lobby { holder: None }
    }

    /// The session currently holding the slot, if any.
    pub fn current_holder(&self) -> (r: Option<u64>)
        ensures
            r == self.holder(),
    {
        self.holder
    }

    /// Atomically checks that the slot is free (or already this session's)
    /// and takes it; on conflict fails with `NotUsersTurn` and changes
    /// nothing. This is a compare-and-set, never a wait: a denied
    /// acquisition returns immediately.
    pub fn acquire(&mut self, session: u64) -> (r: Result<Slot, ContributeError>)
        ensures
            may_acquire(old(self).holder(), session) ==> {
                &&& r == Ok::<Slot, ContributeError>(Slot { session })
                &&& final(self).holder() == Some(session)
            },
            !may_acquire(old(self).holder(), session) ==> {
                &&& r == Err::<Slot, ContributeError>(ContributeError::NotUsersTurn)
                &&& *final(self) == *old(self)
            },
    {
        match self.holder {
            None => {
                self.holder = Some(session);
                Ok(Slot { session })
            }
            Some(h) => {
                if h == session {
                    Ok(Slot { session })
                } else {
                    Err(ContributeError::NotUsersTurn)
                }
            }
        }
    }

    /// Unconditionally clears the held slot. Idempotent: releasing a free
    /// slot is a no-op, so every exit path of the pipeline may call it.
    pub fn release(&mut self)
        ensures
            final(self).holder() is None,
    {
        self.holder = None;
    }
}

/// While the slot is held by one session, acquisition by any different
/// session is refused; once the holder has released it, any session may
/// acquire it.
pub proof fn lemma_slot_exclusive(holder: u64, other: u64)
    requires
        holder != other,
    ensures
        !may_acquire(Some(holder), other),
        may_acquire(None, other),
{
}

} // verus!
