//! The ownership and pause checks that guard the contracts' messages.
use vstd::prelude::*;
use crate::account::AccountId;
use crate::errors::{OwnableError, PausableError, PausingError};

verus! {

/// Passes when `caller` is the owner.
pub fn only_owner(caller: &AccountId, owner: &AccountId) -> (r: Result<(), OwnableError>)
    ensures
        r == (if *caller == *owner {
            Ok(())
        } else {
            Err(OwnableError::CallerIsNotOwner)
        }),
{
    if caller.equals(owner) {
        Ok(())
    } else {
        Err(OwnableError::CallerIsNotOwner)
    }
}

/// Passes when the contract is not paused.
pub fn when_not_paused(paused: bool) -> (r: Result<(), PausableError>)
    ensures
        r == (if paused {
            Err(PausableError::Paused)
        } else {
            Ok(())
        }),
{
    if paused {
        Err(PausableError::Paused)
    } else {
        Ok(())
    }
}

/// Passes when the contract is paused.
pub fn when_paused(paused: bool) -> (r: Result<(), PausableError>)
    ensures
        r == (if paused {
            Ok(())
        } else {
            Err(PausableError::NotPaused)
        }),
{
    if paused {
        Ok(())
    } else {
        Err(PausableError::NotPaused)
    }
}

/// The event that pausing or resuming records, naming the caller.
#[derive(Clone, Copy, Debug, PartialEq, Eq)]
pub enum PauseEvent {
    Paused { by: AccountId },
    Unpaused { by: AccountId },
}

/// What `pause` answers the caller: the owner may pause a running contract,
/// which records a `Paused` event naming the caller.
pub open spec fn pause_outcome(caller: AccountId, owner: AccountId, paused: bool) -> Result<
    PauseEvent,
    PausingError,
> {
    if caller != owner {
        Err(PausingError::OwnableError(OwnableError::CallerIsNotOwner))
    } else if paused {
        Err(PausingError::PausableError(PausableError::Paused))
    } else {
        Ok(PauseEvent::Paused { by: caller })
    }
}

/// What `unpause` answers the caller: the owner may resume a paused
/// contract, which records an `Unpaused` event naming the caller.
pub open spec fn unpause_outcome(caller: AccountId, owner: AccountId, paused: bool) -> Result<
    PauseEvent,
    PausingError,
> {
    if caller != owner {
        Err(PausingError::OwnableError(OwnableError::CallerIsNotOwner))
    } else if !paused {
        Err(PausingError::PausableError(PausableError::NotPaused))
    } else {
        Ok(PauseEvent::Unpaused { by: caller })
    }
}

/// Pauses the contract: the owner only, and only while it runs. On success
/// it returns the `Paused` event to record, naming the caller.
pub fn pause(caller: &AccountId, owner: &AccountId, paused: &mut bool) -> (r: Result<
    PauseEvent,
    PausingError,
>)
    ensures
        r == pause_outcome(*caller, *owner, *old(paused)),
        *final(paused) == (if r is Ok {
            true
        } else {
            *old(paused)
        }),
{
    match only_owner(caller, owner) {
        Err(e) => return Err(PausingError::OwnableError(e)),
        Ok(()) => {},
    }
    match when_not_paused(*paused) {
        Err(e) => return Err(PausingError::PausableError(e)),
        Ok(()) => {},
    }
    *paused = true;
    Ok(PauseEvent::Paused { by: *caller })
}

/// Resumes the contract: the owner only, and only while it is paused. On
/// success it returns the `Unpaused` event to record, naming the caller.
pub fn unpause(caller: &AccountId, owner: &AccountId, paused: &mut bool) -> (r: Result<
    PauseEvent,
    PausingError,
>)
    ensures
        r == unpause_outcome(*caller, *owner, *old(paused)),
        *final(paused) == (if r is Ok {
            false
        } else {
            *old(paused)
        }),
{
    match only_owner(caller, owner) {
        Err(e) => return Err(PausingError::OwnableError(e)),
        Ok(()) => {},
    }
    match when_paused(*paused) {
        Err(e) => return Err(PausingError::PausableError(e)),
        Ok(()) => {},
    }
    *paused = false;
    Ok(PauseEvent::Unpaused { by: *caller })
}


/// Only the owner may pause a running contract, and the owner may then
/// resume it: a pause followed by a resume brings it back to running, and
/// records a `Paused` and then an `Unpaused` event, both naming the owner.
pub proof fn lemma_pause_then_unpause(caller: AccountId, owner: AccountId)
    ensures
        (pause_outcome(caller, owner, false) is Ok) == (caller == owner),
        caller == owner ==> unpause_outcome(caller, owner, true) is Ok,
        caller == owner ==> pause_outcome(caller, owner, false) == Ok::<
            PauseEvent,
            PausingError,
        >(PauseEvent::Paused { by: owner }) && unpause_outcome(caller, owner, true) == Ok::<
            PauseEvent,
            PausingError,
        >(PauseEvent::Unpaused { by: owner }),
        pause_outcome(caller, owner, true) is Err,
        unpause_outcome(caller, owner, false) is Err,
{
}

} // verus!
