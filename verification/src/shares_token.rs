//! The shares token's minting rule: the shares minted for an amount of
//! allowance shrink as more shares exist.
use vstd::prelude::*;
use crate::account::AccountId;
use crate::access::{pause, unpause, pause_outcome, unpause_outcome, PauseEvent};
use crate::errors::{PSP22Error, PausingError};

verus! {

pub const SHARES_DECIMALS: u128 = 1_000_000u128;

pub const STABLE_DECIMALS: u128 = 1_000_000u128;

/// The initial supply, in whole shares.
pub const INIT_SUP: u128 = 10_000_000u128;

/// The shares minted for `amount` of allowance when `total_minted` shares
/// have been minted so far.
pub open spec fn shares_for(amount: u128, total_minted: u128) -> int {
    amount * SHARES_DECIMALS / (STABLE_DECIMALS as int) * INIT_SUP / (2 * total_minted)
}

/// The shares token's own storage (balances are the token standard's).
#[derive(Clone, Copy, Debug, PartialEq, Eq)]
pub struct SharesContract {
    pub owner: AccountId,
    pub paused: bool,
    pub total_minted_amount: u128,
}

impl SharesContract {
    /// Whether minting for `amount` stays within `u128` and divides by no zero.
    pub open spec fn mint_defined(self, amount: u128) -> bool {
        &&& amount * SHARES_DECIMALS <= u128::MAX
        &&& amount * SHARES_DECIMALS / (STABLE_DECIMALS as int) * INIT_SUP <= u128::MAX
        &&& 2 * self.total_minted_amount <= u128::MAX
        &&& self.total_minted_amount != 0
        &&& self.total_minted_amount + shares_for(amount, self.total_minted_amount) <= u128::MAX
    }

    /// Whether minting for `amount` leaves `u128` or divides by zero.
    pub fn mint_aborts(&self, amount: u128) -> (r: bool)
        ensures
            r == !self.mint_defined(amount),
    {
        let a = match amount.checked_mul(SHARES_DECIMALS) {
            Some(x) => x / STABLE_DECIMALS,
            None => return true,
        };
        let b = match a.checked_mul(INIT_SUP) {
            Some(x) => x,
            None => return true,
        };
        let d = match self.total_minted_amount.checked_mul(2) {
            Some(x) => x,
            None => return true,
        };
        if self.total_minted_amount == 0 {
            return true;
        }
        self.total_minted_amount.checked_add(b / d).is_none()
    }

    /// A shares token whose owner holds the whole initial supply; returns the
    /// contract and the amount to mint to the owner.
    pub fn new(owner: AccountId) -> (r: (Self, u128))
        ensures
            r.0 == (SharesContract {
                owner,
                paused: false,
                total_minted_amount: (INIT_SUP * SHARES_DECIMALS) as u128,
            }),
            r.1 == INIT_SUP * SHARES_DECIMALS,
    {
        (
            SharesContract { owner, paused: false, total_minted_amount: INIT_SUP * SHARES_DECIMALS },
            INIT_SUP * SHARES_DECIMALS,
        )
    }

    /// Minting for `amount` of allowance, asked by a caller that holds the
    /// minter role exactly when `is_minter`: refused without the role, then
    /// refused while paused (each refusal as the token standard words it),
    /// otherwise returns the shares to mint and counts them as minted.
    pub fn mint(&mut self, is_minter: bool, amount: u128) -> (r: Result<u128, PSP22Error>)
        requires
            is_minter && !old(self).paused ==> old(self).mint_defined(amount),
        ensures
            !is_minter ==> *final(self) == *old(self) && (r matches Err(PSP22Error::Custom(m))
                && m@ == "AC::MissingRole"@),
            is_minter && old(self).paused ==> *final(self) == *old(self) && (r matches Err(
                PSP22Error::Custom(m),
            ) && m@ == "P::Paused"@),
            is_minter && !old(self).paused ==> ({
                let n = shares_for(amount, old(self).total_minted_amount);
                &&& r == Ok::<u128, PSP22Error>(n as u128)
                &&& *final(self) == (SharesContract {
                    total_minted_amount: (old(self).total_minted_amount + n) as u128,
                    ..*old(self)
                })
            }),
    {
        if !is_minter {
            return Err(PSP22Error::Custom(String::from_str("AC::MissingRole")));
        }
        if self.paused {
            return Err(PSP22Error::Custom(String::from_str("P::Paused")));
        }
        let amount_to_mint = amount * SHARES_DECIMALS / STABLE_DECIMALS * INIT_SUP / (2
            * self.total_minted_amount);
        self.total_minted_amount = self.total_minted_amount + amount_to_mint;
        Ok(amount_to_mint)
    }

    /// Concludes a mint on the token's answer to minting the shares: its
    /// refusal is returned and the count of minted shares goes back to what
    /// it was `before` the mint; otherwise the mint stands.
    pub fn conclude_mint(&mut self, before: SharesContract, minted: Result<(), PSP22Error>) -> (r:
        Result<(), PSP22Error>)
        ensures
            match minted {
                Ok(()) => *final(self) == *old(self) && r == Ok::<(), PSP22Error>(()),
                Err(e) => *final(self) == before && r == Err::<(), PSP22Error>(e),
            },
    {
        match minted {
            Ok(()) => Ok(()),
            Err(e) => {
                *self = before;
                Err(e)
            },
        }
    }

    /// Pauses minting; the owner only. Returns the event to record.
    pub fn pause(&mut self, caller: &AccountId) -> (r: Result<PauseEvent, PausingError>)
        ensures
            r == pause_outcome(*caller, old(self).owner, old(self).paused),
            *final(self) == (SharesContract {
                paused: if r is Ok {
                    true
                } else {
                    old(self).paused
                },
                ..*old(self)
            }),
    {
        let owner = self.owner;
        pause(caller, &owner, &mut self.paused)
    }

    /// Resumes minting; the owner only. Returns the event to record.
    pub fn unpause(&mut self, caller: &AccountId) -> (r: Result<PauseEvent, PausingError>)
        ensures
            r == unpause_outcome(*caller, old(self).owner, old(self).paused),
            *final(self) == (SharesContract {
                paused: if r is Ok {
                    false
                } else {
                    old(self).paused
                },
                ..*old(self)
            }),
    {
        let owner = self.owner;
        unpause(caller, &owner, &mut self.paused)
    }
}


/// The more shares have been minted, the fewer a given amount of allowance
/// mints.
pub proof fn lemma_shares_shrink_with_supply(amount: u128, t1: u128, t2: u128)
    requires
        0 < t1 <= t2,
    ensures
        shares_for(amount, t2) <= shares_for(amount, t1),
{
    let x = amount * SHARES_DECIMALS / (STABLE_DECIMALS as int) * INIT_SUP;
    assert(x >= 0);
    assert(x / (2 * t2) <= x / (2 * t1)) by (nonlinear_arith)
        requires
            x >= 0,
            0 < t1 <= t2,
    ;
}

/// While at least the initial supply has been minted, an amount of allowance
/// mints at most one two-millionth of itself.
pub proof fn lemma_shares_bounded(amount: u128, total: u128)
    requires
        total >= INIT_SUP * SHARES_DECIMALS,
    ensures
        shares_for(amount, total) <= amount / 2_000_000,
{
    let a = amount as int;
    let t = total as int;
    assert(a * 1000000 / 1000000 == a) by (nonlinear_arith);
    assert(a * 10000000 / (2 * t) <= a * 10000000 / 20000000000000) by (nonlinear_arith)
        requires
            a >= 0,
            t >= 10000000000000,
    ;
    assert(a * 10000000 / 20000000000000 == a / 2000000) by (nonlinear_arith)
        requires
            a >= 0,
    ;
}

/// Minting for an amount of allowance gives the amount times ten million
/// over twice the shares minted so far, rounded down.
pub proof fn lemma_shares_formula(amount: u128, total: u128)
    requires
        total > 0,
    ensures
        shares_for(amount, total) == amount * 10_000_000 / (2 * total as int),
{
    let a = amount as int;
    assert(a * 1000000 / 1000000 == a) by (nonlinear_arith);
}

} // verus!
