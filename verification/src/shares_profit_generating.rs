//! Profit bookkeeping of a profit generator (the vault): the profit it has
//! made for the shares-profit controller, and how many shares each account
//! may still mint.
use vstd::prelude::*;
use crate::account::{AccountId, AccountTable};
use crate::arith::{E6, wrap_i128, u128_bits_as_i128};
use crate::access::only_owner;
use crate::errors::{PSP22Error, SPGeneratingError};

verus! {

/// The storage of a profit generator.
#[derive(Clone, Debug)]
pub struct SPGeneratingData {
    pub shares_token_address: AccountId,
    pub generated_profit: i128,
    pub shares_minting_allowance: AccountTable<u128>,
    pub shares_profit_controller_address: AccountId,
    /// One unit of profit gives `sharing_part_e6 / 10^6` units of allowance.
    pub sharing_part_e6: u128,
}

/// The abstract state of a profit generator.
pub struct SPGeneratingModel {
    pub shares_token_address: AccountId,
    pub generated_profit: int,
    pub shares_minting_allowance: Map<AccountId, u128>,
    pub shares_profit_controller_address: AccountId,
    pub sharing_part_e6: u128,
}

impl View for SPGeneratingData {
    type V = SPGeneratingModel;

    open spec fn view(&self) -> SPGeneratingModel {
        SPGeneratingModel {
            shares_token_address: self.shares_token_address,
            generated_profit: self.generated_profit as int,
            shares_minting_allowance: self.shares_minting_allowance.view(),
            shares_profit_controller_address: self.shares_profit_controller_address,
            sharing_part_e6: self.sharing_part_e6,
        }
    }
}

impl SPGeneratingModel {
    /// The shares that `account` may still mint (none when never set).
    pub open spec fn allowance(self, account: AccountId) -> u128 {
        if self.shares_minting_allowance.contains_key(account) {
            self.shares_minting_allowance[account]
        } else {
            0
        }
    }

    /// Handing the profit to the shares-profit controller: only the
    /// controller may ask; the profit is reset to zero.
    pub open spec fn give_profit(self, caller: AccountId) -> Result<
        (SPGeneratingModel, i128),
        SPGeneratingError,
    > {
        if caller != self.shares_profit_controller_address {
            Err(SPGeneratingError::Controller)
        } else {
            Ok((SPGeneratingModel { generated_profit: 0, ..self }, self.generated_profit as i128))
        }
    }

    /// Whether adding `amount` of profit stays within the `i128` range.
    pub open spec fn add_profit_defined(self, amount: u128) -> bool {
        i128::MIN <= self.generated_profit + wrap_i128(amount) <= i128::MAX
    }

    pub open spec fn with_profit_added(self, amount: u128) -> SPGeneratingModel {
        SPGeneratingModel { generated_profit: self.generated_profit + wrap_i128(amount), ..self }
    }

    /// Whether removing `amount` of profit stays within the `i128` range.
    pub open spec fn sub_profit_defined(self, amount: u128) -> bool {
        i128::MIN <= self.generated_profit - wrap_i128(amount) <= i128::MAX
    }

    pub open spec fn with_profit_subtracted(self, amount: u128) -> SPGeneratingModel {
        SPGeneratingModel { generated_profit: self.generated_profit - wrap_i128(amount), ..self }
    }

    pub open spec fn increase_allowance_defined(self, account: AccountId, amount: u128) -> bool {
        self.allowance(account) + amount <= u128::MAX
    }

    pub open spec fn with_allowance_increased(
        self,
        account: AccountId,
        amount: u128,
    ) -> SPGeneratingModel {
        SPGeneratingModel {
            shares_minting_allowance: self.shares_minting_allowance.insert(
                account,
                (self.allowance(account) + amount) as u128,
            ),
            ..self
        }
    }

    /// The allowance that `amount` of profit earns.
    pub open spec fn allowance_earned(self, amount: u128) -> int {
        amount * self.sharing_part_e6 / (E6 as int)
    }

    pub open spec fn add_profit_and_allowance_defined(self, amount: u128, account: AccountId) -> bool {
        &&& self.add_profit_defined(amount)
        &&& amount * self.sharing_part_e6 <= u128::MAX
        &&& self.allowance(account) + self.allowance_earned(amount) <= u128::MAX
    }

    pub open spec fn with_profit_and_allowance(
        self,
        amount: u128,
        account: AccountId,
    ) -> SPGeneratingModel {
        self.with_profit_added(amount).with_allowance_increased(
            account,
            self.allowance_earned(amount) as u128,
        )
    }
}

impl SPGeneratingData {
    /// The storage of a fresh generator: every field zero.
    pub fn new() -> (r: Self)
        ensures
            r@.shares_token_address == AccountId::spec_zero(),
            r@.generated_profit == 0,
            r@.shares_minting_allowance == Map::<AccountId, u128>::empty(),
            r@.shares_profit_controller_address == AccountId::spec_zero(),
            r@.sharing_part_e6 == 0,
    {
        SPGeneratingData {
            shares_token_address: AccountId::zero(),
            generated_profit: 0,
            shares_minting_allowance: AccountTable::new(),
            shares_profit_controller_address: AccountId::zero(),
            sharing_part_e6: 0,
        }
    }

    /// Sets the sharing part; only the shares-profit controller may.
    pub fn set_sharing_part_e6(&mut self, caller: &AccountId, new_sharing_part_e6: u128) -> (r:
        Result<(), SPGeneratingError>)
        ensures
            *caller != old(self).shares_profit_controller_address ==> r == Err::<
                (),
                SPGeneratingError,
            >(SPGeneratingError::Controller) && *final(self) == *old(self),
            *caller == old(self).shares_profit_controller_address ==> r is Ok && final(self)@
                == (SPGeneratingModel { sharing_part_e6: new_sharing_part_e6, ..old(self)@ }),
    {
        if !caller.equals(&self.shares_profit_controller_address) {
            return Err(SPGeneratingError::Controller);
        }
        self.sharing_part_e6 = new_sharing_part_e6;
        Ok(())
    }

    /// Hands the generated profit to the shares-profit controller and resets
    /// it to zero; only the controller may.
    pub fn give_profit(&mut self, caller: &AccountId) -> (r: Result<i128, SPGeneratingError>)
        ensures
            match old(self)@.give_profit(*caller) {
                Ok((m, p)) => final(self)@ == m && r == Ok::<i128, SPGeneratingError>(p),
                Err(e) => r == Err::<i128, SPGeneratingError>(e) && *final(self) == *old(self),
            },
    {
        if !caller.equals(&self.shares_profit_controller_address) {
            return Err(SPGeneratingError::Controller);
        }
        let income = self.generated_profit;
        self.generated_profit = 0;
        Ok(income)
    }

    /// Sets the shares-profit controller; only the owner may.
    pub fn set_shares_profit_controller_address(
        &mut self,
        caller: &AccountId,
        owner: &AccountId,
        new_profit_controller: AccountId,
    ) -> (r: Result<(), SPGeneratingError>)
        ensures
            *caller != *owner ==> r == Err::<(), SPGeneratingError>(
                SPGeneratingError::OwnableError(crate::errors::OwnableError::CallerIsNotOwner),
            ) && *final(self) == *old(self),
            *caller == *owner ==> r is Ok && final(self)@ == (SPGeneratingModel {
                shares_profit_controller_address: new_profit_controller,
                ..old(self)@
            }),
    {
        match only_owner(caller, owner) {
            Err(e) => return Err(SPGeneratingError::OwnableError(e)),
            Ok(()) => {},
        }
        self.shares_profit_controller_address = new_profit_controller;
        Ok(())
    }

    /// The caller mints all the shares it may: its allowance drops to zero and
    /// the amount returned is what the shares token is asked to mint to it.
    pub fn mint_shares(&mut self, caller: &AccountId) -> (amount: u128)
        ensures
            amount == old(self)@.allowance(*caller),
            final(self)@ == (SPGeneratingModel {
                shares_minting_allowance: old(self)@.shares_minting_allowance.insert(*caller, 0),
                ..old(self)@
            }),
    {
        self._mint_shares(caller)
    }

    /// Concludes minting shares on the shares token's answer to minting
    /// them: its refusal is returned as a generator error and the allowance
    /// goes back to what it was `before`; otherwise the minting stands.
    pub fn conclude_mint_shares(&mut self, before: SPGeneratingData, minted: Result<(), PSP22Error>) -> (r:
        Result<(), SPGeneratingError>)
        ensures
            match minted {
                Ok(()) => *final(self) == *old(self) && r == Ok::<(), SPGeneratingError>(()),
                Err(e) => *final(self) == before && r == Err::<(), SPGeneratingError>(
                    SPGeneratingError::PSP22Error(e),
                ),
            },
    {
        match minted {
            Ok(()) => Ok(()),
            Err(e) => {
                *self = before;
                Err(SPGeneratingError::PSP22Error(e))
            },
        }
    }

    /// Resets the allowance of `to` and returns what it was: the amount of
    /// shares to mint to `to`.
    pub fn _mint_shares(&mut self, to: &AccountId) -> (amount: u128)
        ensures
            amount == old(self)@.allowance(*to),
            final(self)@ == (SPGeneratingModel {
                shares_minting_allowance: old(self)@.shares_minting_allowance.insert(*to, 0),
                ..old(self)@
            }),
    {
        let amount = self._get_shares_minting_allowance(to);
        self.shares_minting_allowance.insert(*to, 0);
        amount
    }

    pub fn get_sharing_part_e6(&self) -> (r: u128)
        ensures
            r == self.sharing_part_e6,
    {
        self.sharing_part_e6
    }

    pub fn get_generated_profit(&self) -> (r: i128)
        ensures
            r == self.generated_profit,
    {
        self.generated_profit
    }

    pub fn get_shares_profit_controller_address(&self) -> (r: AccountId)
        ensures
            r == self.shares_profit_controller_address,
    {
        self.shares_profit_controller_address
    }

    pub fn get_shares_minting_allowance(&self, account: &AccountId) -> (r: u128)
        ensures
            r == self@.allowance(*account),
    {
        self._get_shares_minting_allowance(account)
    }

    pub fn get_shares_token_address(&self) -> (r: AccountId)
        ensures
            r == self.shares_token_address,
    {
        self.shares_token_address
    }

    pub fn _get_shares_minting_allowance(&self, account: &AccountId) -> (r: u128)
        ensures
            r == self@.allowance(*account),
    {
        match self.shares_minting_allowance.get(account) {
            Some(a) => a,
            None => 0,
        }
    }

    pub fn _increase_shares_minting_allowance(&mut self, account: &AccountId, amount: u128)
        requires
            old(self)@.increase_allowance_defined(*account, amount),
        ensures
            final(self)@ == old(self)@.with_allowance_increased(*account, amount),
    {
        let allowance = self._get_shares_minting_allowance(account);
        self.shares_minting_allowance.insert(*account, allowance + amount);
    }

    pub fn _add_profit(&mut self, amount: u128)
        requires
            old(self)@.add_profit_defined(amount),
        ensures
            final(self)@ == old(self)@.with_profit_added(amount),
    {
        let a = u128_bits_as_i128(amount);
        self.generated_profit = self.generated_profit + a;
    }

    pub fn _sub_profit(&mut self, amount: u128)
        requires
            old(self)@.sub_profit_defined(amount),
        ensures
            final(self)@ == old(self)@.with_profit_subtracted(amount),
    {
        let a = u128_bits_as_i128(amount);
        self.generated_profit = self.generated_profit - a;
    }

    /// Books `amount` of profit made from `account`, and raises the shares
    /// that `account` may mint by the sharing part of it.
    pub fn _add_profit_and_increase_shares_minting_allowance(
        &mut self,
        amount: u128,
        account: &AccountId,
    )
        requires
            old(self)@.add_profit_and_allowance_defined(amount, *account),
        ensures
            final(self)@ == old(self)@.with_profit_and_allowance(amount, *account),
    {
        self._add_profit(amount);
        let sharing_part_e6: u128 = self.sharing_part_e6;
        let increase_allowance_by: u128 = amount * sharing_part_e6 / E6;
        self._increase_shares_minting_allowance(account, increase_allowance_by);
    }
}

} // verus!
