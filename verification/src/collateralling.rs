//! The collateral a contract holds in one fungible token.
use vstd::prelude::*;
use crate::account::AccountId;
use crate::vault::VaultAction;

verus! {

/// The collateral token and the amount of it the contract holds.
#[derive(Clone, Copy, Debug)]
pub struct CollaterallingData {
    pub collateral_token_address: AccountId,
    pub collateral_amount: u128,
}

impl CollaterallingData {
    pub fn collateral_amount(&self) -> (r: u128)
        ensures
            r == self.collateral_amount,
    {
        self.collateral_amount
    }

    pub fn get_collateral_token_address(&self) -> (r: AccountId)
        ensures
            r == self.collateral_token_address,
    {
        self.collateral_token_address
    }

    /// Books `amount` of collateral coming in from `from`, and asks the
    /// collateral token to move it here.
    pub fn _transfer_collateral_in(
        &mut self,
        from: &AccountId,
        amount: u128,
        actions: &mut Vec<VaultAction>,
    )
        requires
            old(self).collateral_amount + amount <= u128::MAX,
        ensures
            final(self).collateral_amount == old(self).collateral_amount + amount,
            final(self).collateral_token_address == old(self).collateral_token_address,
            final(actions)@ == old(actions)@.push(
                VaultAction::TransferCollateralIn { from: *from, amount },
            ),
    {
        self.collateral_amount = self.collateral_amount + amount;
        actions.push(VaultAction::TransferCollateralIn { from: *from, amount });
    }

    /// Asks the collateral token to send `amount` to `to`, and books it as
    /// gone.
    pub fn _transfer_collateral_out(
        &mut self,
        to: &AccountId,
        amount: u128,
        actions: &mut Vec<VaultAction>,
    )
        requires
            old(self).collateral_amount >= amount,
        ensures
            final(self).collateral_amount == old(self).collateral_amount - amount,
            final(self).collateral_token_address == old(self).collateral_token_address,
            final(actions)@ == old(actions)@.push(
                VaultAction::TransferCollateralOut { to: *to, amount },
            ),
    {
        actions.push(VaultAction::TransferCollateralOut { to: *to, amount });
        self.collateral_amount = self.collateral_amount - amount;
    }
}

} // verus!
