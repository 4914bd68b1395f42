//! The stable coin a contract has put into circulation.
use vstd::prelude::*;
use crate::account::AccountId;
use crate::vault::VaultAction;

verus! {

/// The emitted token and the amount of it minted and not yet burned.
#[derive(Clone, Copy, Debug)]
pub struct EmittingData {
    pub emited_token_address: AccountId,
    pub emited_amount: u128,
}

impl EmittingData {
    pub fn emited_amount(&self) -> (r: u128)
        ensures
            r == self.emited_amount,
    {
        self.emited_amount
    }

    pub fn get_emited_token_address(&self) -> (r: AccountId)
        ensures
            r == self.emited_token_address,
    {
        self.emited_token_address
    }

    /// Books `amount` as emitted and asks the token to mint it to `to`.
    pub fn _mint_emited_token(&mut self, to: &AccountId, amount: u128, actions: &mut Vec<VaultAction>)
        requires
            old(self).emited_amount + amount <= u128::MAX,
        ensures
            final(self).emited_amount == old(self).emited_amount + amount,
            final(self).emited_token_address == old(self).emited_token_address,
            final(actions)@ == old(actions)@.push(VaultAction::MintStable { to: *to, amount }),
    {
        self.emited_amount = self.emited_amount + amount;
        actions.push(VaultAction::MintStable { to: *to, amount });
    }

    /// Asks the token to burn `amount` from `from` and books it as gone.
    pub fn _burn_emited_token(
        &mut self,
        from: &AccountId,
        amount: u128,
        actions: &mut Vec<VaultAction>,
    )
        requires
            old(self).emited_amount >= amount,
        ensures
            final(self).emited_amount == old(self).emited_amount - amount,
            final(self).emited_token_address == old(self).emited_token_address,
            final(actions)@ == old(actions)@.push(VaultAction::BurnStable { from: *from, amount }),
    {
        actions.push(VaultAction::BurnStable { from: *from, amount });
        self.emited_amount = self.emited_amount - amount;
    }
}

} // verus!
