//! The shares-profit controller: it collects the profit of registered
//! generators and, when there is profit, mints it in stable coin, a part to
//! the treasury and the rest to the owner.
use vstd::prelude::*;
use crate::account::{AccountId, AccountTable};
use crate::arith::E6;
use crate::access::only_owner;
use crate::errors::{OwnableError, SPControllingError, SPGeneratingError};
use crate::shares_profit_generating::SPGeneratingModel;

verus! {

/// The storage of the shares-profit controller.
#[derive(Clone, Debug)]
pub struct SPControllingData {
    pub stable_coin_address: AccountId,
    pub total_profit: i128,
    pub minted_amount: u128,
    pub is_generator: AccountTable<bool>,
    pub treassury_address: AccountId,
    /// The treasury's part of the distributed profit (six decimals).
    pub treassury_part_e6: u128,
}

/// The abstract state of the shares-profit controller.
pub struct SPControllingModel {
    pub owner: AccountId,
    pub stable_coin_address: AccountId,
    pub total_profit: i128,
    pub minted_amount: u128,
    pub is_generator: Map<AccountId, bool>,
    pub treassury_address: AccountId,
    pub treassury_part_e6: u128,
}

/// The shares-profit controller contract.
#[derive(Clone, Debug)]
pub struct SPControllerContract {
    pub owner: AccountId,
    pub control: SPControllingData,
}

impl View for SPControllerContract {
    type V = SPControllingModel;

    open spec fn view(&self) -> SPControllingModel {
        SPControllingModel {
            owner: self.owner,
            stable_coin_address: self.control.stable_coin_address,
            total_profit: self.control.total_profit,
            minted_amount: self.control.minted_amount,
            is_generator: self.control.is_generator.view(),
            treassury_address: self.control.treassury_address,
            treassury_part_e6: self.control.treassury_part_e6,
        }
    }
}

impl SPControllingModel {
    /// Whether `account` is a registered profit generator.
    pub open spec fn generator(self, account: AccountId) -> bool {
        self.is_generator.contains_key(account) && self.is_generator[account]
    }

    /// Collecting the profit a generator gave (`given_profit` is its answer):
    /// only from a registered generator; the profit is added to the total.
    pub open spec fn collect_profit(
        self,
        profit_generator: AccountId,
        given_profit: Result<i128, SPGeneratingError>,
    ) -> Result<(SPControllingModel, i128), SPControllingError> {
        if !self.generator(profit_generator) {
            Err(SPControllingError::Generator)
        } else {
            match given_profit {
                Err(e) => Err(SPControllingError::SPGeneratingError(e)),
                Ok(p) => Ok(
                    (
                        SPControllingModel {
                            total_profit: (self.total_profit + p) as i128,
                            ..self
                        },
                        p,
                    ),
                ),
            }
        }
    }

    /// The treasury's share of a distributed profit.
    pub open spec fn treassury_profit(self) -> int {
        self.total_profit * self.treassury_part_e6 / (E6 as int)
    }

    pub open spec fn distribute_income_defined(self) -> bool {
        self.total_profit > 0 ==> {
            &&& self.total_profit * self.treassury_part_e6 <= u128::MAX
            &&& self.treassury_profit() <= self.total_profit
            &&& self.minted_amount + self.total_profit <= u128::MAX
        }
    }
}

impl SPControllerContract {
    /// A controller for the stable coin at `stable_coin_address`, with no
    /// generators, no profit and no treasury part.
    pub fn new(stable_coin_address: AccountId, owner: AccountId) -> (r: Self)
        ensures
            r@ == (SPControllingModel {
                owner,
                stable_coin_address,
                total_profit: 0,
                minted_amount: 0,
                is_generator: Map::empty(),
                treassury_address: AccountId::spec_zero(),
                treassury_part_e6: 0,
            }),
    {
        SPControllerContract {
            owner,
            control: SPControllingData {
                stable_coin_address,
                total_profit: 0,
                minted_amount: 0,
                is_generator: AccountTable::new(),
                treassury_address: AccountId::zero(),
                treassury_part_e6: 0,
            },
        }
    }

    fn only_owner(&self, caller: &AccountId) -> (r: Result<(), SPControllingError>)
        ensures
            r == (if *caller == self.owner {
                Ok(())
            } else {
                Err(SPControllingError::OwnableError(OwnableError::CallerIsNotOwner))
            }),
    {
        match only_owner(caller, &self.owner) {
            Err(e) => Err(SPControllingError::OwnableError(e)),
            Ok(()) => Ok(()),
        }
    }

    /// The first step of collecting profit: only a registered generator may
    /// be asked for its profit.
    pub fn collect_profit_begin(&self, profit_generator: &AccountId) -> (r: Result<
        (),
        SPControllingError,
    >)
        ensures
            r == (if self@.generator(*profit_generator) {
                Ok(())
            } else {
                Err(SPControllingError::Generator)
            }),
    {
        if !self.is_generator(profit_generator) {
            return Err(SPControllingError::Generator);
        }
        Ok(())
    }

    /// Collects the profit that `profit_generator` gave (`given_profit` is its
    /// answer) and adds it to the total profit.
    pub fn collect_profit(
        &mut self,
        profit_generator: &AccountId,
        given_profit: Result<i128, SPGeneratingError>,
    ) -> (r: Result<i128, SPControllingError>)
        requires
            old(self)@.generator(*profit_generator) ==> (given_profit matches Ok(p) ==> i128::MIN
                <= old(self)@.total_profit + p <= i128::MAX),
        ensures
            match old(self)@.collect_profit(*profit_generator, given_profit) {
                Ok((m, p)) => final(self)@ == m && r == Ok::<i128, SPControllingError>(p),
                Err(e) => r == Err::<i128, SPControllingError>(e) && final(self)@ == old(self)@,
            },
    {
        if !self.is_generator(profit_generator) {
            return Err(SPControllingError::Generator);
        }
        let collected_profit: i128 = match given_profit {
            Err(e) => return Err(SPControllingError::SPGeneratingError(e)),
            Ok(p) => p,
        };
        self.control.total_profit = self.control.total_profit + collected_profit;
        Ok(collected_profit)
    }

    /// Distributes the total profit: it is reset, and the stable coin is asked
    /// to mint the treasury's part to the treasury and the rest to the owner.
    /// Returns the two mints, treasury first.
    pub fn distribute_income(&mut self) -> (r: Result<
        ((AccountId, u128), (AccountId, u128)),
        SPControllingError,
    >)
        requires
            old(self)@.distribute_income_defined(),
        ensures
            old(self)@.total_profit <= 0 ==> r == Err::<
                ((AccountId, u128), (AccountId, u128)),
                SPControllingError,
            >(SPControllingError::NoProfit) && final(self)@ == old(self)@,
            old(self)@.total_profit > 0 ==> ({
                let t = old(self)@.treassury_profit();
                let p = old(self)@.total_profit;
                &&& r == Ok::<((AccountId, u128), (AccountId, u128)), SPControllingError>(
                    (
                        (old(self)@.treassury_address, t as u128),
                        (old(self)@.owner, (p - t) as u128),
                    ),
                )
                &&& final(self)@ == (SPControllingModel {
                    total_profit: 0,
                    minted_amount: (old(self)@.minted_amount + p) as u128,
                    ..old(self)@
                })
            }),
    {
        let profit: i128 = self.control.total_profit;
        if profit <= 0 {
            return Err(SPControllingError::NoProfit);
        }
        self.control.total_profit = 0;
        let treassury_part_e6: u128 = self.control.treassury_part_e6;
        let treassury_profit: u128 = profit as u128 * treassury_part_e6 / E6;
        let owner_profit: u128 = profit as u128 - treassury_profit;
        self.control.minted_amount = self.control.minted_amount + profit as u128;
        Ok(((self.control.treassury_address, treassury_profit), (self.owner, owner_profit)))
    }

    /// Whether adding the collected profit leaves the `i128` range.
    pub fn collect_profit_aborts(
        &self,
        profit_generator: &AccountId,
        given_profit: &Result<i128, SPGeneratingError>,
    ) -> (r: bool)
        ensures
            r == !(self@.generator(*profit_generator) ==> (*given_profit matches Ok(p)
                ==> i128::MIN <= self@.total_profit + p <= i128::MAX)),
    {
        if !self.is_generator(profit_generator) {
            return false;
        }
        match given_profit {
            Ok(p) => self.control.total_profit.checked_add(*p).is_none(),
            Err(_) => false,
        }
    }

    /// Whether distributing the profit leaves the integer ranges.
    pub fn distribute_income_aborts(&self) -> (r: bool)
        ensures
            r == !self@.distribute_income_defined(),
    {
        let profit = self.control.total_profit;
        if profit <= 0 {
            return false;
        }
        let p = profit as u128;
        let t = match p.checked_mul(self.control.treassury_part_e6) {
            Some(x) => x / E6,
            None => return true,
        };
        t > p || self.control.minted_amount.checked_add(p).is_none()
    }

    /// Registers or unregisters a profit generator; only the owner may.
    pub fn set_is_generator(&mut self, caller: &AccountId, account: AccountId, is: bool) -> (r:
        Result<(), SPControllingError>)
        ensures
            *caller != old(self).owner ==> r == Err::<(), SPControllingError>(
                SPControllingError::OwnableError(OwnableError::CallerIsNotOwner),
            ) && final(self)@ == old(self)@,
            *caller == old(self).owner ==> r is Ok && final(self)@ == (SPControllingModel {
                is_generator: old(self)@.is_generator.insert(account, is),
                ..old(self)@
            }),
    {
        self.only_owner(caller)?;
        self.control.is_generator.insert(account, is);
        Ok(())
    }

    /// Sets the treasury; only the owner may.
    pub fn set_treassury_address(&mut self, caller: &AccountId, new_treassury_address: AccountId) -> (r:
        Result<(), SPControllingError>)
        ensures
            *caller != old(self).owner ==> r == Err::<(), SPControllingError>(
                SPControllingError::OwnableError(OwnableError::CallerIsNotOwner),
            ) && final(self)@ == old(self)@,
            *caller == old(self).owner ==> r is Ok && final(self)@ == (SPControllingModel {
                treassury_address: new_treassury_address,
                ..old(self)@
            }),
    {
        self.only_owner(caller)?;
        self.control.treassury_address = new_treassury_address;
        Ok(())
    }

    /// Sets the treasury's part, at most one whole; only the owner may.
    pub fn set_treassury_part_e6(&mut self, caller: &AccountId, new_treassury_part_e6: u128) -> (r:
        Result<(), SPControllingError>)
        ensures
            *caller != old(self).owner ==> r == Err::<(), SPControllingError>(
                SPControllingError::OwnableError(OwnableError::CallerIsNotOwner),
            ) && final(self)@ == old(self)@,
            *caller == old(self).owner && new_treassury_part_e6 > E6 ==> r == Err::<
                (),
                SPControllingError,
            >(SPControllingError::One) && final(self)@ == old(self)@,
            *caller == old(self).owner && new_treassury_part_e6 <= E6 ==> r is Ok && final(self)@
                == (SPControllingModel { treassury_part_e6: new_treassury_part_e6, ..old(self)@ }),
    {
        self.only_owner(caller)?;
        if new_treassury_part_e6 > 1000000 {
            return Err(SPControllingError::One);
        }
        self.control.treassury_part_e6 = new_treassury_part_e6;
        Ok(())
    }

    /// The check before a generator's sharing part is set: only the owner
    /// may, and only for a registered generator. On success the generator is
    /// asked to take `new_sharing_part_e6`.
    pub fn set_sharing_part_e6(
        &self,
        caller: &AccountId,
        profit_generator: &AccountId,
        new_sharing_part_e6: u128,
    ) -> (r: Result<(), SPControllingError>)
        ensures
            r == (if *caller != self.owner {
                Err(SPControllingError::OwnableError(OwnableError::CallerIsNotOwner))
            } else if !self@.generator(*profit_generator) {
                Err(SPControllingError::Generator)
            } else {
                Ok(())
            }),
    {
        self.only_owner(caller)?;
        if !self.is_generator(profit_generator) {
            return Err(SPControllingError::Generator);
        }
        Ok(())
    }

    /// The last step of setting a generator's sharing part, on the
    /// generator's answer: its refusal is returned as the controller's error.
    pub fn set_sharing_part_e6_end(&self, answered: Result<(), SPGeneratingError>) -> (r: Result<
        (),
        SPControllingError,
    >)
        ensures
            match answered {
                Ok(()) => r == Ok::<(), SPControllingError>(()),
                Err(e) => r == Err::<(), SPControllingError>(SPControllingError::SPGeneratingError(e)),
            },
    {
        match answered {
            Ok(()) => Ok(()),
            Err(e) => Err(SPControllingError::SPGeneratingError(e)),
        }
    }

    pub fn get_stable_coin_address(&self) -> (r: AccountId)
        ensures
            r == self.control.stable_coin_address,
    {
        self.control.stable_coin_address
    }

    pub fn is_generator(&self, account: &AccountId) -> (r: bool)
        ensures
            r == self@.generator(*account),
    {
        match self.control.is_generator.get(account) {
            Some(b) => b,
            None => false,
        }
    }

    pub fn get_total_profit(&self) -> (r: i128)
        ensures
            r == self.control.total_profit,
    {
        self.control.total_profit
    }

    pub fn get_treassury_address(&self) -> (r: AccountId)
        ensures
            r == self.control.treassury_address,
    {
        self.control.treassury_address
    }

    pub fn get_treassury_part_e6(&self) -> (r: u128)
        ensures
            r == self.control.treassury_part_e6,
    {
        self.control.treassury_part_e6
    }
}


/// With a treasury part of at most one whole, the treasury's share of a
/// positive profit is never more than the profit, so distributing mints the
/// whole profit: the treasury's share plus the owner's rest.
pub proof fn lemma_distribution_splits_profit(m: SPControllingModel)
    requires
        m.total_profit > 0,
        m.treassury_part_e6 <= E6,
    ensures
        0 <= m.treassury_profit() <= m.total_profit,
        m.treassury_profit() + (m.total_profit - m.treassury_profit()) == m.total_profit,
{
    let p = m.total_profit as int;
    let t = m.treassury_part_e6 as int;
    assert(p * t / 1000000 <= p) by (nonlinear_arith)
        requires
            p > 0,
            0 <= t <= 1000000,
    ;
    assert(p * t / 1000000 >= 0) by (nonlinear_arith)
        requires
            p > 0,
            0 <= t,
    ;
}


/// Collecting moves profit: when the controller collects from a registered
/// generator whose controller it is, the generator's profit drops to zero
/// and the controller's total grows by exactly that profit, so their sum is
/// kept.
pub proof fn lemma_collect_moves_profit(
    g: SPGeneratingModel,
    c: SPControllingModel,
    controller: AccountId,
    generator: AccountId,
)
    requires
        g.shares_profit_controller_address == controller,
        c.generator(generator),
        i128::MIN <= g.generated_profit <= i128::MAX,
        i128::MIN <= c.total_profit + g.generated_profit <= i128::MAX,
    ensures
        g.give_profit(controller) matches Ok((g2, p)) && c.collect_profit(generator, Ok(p)) matches Ok(
            (c2, q),
        ) && g2.generated_profit == 0 && q == p && g2.generated_profit + c2.total_profit
            == g.generated_profit + c.total_profit,
{
}

/// The treasury's share of the profit is the profit times the treasury part
/// over one whole (six decimals), rounded down; the owner gets the rest.
pub proof fn lemma_treasury_share(m: SPControllingModel)
    ensures
        m.treassury_profit() == m.total_profit * m.treassury_part_e6 / 1_000_000int,
{
}

} // verus!
