//! The vault: each vault is a token (held by its owner) that holds collateral
//! and owes stable coin. Owners deposit and withdraw collateral and borrow and
//! pay back stable coin; debt grows with an interest coefficient that the
//! vault controller steers; a liquidator may take over a vault whose debt
//! exceeds its ceiling.
//!
//! Every message is a function of the vault's state and of what the outside
//! world answered (the caller, the time, the owner of the vault token, the
//! collateral price). It returns the calls to make on the tokens, in order,
//! and the events to emit. A refused message leaves the state as it was; a
//! withdrawal, loan or liquidation refused for the debt ceiling still makes
//! the calls of bringing the vault up to date, which come before that check,
//! and `conclude` decides on their answers and the refusal.
use vstd::prelude::*;
use std::collections::HashMap;
use crate::account::AccountId;
use crate::arith::{E6, E12, wrap_i128, wrap_u128, i128_bits_as_u128, u128_bits_as_i128};
use crate::access::{only_owner, when_not_paused, pause_outcome, unpause_outcome, PauseEvent};
use crate::collateralling::CollaterallingData;
use crate::emitting::EmittingData;
use crate::errors::{
    EmittingError, OwnableError, PausableError, PSP22Error, PSP22ReceiverError, PSP34Error, PausingError, SPGeneratingError, VaultError,
};
use crate::shares_profit_generating::{SPGeneratingData, SPGeneratingModel};

verus! {

broadcast use vstd::std_specs::hash::group_hash_axioms;

/// The value of one collateral unit is quoted with twelve decimals.
pub const COLLATERAL_DECIMALS: u128 = 1_000_000_000_000u128;

/// A call that a vault message asks for, or an event it emits.
#[derive(Clone, Copy, Debug, PartialEq, Eq)]
pub enum VaultAction {
    /// Mint vault token `id` to `to`.
    MintVaultToken { to: AccountId, id: u128 },
    /// Burn vault token `id` held by `from`.
    BurnVaultToken { from: AccountId, id: u128 },
    /// Move vault token `id` from `from` to `to`, after the receiver check.
    MoveVaultToken { from: AccountId, to: AccountId, id: u128 },
    /// Move `amount` of collateral token from `from` to the vault.
    TransferCollateralIn { from: AccountId, amount: u128 },
    /// Move `amount` of collateral token from the vault to `to`.
    TransferCollateralOut { to: AccountId, amount: u128 },
    /// Mint `amount` of stable coin to `to`.
    MintStable { to: AccountId, amount: u128 },
    /// Burn `amount` of stable coin from `from`.
    BurnStable { from: AccountId, amount: u128 },
    /// Raise the debt that the stable coin records for `account`.
    AddAccountDebt { account: AccountId, amount: u128 },
    /// Lower the debt that the stable coin records for `account`.
    SubAccountDebt { account: AccountId, amount: u128 },
    /// Event `Deposit`.
    EmitDeposit { vault_id: u128, current_collateral: u128 },
    /// Event `Borrow`.
    EmitBorrow { vault_id: u128, borrowed: u128 },
    /// Event `PayBack`.
    EmitPayBack { vault_id: u128, pay_backed: u128 },
    /// Event `Transfer` of a vault token.
    EmitTransfer { from: AccountId, to: AccountId, id: u128 },
    /// Make `owner` the owner of the contract, which records the event
    /// `OwnershipTransferred` from no owner to `owner`.
    InitOwnership { owner: AccountId },
}

/// The value stored for `k`, zero when there is none.
pub open spec fn lookup(m: Map<u128, u128>, k: u128) -> u128 {
    if m.contains_key(k) {
        m[k]
    } else {
        0
    }
}

/// The account in `a`, or the all-zero account.
pub open spec fn account_or_zero(a: Option<AccountId>) -> AccountId {
    match a {
        Some(x) => x,
        None => AccountId::spec_zero(),
    }
}

/// Value (six decimals) of `collateral` at `price_e6` per collateral unit.
pub open spec fn collateral_value(collateral: u128, price_e6: u128) -> int {
    collateral * price_e6 / (COLLATERAL_DECIMALS as int)
}

/// The result of a message as the model gives it: on success the next state
/// and the actions, or the refusal.
pub open spec fn outcome_is<T, E>(
    before: VaultModel,
    after: VaultModel,
    r: Result<T, E>,
    spec_r: Result<(VaultModel, T), E>,
) -> bool {
    match spec_r {
        Ok((m, t)) => after == m && r == Ok::<T, E>(t),
        Err(e) => after == before && r == Err::<T, E>(e),
    }
}

/// The abstract state of the vault contract.
pub struct VaultModel {
    pub owner: AccountId,
    pub paused: bool,
    pub collateral_token_address: AccountId,
    pub collateral_amount: u128,
    pub emited_token_address: AccountId,
    pub emited_amount: u128,
    pub spgenerate: SPGeneratingModel,
    pub maximum_minimum_collateral_coefficient_e6: u128,
    pub interest_rate_step_value_e12: i128,
    pub collateral_step_value_e6: u128,
    pub collateral_by_id: Map<u128, u128>,
    pub debt_by_id: Map<u128, u128>,
    pub total_debt: u128,
    pub next_id: u128,
    pub current_interest_coefficient_e12: u128,
    pub last_interest_coefficient_by_id_e12: Map<u128, u128>,
    pub last_interest_coefficient_timestamp: u64,
    pub oracle_address: AccountId,
    pub controller_address: AccountId,
    pub liquidator_address: AccountId,
    pub current_interest_rate_e12: i128,
    pub current_minimum_collateral_coefficient_e6: u128,
}

impl VaultModel {
    pub open spec fn collateral_of(self, id: u128) -> u128 {
        lookup(self.collateral_by_id, id)
    }

    pub open spec fn debt_of(self, id: u128) -> u128 {
        lookup(self.debt_by_id, id)
    }

    pub open spec fn last_coefficient_of(self, id: u128) -> u128 {
        lookup(self.last_interest_coefficient_by_id_e12, id)
    }

    /// The factor (twelve decimals) by which the interest coefficient grows
    /// over `dt` time units at the current rate, before it is read as a `u128`.
    pub open spec fn accrual_factor(self, dt: int) -> int {
        E12 + dt * self.current_interest_rate_e12
    }

    /// Whether the interest coefficient can be brought forward to `now`
    /// without leaving the integer ranges.
    pub open spec fn coefficient_at_defined(self, now: u64) -> bool {
        let dt = now - self.last_interest_coefficient_timestamp;
        now > self.last_interest_coefficient_timestamp ==> {
            &&& i128::MIN <= dt * self.current_interest_rate_e12 <= i128::MAX
            &&& i128::MIN <= self.accrual_factor(dt) <= i128::MAX
            &&& self.current_interest_coefficient_e12 * wrap_u128(self.accrual_factor(dt))
                <= u128::MAX
        }
    }

    /// The interest coefficient brought forward to `now`.
    pub open spec fn coefficient_at(self, now: u64) -> u128 {
        let dt = now - self.last_interest_coefficient_timestamp;
        if now > self.last_interest_coefficient_timestamp {
            (self.current_interest_coefficient_e12 * wrap_u128(self.accrual_factor(dt))
                / (E12 as int)) as u128
        } else {
            self.current_interest_coefficient_e12
        }
    }

    /// The state once the interest coefficient is brought forward to `now`.
    pub open spec fn with_coefficient_updated(self, now: u64) -> VaultModel {
        if now > self.last_interest_coefficient_timestamp {
            VaultModel {
                current_interest_coefficient_e12: self.coefficient_at(now),
                last_interest_coefficient_timestamp: now,
                ..self
            }
        } else {
            self
        }
    }

    /// The debt of vault `id` scaled from its last coefficient to `cur`,
    /// rounded up by one when it is not zero.
    pub open spec fn scaled_debt(self, id: u128, cur: u128) -> int {
        let q = self.debt_of(id) * cur / (self.last_coefficient_of(id) as int);
        if q != 0 {
            q + 1
        } else {
            0
        }
    }

    /// Whether the debt of vault `id` at `now` is defined: the coefficient
    /// can be brought forward, and scaling the debt divides by no zero and
    /// stays within `u128`.
    pub open spec fn debt_at_defined(self, id: u128, now: u64) -> bool {
        let cur = self.coefficient_at(now);
        let last = self.last_coefficient_of(id);
        &&& self.coefficient_at_defined(now)
        &&& cur != last ==> {
            &&& last != 0
            &&& self.debt_of(id) * cur <= u128::MAX
            &&& self.scaled_debt(id, cur) <= u128::MAX
        }
    }

    /// The debt of vault `id` at `now`: the stored debt when the coefficient
    /// at `now` is the one the vault was last brought up to date at, and
    /// otherwise the stored debt scaled by the coefficient's growth since
    /// then, rounded up by one when it is not zero.
    pub open spec fn debt_at(self, id: u128, now: u64) -> u128 {
        let cur = self.coefficient_at(now);
        if cur == self.last_coefficient_of(id) {
            self.debt_of(id)
        } else {
            self.scaled_debt(id, cur) as u128
        }
    }

    /// Whether bringing vault `id` up to date at `now` stays within the
    /// integer ranges and divides by no zero.
    pub open spec fn update_vault_debt_defined(self, id: u128, now: u64, owner: AccountId) -> bool {
        let debt = self.debt_of(id);
        let updated = self.debt_at(id, now);
        &&& self.debt_at_defined(id, now)
        &&& self.coefficient_at(now) != self.last_coefficient_of(id) ==> {
            &&& updated > debt ==> self.spgenerate.add_profit_and_allowance_defined(
                (updated - debt) as u128,
                owner,
            )
            &&& updated < debt ==> self.spgenerate.sub_profit_defined((debt - updated) as u128)
            &&& 0 <= self.total_debt + updated - debt <= u128::MAX
        }
    }

    /// Brings vault `id` up to date at `now`: the interest coefficient moves
    /// forward, the vault's debt becomes its debt at `now`, the total debt
    /// moves by the same difference, which is booked as profit (with shares
    /// allowance for `owner`) or loss, and the stable coin is told of the
    /// owner's new debt. Gives the next state, the debt, and the actions.
    pub open spec fn update_vault_debt(self, id: u128, now: u64, owner: AccountId) -> (
        VaultModel,
        u128,
        Seq<VaultAction>,
    ) {
        let s = self.with_coefficient_updated(now);
        let cur = self.coefficient_at(now);
        let debt = self.debt_of(id);
        let updated = self.debt_at(id, now);
        if cur == self.last_coefficient_of(id) {
            (s, debt, Seq::empty())
        } else {
            let spg = if updated > debt {
                self.spgenerate.with_profit_and_allowance((updated - debt) as u128, owner)
            } else if updated < debt {
                self.spgenerate.with_profit_subtracted((debt - updated) as u128)
            } else {
                self.spgenerate
            };
            let acts = if updated > debt {
                seq![VaultAction::AddAccountDebt { account: owner, amount: (updated - debt) as u128 }]
            } else if updated < debt {
                seq![VaultAction::SubAccountDebt { account: owner, amount: (debt - updated) as u128 }]
            } else {
                Seq::empty()
            };
            (
                VaultModel {
                    spgenerate: spg,
                    debt_by_id: self.debt_by_id.insert(id, updated),
                    total_debt: (self.total_debt + updated - debt) as u128,
                    last_interest_coefficient_by_id_e12: self.last_interest_coefficient_by_id_e12.insert(
                        id,
                        cur,
                    ),
                    ..s
                },
                updated,
                acts,
            )
        }
    }

    /// Whether the debt ceiling of vault `id` at `price_e6` is defined.
    pub open spec fn debt_ceiling_defined(self, id: u128, price_e6: u128) -> bool {
        &&& self.collateral_of(id) * price_e6 <= u128::MAX
        &&& collateral_value(self.collateral_of(id), price_e6) * E6 <= u128::MAX
        &&& self.current_minimum_collateral_coefficient_e6 != 0
    }

    /// The most that a vault holding `collateral` may owe: the collateral's
    /// value divided by the minimum collateral coefficient.
    pub open spec fn ceiling_for(self, collateral: u128, price_e6: u128) -> u128 {
        (collateral_value(collateral, price_e6) * E6
            / (self.current_minimum_collateral_coefficient_e6 as int)) as u128
    }

    /// The most that vault `id` may owe.
    pub open spec fn debt_ceiling(self, id: u128, price_e6: u128) -> u128 {
        self.ceiling_for(self.collateral_of(id), price_e6)
    }

    /// Whether `debt` stays within the ceiling of a vault holding
    /// `collateral`, written without the division: for a nonzero minimum
    /// collateral coefficient it holds exactly when
    /// `debt <= self.ceiling_for(collateral, price_e6)`.
    pub open spec fn within_ceiling(self, debt: u128, collateral: u128, price_e6: u128) -> bool {
        debt * self.current_minimum_collateral_coefficient_e6 <= collateral_value(
            collateral,
            price_e6,
        ) * E6
    }

    pub open spec fn create_vault_defined(self) -> bool {
        self.next_id < u128::MAX
    }

    /// A new vault with the next id, held by the caller.
    pub open spec fn create_vault(self, caller: AccountId) -> (VaultModel, Seq<VaultAction>) {
        let id = self.next_id;
        (
            VaultModel {
                debt_by_id: self.debt_by_id.insert(id, 0),
                collateral_by_id: self.collateral_by_id.insert(id, 0),
                last_interest_coefficient_by_id_e12: self.last_interest_coefficient_by_id_e12.insert(
                    id,
                    self.current_interest_coefficient_e12,
                ),
                next_id: (id + 1) as u128,
                ..self
            },
            seq![VaultAction::MintVaultToken { to: caller, id }],
        )
    }

    /// Destroying vault `id`: its owner may, once it owes nothing and holds no
    /// collateral.
    pub open spec fn destroy_vault(
        self,
        caller: AccountId,
        id: u128,
        vault_owner: Option<AccountId>,
    ) -> Result<(VaultModel, Seq<VaultAction>), VaultError> {
        match vault_owner {
            None => Err(VaultError::OwnerUnexists),
            Some(owner) => if caller != owner {
                Err(VaultError::VaultOwnership)
            } else if self.debt_of(id) != 0 {
                Err(VaultError::HasDebt)
            } else if self.collateral_of(id) != 0 {
                Err(VaultError::NotEmpty)
            } else {
                Ok((self, seq![VaultAction::BurnVaultToken { from: owner, id }]))
            },
        }
    }

    pub open spec fn deposit_collateral_defined(
        self,
        caller: AccountId,
        id: u128,
        amount: u128,
        vault_owner: Option<AccountId>,
    ) -> bool {
        caller == account_or_zero(vault_owner) ==> {
            &&& self.collateral_amount + amount <= u128::MAX
            &&& self.collateral_of(id) + amount <= u128::MAX
        }
    }

    /// Depositing `amount` of collateral into vault `id`: its owner may.
    pub open spec fn deposit_collateral(
        self,
        caller: AccountId,
        id: u128,
        amount: u128,
        vault_owner: Option<AccountId>,
    ) -> Result<(VaultModel, Seq<VaultAction>), VaultError> {
        let owner = account_or_zero(vault_owner);
        let c = self.collateral_of(id);
        if caller != owner {
            Err(VaultError::VaultOwnership)
        } else {
            Ok(
                (
                    VaultModel {
                        collateral_amount: (self.collateral_amount + amount) as u128,
                        collateral_by_id: self.collateral_by_id.insert(id, (c + amount) as u128),
                        ..self
                    },
                    seq![
                        VaultAction::TransferCollateralIn { from: owner, amount },
                        VaultAction::EmitDeposit { vault_id: id, current_collateral: c },
                    ],
                ),
            )
        }
    }

    pub open spec fn withdraw_collateral_defined(
        self,
        caller: AccountId,
        now: u64,
        id: u128,
        amount: u128,
        vault_owner: Option<AccountId>,
        price_e6: u128,
    ) -> bool {
        let owner = account_or_zero(vault_owner);
        let vc = self.collateral_of(id);
        let (s, debt, acts) = self.update_vault_debt(id, now, owner);
        let after = (vc - amount) as u128;
        (caller == owner && amount <= vc) ==> {
            &&& self.update_vault_debt_defined(id, now, owner)
            &&& debt * self.current_minimum_collateral_coefficient_e6 <= u128::MAX
            &&& after * price_e6 <= u128::MAX
            &&& collateral_value(after, price_e6) * E6 <= u128::MAX
            &&& self.within_ceiling(debt, after, price_e6) ==> s.collateral_amount >= amount
        }
    }

    /// Withdrawing `amount` of collateral from vault `id`: its owner may, when
    /// the vault holds that much and its debt, brought up to date, stays
    /// within the debt ceiling of the collateral left.
    pub open spec fn withdraw_collateral(
        self,
        caller: AccountId,
        now: u64,
        id: u128,
        amount: u128,
        vault_owner: Option<AccountId>,
        price_e6: u128,
    ) -> Result<(VaultModel, Seq<VaultAction>), VaultError> {
        let owner = account_or_zero(vault_owner);
        let vc = self.collateral_of(id);
        let (s, debt, acts) = self.update_vault_debt(id, now, owner);
        let after = (vc - amount) as u128;
        if caller != owner {
            Err(VaultError::VaultOwnership)
        } else if amount > vc {
            Err(VaultError::CollateralBelowMinimum)
        } else if !self.within_ceiling(debt, after, price_e6) {
            Err(VaultError::CollateralBelowMinimum)
        } else {
            Ok(
                (
                    VaultModel {
                        collateral_by_id: s.collateral_by_id.insert(id, after),
                        collateral_amount: (s.collateral_amount - amount) as u128,
                        ..s
                    },
                    acts + seq![
                        VaultAction::TransferCollateralOut { to: owner, amount },
                        VaultAction::EmitDeposit { vault_id: id, current_collateral: after },
                    ],
                ),
            )
        }
    }

    pub open spec fn borrow_token_defined(
        self,
        caller: AccountId,
        now: u64,
        id: u128,
        amount: u128,
        vault_owner: Option<AccountId>,
        price_e6: u128,
    ) -> bool {
        let owner = account_or_zero(vault_owner);
        let ceiling = self.debt_ceiling(id, price_e6);
        let (s, debt, acts) = self.update_vault_debt(id, now, owner);
        (!self.paused && caller == owner) ==> {
            &&& self.debt_ceiling_defined(id, price_e6)
            &&& self.update_vault_debt_defined(id, now, owner)
            &&& debt + amount <= u128::MAX
            &&& debt + amount <= ceiling ==> {
                &&& s.total_debt + amount <= u128::MAX
                &&& s.emited_amount + amount <= u128::MAX
            }
        }
    }

    /// Borrowing `amount` of stable coin against vault `id`: its owner may,
    /// while the vault contract is not paused, when the debt brought up to
    /// date plus `amount` stays within the ceiling taken before the update.
    pub open spec fn borrow_token(
        self,
        caller: AccountId,
        now: u64,
        id: u128,
        amount: u128,
        vault_owner: Option<AccountId>,
        price_e6: u128,
    ) -> Result<(VaultModel, Seq<VaultAction>), VaultError> {
        let owner = account_or_zero(vault_owner);
        let ceiling = self.debt_ceiling(id, price_e6);
        let (s, debt, acts) = self.update_vault_debt(id, now, owner);
        if self.paused {
            Err(VaultError::PausableError(PausableError::Paused))
        } else if caller != owner {
            Err(VaultError::VaultOwnership)
        } else if debt + amount > ceiling {
            Err(VaultError::CollateralBelowMinimum)
        } else {
            Ok(
                (
                    VaultModel {
                        debt_by_id: s.debt_by_id.insert(id, (debt + amount) as u128),
                        total_debt: (s.total_debt + amount) as u128,
                        emited_amount: (s.emited_amount + amount) as u128,
                        ..s
                    },
                    acts + seq![
                        VaultAction::AddAccountDebt { account: owner, amount },
                        VaultAction::MintStable { to: owner, amount },
                        VaultAction::EmitBorrow { vault_id: id, borrowed: amount },
                    ],
                ),
            )
        }
    }

    /// The calls a withdrawal makes before it is refused: when the owner
    /// withdraws no more than the vault holds, the vault is brought up to
    /// date (telling the stable coin of the owner's new debt) before the
    /// ceiling is checked, so a refusal for the ceiling comes after those
    /// calls; any other refusal comes before any call.
    pub open spec fn withdraw_refusal_calls(
        self,
        caller: AccountId,
        now: u64,
        id: u128,
        amount: u128,
        vault_owner: Option<AccountId>,
    ) -> Seq<VaultAction> {
        let owner = account_or_zero(vault_owner);
        if caller == owner && amount <= self.collateral_of(id) {
            self.update_vault_debt(id, now, owner).2
        } else {
            Seq::empty()
        }
    }

    /// The calls a loan makes before it is refused: the update of the vault
    /// comes before the ceiling is checked, after the pause and owner checks.
    pub open spec fn borrow_refusal_calls(
        self,
        caller: AccountId,
        now: u64,
        id: u128,
        vault_owner: Option<AccountId>,
    ) -> Seq<VaultAction> {
        let owner = account_or_zero(vault_owner);
        if !self.paused && caller == owner {
            self.update_vault_debt(id, now, owner).2
        } else {
            Seq::empty()
        }
    }

    /// The calls a liquidation makes before it is refused: the update of the
    /// vault comes before the debt is held against the ceiling, after the
    /// liquidator check.
    pub open spec fn buy_refusal_calls(
        self,
        caller: AccountId,
        now: u64,
        id: u128,
        vault_owner: Option<AccountId>,
    ) -> Seq<VaultAction> {
        if caller == self.liquidator_address {
            self.update_vault_debt(id, now, account_or_zero(vault_owner)).2
        } else {
            Seq::empty()
        }
    }

    /// The part of the debt that a payment of `amount` settles.
    pub open spec fn settled(debt: u128, amount: u128) -> u128 {
        if amount >= debt {
            debt
        } else {
            amount
        }
    }

    pub open spec fn pay_back_token_defined(
        self,
        caller: AccountId,
        now: u64,
        id: u128,
        amount: u128,
        vault_owner: Option<AccountId>,
    ) -> bool {
        let owner = account_or_zero(vault_owner);
        let (s, debt, acts) = self.update_vault_debt(id, now, owner);
        let paid = Self::settled(debt, amount);
        caller == owner ==> {
            &&& self.update_vault_debt_defined(id, now, owner)
            &&& s.emited_amount >= paid
            &&& s.total_debt >= paid
        }
    }

    /// Paying back stable coin on vault `id`: its owner may; the debt brought
    /// up to date drops by `amount`, or to zero when `amount` covers it, and
    /// that much stable coin is burned from the owner.
    pub open spec fn pay_back_token(
        self,
        caller: AccountId,
        now: u64,
        id: u128,
        amount: u128,
        vault_owner: Option<AccountId>,
    ) -> Result<(VaultModel, Seq<VaultAction>), VaultError> {
        let owner = account_or_zero(vault_owner);
        let (s, debt, acts) = self.update_vault_debt(id, now, owner);
        let paid = Self::settled(debt, amount);
        if caller != owner {
            Err(VaultError::VaultOwnership)
        } else {
            Ok(
                (
                    VaultModel {
                        emited_amount: (s.emited_amount - paid) as u128,
                        debt_by_id: s.debt_by_id.insert(id, (debt - paid) as u128),
                        total_debt: (s.total_debt - paid) as u128,
                        ..s
                    },
                    acts + seq![
                        VaultAction::BurnStable { from: owner, amount: paid },
                        VaultAction::SubAccountDebt { account: owner, amount: paid },
                        VaultAction::EmitPayBack { vault_id: id, pay_backed: paid },
                    ],
                ),
            )
        }
    }

    pub open spec fn buy_risky_vault_defined(
        self,
        caller: AccountId,
        now: u64,
        id: u128,
        vault_owner: Option<AccountId>,
        price_e6: u128,
    ) -> bool {
        let owner = account_or_zero(vault_owner);
        let ceiling = self.debt_ceiling(id, price_e6);
        let (s, debt, acts) = self.update_vault_debt(id, now, owner);
        caller == self.liquidator_address ==> {
            &&& self.debt_ceiling_defined(id, price_e6)
            &&& self.update_vault_debt_defined(id, now, owner)
            &&& ceiling < debt ==> s.emited_amount >= debt && s.total_debt >= debt
        }
    }

    /// Buying vault `id`: the liquidator may, when the vault's debt brought up
    /// to date exceeds its ceiling (taken before the update). The liquidator
    /// pays the whole debt in stable coin and receives the vault token.
    pub open spec fn buy_risky_vault(
        self,
        caller: AccountId,
        now: u64,
        id: u128,
        vault_owner: Option<AccountId>,
        price_e6: u128,
    ) -> Result<(VaultModel, Seq<VaultAction>), VaultError> {
        let owner = account_or_zero(vault_owner);
        let ceiling = self.debt_ceiling(id, price_e6);
        let (s, debt, acts) = self.update_vault_debt(id, now, owner);
        if caller != self.liquidator_address {
            Err(VaultError::Liquidator)
        } else if ceiling >= debt {
            Err(VaultError::CollateralAboveMinimum)
        } else {
            Ok(
                (
                    VaultModel {
                        emited_amount: (s.emited_amount - debt) as u128,
                        debt_by_id: s.debt_by_id.insert(id, 0),
                        total_debt: (s.total_debt - debt) as u128,
                        ..s
                    },
                    acts + seq![
                        VaultAction::BurnStable { from: caller, amount: debt },
                        VaultAction::SubAccountDebt { account: owner, amount: debt },
                        VaultAction::MoveVaultToken { from: owner, to: caller, id },
                        VaultAction::EmitPayBack { vault_id: id, pay_backed: debt },
                        VaultAction::EmitTransfer { from: owner, to: caller, id },
                    ],
                ),
            )
        }
    }

    pub open spec fn be_controlled_defined(
        self,
        caller: AccountId,
        interest_rate_step: i16,
        collateral_step: u16,
    ) -> bool {
        caller == self.controller_address ==> {
            &&& i128::MIN <= interest_rate_step * self.interest_rate_step_value_e12 <= i128::MAX
            &&& collateral_step * self.collateral_step_value_e6 <= u128::MAX
            &&& collateral_step * self.collateral_step_value_e6
                <= self.maximum_minimum_collateral_coefficient_e6
        }
    }

    /// The vault controller sets the interest rate and the minimum collateral
    /// coefficient from its steps.
    pub open spec fn be_controlled(
        self,
        caller: AccountId,
        interest_rate_step: i16,
        collateral_step: u16,
    ) -> Result<(VaultModel, ()), VaultError> {
        if caller != self.controller_address {
            Err(VaultError::VaultController)
        } else {
            Ok(
                (
                    VaultModel {
                        current_interest_rate_e12: (interest_rate_step
                            * self.interest_rate_step_value_e12) as i128,
                        current_minimum_collateral_coefficient_e6: (
                        self.maximum_minimum_collateral_coefficient_e6 - collateral_step
                            * self.collateral_step_value_e6) as u128,
                        ..self
                    },
                    (),
                ),
            )
        }
    }

    /// An owner-only change of the state: `changed` when the caller is the
    /// owner, refused otherwise.
    pub open spec fn owner_only(self, caller: AccountId, changed: VaultModel) -> Result<
        (VaultModel, ()),
        VaultError,
    > {
        if caller == self.owner {
            Ok((changed, ()))
        } else {
            Err(VaultError::OwnableError(OwnableError::CallerIsNotOwner))
        }
    }

    pub open spec fn set_vault_controller_address(self, caller: AccountId, a: AccountId) -> Result<
        (VaultModel, ()),
        VaultError,
    > {
        self.owner_only(caller, VaultModel { controller_address: a, ..self })
    }

    pub open spec fn set_oracle_address(self, caller: AccountId, a: AccountId) -> Result<
        (VaultModel, ()),
        VaultError,
    > {
        self.owner_only(caller, VaultModel { oracle_address: a, ..self })
    }

    pub open spec fn set_liquidator_address(self, caller: AccountId, a: AccountId) -> Result<
        (VaultModel, ()),
        VaultError,
    > {
        self.owner_only(caller, VaultModel { liquidator_address: a, ..self })
    }

    pub open spec fn set_shares_profit_controller_address(
        self,
        caller: AccountId,
        a: AccountId,
    ) -> Result<(VaultModel, ()), VaultError> {
        self.owner_only(
            caller,
            VaultModel {
                spgenerate: SPGeneratingModel {
                    shares_profit_controller_address: a,
                    ..self.spgenerate
                },
                ..self
            },
        )
    }

    /// Pausing borrowing: the owner may, while it is not paused; the event
    /// names the caller.
    pub open spec fn pause(self, caller: AccountId) -> Result<(VaultModel, PauseEvent), PausingError> {
        match pause_outcome(caller, self.owner, self.paused) {
            Ok(ev) => Ok((VaultModel { paused: true, ..self }, ev)),
            Err(e) => Err(e),
        }
    }

    /// Resuming borrowing: the owner may, while it is paused; the event
    /// names the caller.
    pub open spec fn unpause(self, caller: AccountId) -> Result<
        (VaultModel, PauseEvent),
        PausingError,
    > {
        match unpause_outcome(caller, self.owner, self.paused) {
            Ok(ev) => Ok((VaultModel { paused: false, ..self }, ev)),
            Err(e) => Err(e),
        }
    }

    /// The caller mints the shares it is allowed: its allowance drops to zero.
    pub open spec fn mint_shares(self, caller: AccountId) -> (VaultModel, u128) {
        (
            VaultModel {
                spgenerate: SPGeneratingModel {
                    shares_minting_allowance: self.spgenerate.shares_minting_allowance.insert(
                        caller,
                        0,
                    ),
                    ..self.spgenerate
                },
                ..self
            },
            self.spgenerate.allowance(caller),
        )
    }
}


/// The results of a message as plain values: the actions as a sequence.
pub open spec fn actions_result(r: Result<Vec<VaultAction>, VaultError>) -> Result<
    Seq<VaultAction>,
    VaultError,
> {
    match r {
        Ok(v) => Ok(v@),
        Err(e) => Err(e),
    }
}

/// A token's refusal of one of the calls a vault message asked for.
#[derive(Clone, Debug, PartialEq, Eq)]
pub enum CallRefusal {
    /// A fungible token (the collateral token or the stable coin) refused.
    PSP22(PSP22Error),
    /// The vault token refused.
    PSP34(PSP34Error),
}

/// The error a vault message returns when the call that `action` asked for
/// is refused: the stable coin's refusal to mint or burn comes wrapped as an
/// emitting error, every other refusal as it was answered.
pub open spec fn refusal_error(action: VaultAction, refusal: CallRefusal) -> VaultError {
    match refusal {
        CallRefusal::PSP34(e) => VaultError::PSP34Error(e),
        CallRefusal::PSP22(e) => match action {
            VaultAction::MintStable { .. } => VaultError::EmittingError(EmittingError::PSP22Error(e)),
            VaultAction::BurnStable { .. } => VaultError::EmittingError(EmittingError::PSP22Error(e)),
            _ => VaultError::PSP22Error(e),
        },
    }
}

/// The error for a refused call, as `refusal_error` gives it.
pub fn call_refusal_error(action: &VaultAction, refusal: CallRefusal) -> (r: VaultError)
    ensures
        r == refusal_error(*action, refusal),
{
    match refusal {
        CallRefusal::PSP34(e) => VaultError::PSP34Error(e),
        CallRefusal::PSP22(e) => match action {
            VaultAction::MintStable { .. } => VaultError::EmittingError(EmittingError::PSP22Error(e)),
            VaultAction::BurnStable { .. } => VaultError::EmittingError(EmittingError::PSP22Error(e)),
            _ => VaultError::PSP22Error(e),
        },
    }
}

/// A message's decision as it meets its specification: when the model
/// grants it, the state and the calls are the model's and the verdict is
/// `Ok`; when the model refuses it, the state is unchanged, the verdict is
/// the refusal, and the calls are `refusal_calls`, those made before the
/// refusal was decided.
pub open spec fn decision_is(
    before: VaultModel,
    after: VaultModel,
    r: (Vec<VaultAction>, Result<(), VaultError>),
    spec_r: Result<(VaultModel, Seq<VaultAction>), VaultError>,
    refusal_calls: Seq<VaultAction>,
) -> bool {
    match spec_r {
        Ok((m, acts)) => after == m && r.1 == Ok::<(), VaultError>(()) && r.0@ == acts,
        Err(e) => after == before && r.1 == Err::<(), VaultError>(e) && r.0@ == refusal_calls,
    }
}

/// The storage of the vault contract.
#[derive(Clone, Debug)]
pub struct VaultContract {
    pub owner: AccountId,
    pub paused: bool,
    pub collateral: CollaterallingData,
    pub emit: EmittingData,
    pub spgenerate: SPGeneratingData,
    pub maximum_minimum_collateral_coefficient_e6: u128,
    pub interest_rate_step_value_e12: i128,
    pub collateral_step_value_e6: u128,
    pub collateral_by_id: HashMap<u128, u128>,
    pub debt_by_id: HashMap<u128, u128>,
    pub total_debt: u128,
    pub next_id: u128,
    /// The interest accumulated since the start (twelve decimals).
    pub current_interest_coefficient_e12: u128,
    /// For each vault, the coefficient when its debt was last brought up to date.
    pub last_interest_coefficient_by_id_e12: HashMap<u128, u128>,
    pub last_interest_coefficient_timestamp: u64,
    pub oracle_address: AccountId,
    pub controller_address: AccountId,
    pub liquidator_address: AccountId,
    pub current_interest_rate_e12: i128,
    pub current_minimum_collateral_coefficient_e6: u128,
}

impl View for VaultContract {
    type V = VaultModel;

    open spec fn view(&self) -> VaultModel {
        VaultModel {
            owner: self.owner,
            paused: self.paused,
            collateral_token_address: self.collateral.collateral_token_address,
            collateral_amount: self.collateral.collateral_amount,
            emited_token_address: self.emit.emited_token_address,
            emited_amount: self.emit.emited_amount,
            spgenerate: self.spgenerate@,
            maximum_minimum_collateral_coefficient_e6: self.maximum_minimum_collateral_coefficient_e6,
            interest_rate_step_value_e12: self.interest_rate_step_value_e12,
            collateral_step_value_e6: self.collateral_step_value_e6,
            collateral_by_id: self.collateral_by_id@,
            debt_by_id: self.debt_by_id@,
            total_debt: self.total_debt,
            next_id: self.next_id,
            current_interest_coefficient_e12: self.current_interest_coefficient_e12,
            last_interest_coefficient_by_id_e12: self.last_interest_coefficient_by_id_e12@,
            last_interest_coefficient_timestamp: self.last_interest_coefficient_timestamp,
            oracle_address: self.oracle_address,
            controller_address: self.controller_address,
            liquidator_address: self.liquidator_address,
            current_interest_rate_e12: self.current_interest_rate_e12,
            current_minimum_collateral_coefficient_e6: self.current_minimum_collateral_coefficient_e6,
        }
    }
}

fn lookup_or_zero(m: &HashMap<u128, u128>, k: u128) -> (r: u128)
    ensures
        r == lookup(m@, k),
{
    match m.get(&k) {
        Some(v) => *v,
        None => 0,
    }
}

fn account_or_zero_exec(a: Option<AccountId>) -> (r: AccountId)
    ensures
        r == account_or_zero(a),
{
    match a {
        Some(x) => x,
        None => AccountId::zero(),
    }
}

impl VaultContract {
    /// A vault contract with no vaults: the interest coefficient starts at one
    /// at time `now`, the minimum collateral coefficient at its maximum, every
    /// unit of profit earns one unit of shares allowance, and the owner is
    /// also the vault controller. Asks for `owner` to be made the owner of
    /// the contract, which records the ownership event.
    pub fn new(
        oracle_address: AccountId,
        shares_token_address: AccountId,
        shares_profit_controller_address: AccountId,
        collateral_token_address: AccountId,
        stable_token_address: AccountId,
        maximum_minimum_collateral_coefficient_e6: u128,
        collateral_step_value_e6: u128,
        interest_rate_step_value_e12: i128,
        owner: AccountId,
        now: u64,
    ) -> (r: (Self, Vec<VaultAction>))
        ensures
            r.1@ == seq![VaultAction::InitOwnership { owner }],
            r.0@ == (VaultModel {
                owner,
                paused: false,
                collateral_token_address,
                collateral_amount: 0,
                emited_token_address: stable_token_address,
                emited_amount: 0,
                spgenerate: SPGeneratingModel {
                    shares_token_address,
                    generated_profit: 0,
                    shares_minting_allowance: Map::empty(),
                    shares_profit_controller_address,
                    sharing_part_e6: E6,
                },
                maximum_minimum_collateral_coefficient_e6,
                interest_rate_step_value_e12,
                collateral_step_value_e6,
                collateral_by_id: Map::empty(),
                debt_by_id: Map::empty(),
                total_debt: 0,
                next_id: 0,
                current_interest_coefficient_e12: E12,
                last_interest_coefficient_by_id_e12: Map::empty(),
                last_interest_coefficient_timestamp: now,
                oracle_address,
                controller_address: owner,
                liquidator_address: AccountId::spec_zero(),
                current_interest_rate_e12: 0,
                current_minimum_collateral_coefficient_e6: maximum_minimum_collateral_coefficient_e6,
            }),
    {
        let mut spgenerate = SPGeneratingData::new();
        spgenerate.shares_token_address = shares_token_address;
        spgenerate.shares_profit_controller_address = shares_profit_controller_address;
        spgenerate.sharing_part_e6 = E6;
        let mut actions = Vec::new();
        actions.push(VaultAction::InitOwnership { owner });
        proof {
            assert(actions@ =~= seq![VaultAction::InitOwnership { owner }]);
        }
        let contract = VaultContract {
            owner,
            paused: false,
            collateral: CollaterallingData { collateral_token_address, collateral_amount: 0 },
            emit: EmittingData { emited_token_address: stable_token_address, emited_amount: 0 },
            spgenerate,
            maximum_minimum_collateral_coefficient_e6,
            interest_rate_step_value_e12,
            collateral_step_value_e6,
            collateral_by_id: HashMap::new(),
            debt_by_id: HashMap::new(),
            total_debt: 0,
            next_id: 0,
            current_interest_coefficient_e12: E12,
            last_interest_coefficient_by_id_e12: HashMap::new(),
            last_interest_coefficient_timestamp: now,
            oracle_address,
            controller_address: owner,
            liquidator_address: AccountId::zero(),
            current_interest_rate_e12: 0,
            current_minimum_collateral_coefficient_e6: maximum_minimum_collateral_coefficient_e6,
        };
        (contract, actions)
    }

    pub fn _get_debt_by_id(&self, vault_id: u128) -> (r: u128)
        ensures
            r == self@.debt_of(vault_id),
    {
        lookup_or_zero(&self.debt_by_id, vault_id)
    }

    pub fn _get_collateral_by_id(&self, vault_id: u128) -> (r: u128)
        ensures
            r == self@.collateral_of(vault_id),
    {
        lookup_or_zero(&self.collateral_by_id, vault_id)
    }

    pub fn _get_last_interest_coefficient_by_id_e12(&self, vault_id: u128) -> (r: u128)
        ensures
            r == self@.last_coefficient_of(vault_id),
    {
        lookup_or_zero(&self.last_interest_coefficient_by_id_e12, vault_id)
    }

    /// Value (six decimals) of `collateral` at the oracle's collateral price.
    pub fn _collateral_value_e6(&self, collateral: u128, collateral_price_e6: u128) -> (r: u128)
        requires
            collateral * collateral_price_e6 <= u128::MAX,
        ensures
            r == collateral_value(collateral, collateral_price_e6),
    {
        collateral * collateral_price_e6 / COLLATERAL_DECIMALS
    }

    /// Value (six decimals) of the collateral in vault `vault_id`.
    pub fn _vault_collateral_value_e6(&self, vault_id: u128, collateral_price_e6: u128) -> (r: u128)
        requires
            self@.collateral_of(vault_id) * collateral_price_e6 <= u128::MAX,
        ensures
            r == collateral_value(self@.collateral_of(vault_id), collateral_price_e6),
    {
        let collateral = self._get_collateral_by_id(vault_id);
        self._collateral_value_e6(collateral, collateral_price_e6)
    }

    /// The most that vault `vault_id` may owe.
    pub fn _get_debt_ceiling(&self, vault_id: u128, collateral_price_e6: u128) -> (r: u128)
        requires
            self@.debt_ceiling_defined(vault_id, collateral_price_e6),
        ensures
            r == self@.debt_ceiling(vault_id, collateral_price_e6),
    {
        self._vault_collateral_value_e6(vault_id, collateral_price_e6) * E6
            / self.current_minimum_collateral_coefficient_e6
    }

    /// The most that vault `vault_id` may owe.
    pub fn get_debt_ceiling(&self, vault_id: u128, collateral_price_e6: u128) -> (r: u128)
        requires
            self@.debt_ceiling_defined(vault_id, collateral_price_e6),
        ensures
            r == self@.debt_ceiling(vault_id, collateral_price_e6),
    {
        self._get_debt_ceiling(vault_id, collateral_price_e6)
    }

    /// The interest coefficient brought forward to `now`, without storing it.
    pub fn _get_current_interest_coefficient_e12(&self, now: u64) -> (r: u128)
        requires
            self@.coefficient_at_defined(now),
        ensures
            r == self@.coefficient_at(now),
    {
        let last = self.last_interest_coefficient_timestamp;
        let mut ret = self.current_interest_coefficient_e12;
        if now > last {
            let rate: i128 = self.current_interest_rate_e12;
            let dt: i128 = (now - last) as i128;
            let factor: i128 = 1_000_000_000_000i128 + dt * rate;
            let f: u128 = i128_bits_as_u128(factor);
            ret = ret * f / E12;
        }
        ret
    }

    /// Brings the interest coefficient forward to `now` and returns it.
    pub fn _update_current_interest_coefficient_e12(&mut self, now: u64) -> (r: u128)
        requires
            old(self)@.coefficient_at_defined(now),
        ensures
            final(self)@ == old(self)@.with_coefficient_updated(now),
            r == final(self).current_interest_coefficient_e12,
    {
        let last = self.last_interest_coefficient_timestamp;
        if now > last {
            self.current_interest_coefficient_e12 = self._get_current_interest_coefficient_e12(now);
            self.last_interest_coefficient_timestamp = now;
        }
        self.current_interest_coefficient_e12
    }

    /// Brings vault `vault_id`, held by `owner`, up to date at `now` and
    /// returns its debt; the calls to the stable coin go to `actions`.
    pub fn _update_vault_debt(
        &mut self,
        vault_id: u128,
        now: u64,
        owner: &AccountId,
        actions: &mut Vec<VaultAction>,
    ) -> (r: u128)
        requires
            old(self)@.update_vault_debt_defined(vault_id, now, *owner),
        ensures
            ({
                let (m, d, a) = old(self)@.update_vault_debt(vault_id, now, *owner);
                final(self)@ == m && r == d && final(actions)@ == old(actions)@ + a
            }),
    {
        let ghost s0 = self@;
        let ghost acts0 = actions@;
        let current_interest_coefficient_e12 = self._update_current_interest_coefficient_e12(now);
        let last_interest_coefficient_e12 = self._get_last_interest_coefficient_by_id_e12(vault_id);
        let debt = self._get_debt_by_id(vault_id);
        let mut updated_debt = debt;
        if current_interest_coefficient_e12 != last_interest_coefficient_e12 {
            updated_debt = debt * current_interest_coefficient_e12 / last_interest_coefficient_e12;
            if updated_debt != 0 {
                updated_debt = updated_debt + 1;
            }
            if updated_debt > debt {
                self.spgenerate._add_profit_and_increase_shares_minting_allowance(
                    updated_debt - debt,
                    owner,
                );
                self.total_debt = self.total_debt + (updated_debt - debt);
                actions.push(
                    VaultAction::AddAccountDebt { account: *owner, amount: updated_debt - debt },
                );
            } else if updated_debt < debt {
                self.spgenerate._sub_profit(debt - updated_debt);
                self.total_debt = self.total_debt - (debt - updated_debt);
                actions.push(
                    VaultAction::SubAccountDebt { account: *owner, amount: debt - updated_debt },
                );
            }
            self.debt_by_id.insert(vault_id, updated_debt);
            self.last_interest_coefficient_by_id_e12.insert(
                vault_id,
                current_interest_coefficient_e12,
            );
        }
        proof {
            let (m, d, a) = s0.update_vault_debt(vault_id, now, *owner);
            assert(self@ == m);
            assert(actions@ =~= acts0 + a);
        }
        updated_debt
    }

    /// The debt of vault `vault_id` at `now`, without storing anything.
    fn _vault_debt_at(&self, vault_id: u128, now: u64) -> (r: u128)
        requires
            self@.debt_at_defined(vault_id, now),
        ensures
            r == self@.debt_at(vault_id, now),
    {
        let cur = self._get_current_interest_coefficient_e12(now);
        let last = self._get_last_interest_coefficient_by_id_e12(vault_id);
        let debt = self._get_debt_by_id(vault_id);
        if cur != last {
            let q = debt * cur / last;
            if q != 0 {
                q + 1
            } else {
                0
            }
        } else {
            debt
        }
    }

    /// The calls that bringing vault `vault_id` up to date at `now` makes,
    /// without storing anything.
    fn _accrual_calls(&self, vault_id: u128, now: u64, owner: &AccountId) -> (r: Vec<VaultAction>)
        requires
            self@.update_vault_debt_defined(vault_id, now, *owner),
        ensures
            r@ == self@.update_vault_debt(vault_id, now, *owner).2,
    {
        let debt = self._get_debt_by_id(vault_id);
        let updated = self._vault_debt_at(vault_id, now);
        let mut calls = Vec::new();
        if updated > debt {
            calls.push(VaultAction::AddAccountDebt { account: *owner, amount: updated - debt });
        } else if updated < debt {
            calls.push(VaultAction::SubAccountDebt { account: *owner, amount: debt - updated });
        }
        proof {
            let (m, d, a) = self@.update_vault_debt(vault_id, now, *owner);
            assert(calls@ =~= a);
        }
        calls
    }

    /// Mints a new vault token to the caller and opens the vault with no
    /// collateral and no debt.
    pub fn create_vault(&mut self, caller: &AccountId) -> (r: Vec<VaultAction>)
        requires
            old(self)@.create_vault_defined(),
        ensures
            (final(self)@, r@) == old(self)@.create_vault(*caller),
    {
        let next_id = self.next_id;
        let mut actions = Vec::new();
        actions.push(VaultAction::MintVaultToken { to: *caller, id: next_id });
        self.debt_by_id.insert(next_id, 0);
        self.collateral_by_id.insert(next_id, 0);
        self.last_interest_coefficient_by_id_e12.insert(
            next_id,
            self.current_interest_coefficient_e12,
        );
        self.next_id = self.next_id + 1;
        proof {
            assert(actions@ =~= seq![VaultAction::MintVaultToken { to: *caller, id: next_id }]);
        }
        actions
    }

    /// Burns the token of an empty vault; `vault_owner` is the holder of the
    /// vault token, if it exists.
    pub fn destroy_vault(
        &mut self,
        caller: &AccountId,
        vault_id: u128,
        vault_owner: Option<AccountId>,
    ) -> (r: Result<Vec<VaultAction>, VaultError>)
        ensures
            outcome_is(
                old(self)@,
                final(self)@,
                actions_result(r),
                old(self)@.destroy_vault(*caller, vault_id, vault_owner),
            ),
            *final(self) == *old(self),
    {
        let owner = match vault_owner {
            Some(v) => v,
            None => return Err(VaultError::OwnerUnexists),
        };
        if !caller.equals(&owner) {
            return Err(VaultError::VaultOwnership);
        }
        if self._get_debt_by_id(vault_id) != 0 {
            return Err(VaultError::HasDebt);
        }
        if self._get_collateral_by_id(vault_id) != 0 {
            return Err(VaultError::NotEmpty);
        }
        let mut actions = Vec::new();
        actions.push(VaultAction::BurnVaultToken { from: owner, id: vault_id });
        proof {
            assert(actions@ =~= seq![VaultAction::BurnVaultToken { from: owner, id: vault_id }]);
        }
        Ok(actions)
    }

    /// Deposits `amount` of collateral from the owner of vault `vault_id`.
    pub fn deposit_collateral(
        &mut self,
        caller: &AccountId,
        vault_id: u128,
        amount: u128,
        vault_owner: Option<AccountId>,
    ) -> (r: Result<Vec<VaultAction>, VaultError>)
        requires
            old(self)@.deposit_collateral_defined(*caller, vault_id, amount, vault_owner),
        ensures
            outcome_is(
                old(self)@,
                final(self)@,
                actions_result(r),
                old(self)@.deposit_collateral(*caller, vault_id, amount, vault_owner),
            ),
    {
        let owner = account_or_zero_exec(vault_owner);
        if !caller.equals(&owner) {
            return Err(VaultError::VaultOwnership);
        }
        let collateral = self._get_collateral_by_id(vault_id);
        let mut actions = Vec::new();
        self.collateral._transfer_collateral_in(&owner, amount, &mut actions);
        self.collateral_by_id.insert(vault_id, collateral + amount);
        actions.push(VaultAction::EmitDeposit { vault_id, current_collateral: collateral });
        proof {
            assert(actions@ =~= seq![
                VaultAction::TransferCollateralIn { from: owner, amount },
                VaultAction::EmitDeposit { vault_id, current_collateral: collateral },
            ]);
        }
        Ok(actions)
    }

    /// Withdraws `amount` of collateral from vault `vault_id` to its owner.
    pub fn withdraw_collateral(
        &mut self,
        caller: &AccountId,
        now: u64,
        vault_id: u128,
        amount: u128,
        vault_owner: Option<AccountId>,
        collateral_price_e6: u128,
    ) -> (r: (Vec<VaultAction>, Result<(), VaultError>))
        requires
            old(self)@.withdraw_collateral_defined(
                *caller,
                now,
                vault_id,
                amount,
                vault_owner,
                collateral_price_e6,
            ),
        ensures
            decision_is(
                old(self)@,
                final(self)@,
                r,
                old(self)@.withdraw_collateral(
                    *caller,
                    now,
                    vault_id,
                    amount,
                    vault_owner,
                    collateral_price_e6,
                ),
                old(self)@.withdraw_refusal_calls(*caller, now, vault_id, amount, vault_owner),
            ),
    {
        let owner = account_or_zero_exec(vault_owner);
        if !caller.equals(&owner) {
            return (Vec::new(), Err(VaultError::VaultOwnership));
        }
        let vault_collateral = self._get_collateral_by_id(vault_id);
        if amount > vault_collateral {
            return (Vec::new(), Err(VaultError::CollateralBelowMinimum));
        }
        let vault_debt = self._vault_debt_at(vault_id, now);
        let collateral_after = vault_collateral - amount;
        if vault_debt * self.current_minimum_collateral_coefficient_e6 > self._collateral_value_e6(
            collateral_after,
            collateral_price_e6,
        ) * E6 {
            return (self._accrual_calls(vault_id, now, &owner), Err(VaultError::CollateralBelowMinimum));
        }
        let ghost s0 = self@;
        let mut actions = Vec::new();
        self._update_vault_debt(vault_id, now, &owner, &mut actions);
        let ghost acts = actions@;
        self.collateral_by_id.insert(vault_id, collateral_after);
        self.collateral._transfer_collateral_out(&owner, amount, &mut actions);
        actions.push(VaultAction::EmitDeposit { vault_id, current_collateral: collateral_after });
        proof {
            let (m, d, a) = s0.update_vault_debt(vault_id, now, owner);
            assert(acts =~= a);
            assert(actions@ =~= a + seq![
                VaultAction::TransferCollateralOut { to: owner, amount },
                VaultAction::EmitDeposit { vault_id, current_collateral: collateral_after },
            ]);
        }
        (actions, Ok(()))
    }

    /// Borrows `amount` of stable coin against vault `vault_id`.
    pub fn borrow_token(
        &mut self,
        caller: &AccountId,
        now: u64,
        vault_id: u128,
        amount: u128,
        vault_owner: Option<AccountId>,
        collateral_price_e6: u128,
    ) -> (r: (Vec<VaultAction>, Result<(), VaultError>))
        requires
            old(self)@.borrow_token_defined(
                *caller,
                now,
                vault_id,
                amount,
                vault_owner,
                collateral_price_e6,
            ),
        ensures
            decision_is(
                old(self)@,
                final(self)@,
                r,
                old(self)@.borrow_token(
                    *caller,
                    now,
                    vault_id,
                    amount,
                    vault_owner,
                    collateral_price_e6,
                ),
                old(self)@.borrow_refusal_calls(*caller, now, vault_id, vault_owner),
            ),
    {
        match when_not_paused(self.paused) {
            Err(e) => return (Vec::new(), Err(VaultError::PausableError(e))),
            Ok(()) => {},
        }
        let owner = account_or_zero_exec(vault_owner);
        if !caller.equals(&owner) {
            return (Vec::new(), Err(VaultError::VaultOwnership));
        }
        let debt_ceiling = self._get_debt_ceiling(vault_id, collateral_price_e6);
        let debt = self._vault_debt_at(vault_id, now);
        if debt + amount > debt_ceiling {
            return (self._accrual_calls(vault_id, now, &owner), Err(VaultError::CollateralBelowMinimum));
        }
        let ghost s0 = self@;
        let mut actions = Vec::new();
        self._update_vault_debt(vault_id, now, &owner, &mut actions);
        let ghost acts = actions@;
        self.debt_by_id.insert(vault_id, debt + amount);
        actions.push(VaultAction::AddAccountDebt { account: owner, amount });
        self.total_debt = self.total_debt + amount;
        self.emit._mint_emited_token(&owner, amount, &mut actions);
        actions.push(VaultAction::EmitBorrow { vault_id, borrowed: amount });
        proof {
            let (m, d, a) = s0.update_vault_debt(vault_id, now, owner);
            assert(acts =~= a);
            assert(actions@ =~= a + seq![
                VaultAction::AddAccountDebt { account: owner, amount },
                VaultAction::MintStable { to: owner, amount },
                VaultAction::EmitBorrow { vault_id, borrowed: amount },
            ]);
        }
        (actions, Ok(()))
    }

    /// Pays back up to `amount` of the debt of vault `vault_id`.
    pub fn pay_back_token(
        &mut self,
        caller: &AccountId,
        now: u64,
        vault_id: u128,
        amount: u128,
        vault_owner: Option<AccountId>,
    ) -> (r: Result<Vec<VaultAction>, VaultError>)
        requires
            old(self)@.pay_back_token_defined(*caller, now, vault_id, amount, vault_owner),
        ensures
            outcome_is(
                old(self)@,
                final(self)@,
                actions_result(r),
                old(self)@.pay_back_token(*caller, now, vault_id, amount, vault_owner),
            ),
    {
        let owner = account_or_zero_exec(vault_owner);
        if !caller.equals(&owner) {
            return Err(VaultError::VaultOwnership);
        }
        let ghost s0 = self@;
        let mut actions = Vec::new();
        let debt = self._update_vault_debt(vault_id, now, &owner, &mut actions);
        let ghost acts = actions@;
        let paid = if amount >= debt {
            debt
        } else {
            amount
        };
        self.emit._burn_emited_token(&owner, paid, &mut actions);
        self.debt_by_id.insert(vault_id, debt - paid);
        actions.push(VaultAction::SubAccountDebt { account: owner, amount: paid });
        self.total_debt = self.total_debt - paid;
        actions.push(VaultAction::EmitPayBack { vault_id, pay_backed: paid });
        proof {
            let (m, d, a) = s0.update_vault_debt(vault_id, now, owner);
            assert(acts =~= a);
            assert(actions@ =~= a + seq![
                VaultAction::BurnStable { from: owner, amount: paid },
                VaultAction::SubAccountDebt { account: owner, amount: paid },
                VaultAction::EmitPayBack { vault_id, pay_backed: paid },
            ]);
        }
        Ok(actions)
    }

    /// The liquidator takes over vault `vault_id`, whose debt exceeds its
    /// ceiling, by paying all its debt.
    pub fn buy_risky_vault(
        &mut self,
        caller: &AccountId,
        now: u64,
        vault_id: u128,
        vault_owner: Option<AccountId>,
        collateral_price_e6: u128,
    ) -> (r: (Vec<VaultAction>, Result<(), VaultError>))
        requires
            old(self)@.buy_risky_vault_defined(
                *caller,
                now,
                vault_id,
                vault_owner,
                collateral_price_e6,
            ),
        ensures
            decision_is(
                old(self)@,
                final(self)@,
                r,
                old(self)@.buy_risky_vault(*caller, now, vault_id, vault_owner, collateral_price_e6),
                old(self)@.buy_refusal_calls(*caller, now, vault_id, vault_owner),
            ),
    {
        if !caller.equals(&self.liquidator_address) {
            return (Vec::new(), Err(VaultError::Liquidator));
        }
        let owner = account_or_zero_exec(vault_owner);
        let debt_ceiling = self._get_debt_ceiling(vault_id, collateral_price_e6);
        let debt = self._vault_debt_at(vault_id, now);
        if debt_ceiling >= debt {
            return (self._accrual_calls(vault_id, now, &owner), Err(VaultError::CollateralAboveMinimum));
        }
        let ghost s0 = self@;
        let mut actions = Vec::new();
        self._update_vault_debt(vault_id, now, &owner, &mut actions);
        let ghost acts = actions@;
        self.emit._burn_emited_token(caller, debt, &mut actions);
        self.debt_by_id.insert(vault_id, 0);
        actions.push(VaultAction::SubAccountDebt { account: owner, amount: debt });
        self.total_debt = self.total_debt - debt;
        actions.push(VaultAction::MoveVaultToken { from: owner, to: *caller, id: vault_id });
        actions.push(VaultAction::EmitPayBack { vault_id, pay_backed: debt });
        actions.push(VaultAction::EmitTransfer { from: owner, to: *caller, id: vault_id });
        proof {
            let (m, d, a) = s0.update_vault_debt(vault_id, now, owner);
            assert(acts =~= a);
            assert(actions@ =~= a + seq![
                VaultAction::BurnStable { from: *caller, amount: debt },
                VaultAction::SubAccountDebt { account: owner, amount: debt },
                VaultAction::MoveVaultToken { from: owner, to: *caller, id: vault_id },
                VaultAction::EmitPayBack { vault_id, pay_backed: debt },
                VaultAction::EmitTransfer { from: owner, to: *caller, id: vault_id },
            ]);
        }
        (actions, Ok(()))
    }

    /// The vault controller sets the interest rate to `interest_rate_step`
    /// steps and lowers the minimum collateral coefficient from its maximum
    /// by `collateral_step` steps. The stable coin's step is not used here.
    pub fn be_controlled(
        &mut self,
        caller: &AccountId,
        current_interest_rate_step: i16,
        current_collateral_step: u16,
        current_stable_coin_interest_rate_step: i16,
    ) -> (r: Result<(), VaultError>)
        requires
            old(self)@.be_controlled_defined(
                *caller,
                current_interest_rate_step,
                current_collateral_step,
            ),
        ensures
            outcome_is(
                old(self)@,
                final(self)@,
                r,
                old(self)@.be_controlled(*caller, current_interest_rate_step, current_collateral_step),
            ),
    {
        if !caller.equals(&self.controller_address) {
            return Err(VaultError::VaultController);
        }
        self.current_interest_rate_e12 = current_interest_rate_step as i128
            * self.interest_rate_step_value_e12;
        self.current_minimum_collateral_coefficient_e6 = self.maximum_minimum_collateral_coefficient_e6
            - current_collateral_step as u128 * self.collateral_step_value_e6;
        Ok(())
    }

    /// Concludes a vault message once its calls were made, in order, up to
    /// the first refusal: `before` is the state before the message, `self`
    /// the state the message decided on, and `decided` its own verdict. A
    /// refused call comes before the message's own decision: the state goes
    /// back to `before` (nothing is booked, nothing is kept) and the message
    /// returns the refusal's error. With no refusal, a granted message's state
    /// stands, and a refused one returns its error with the state as `before`.
    pub fn conclude(
        &mut self,
        before: VaultContract,
        first_refusal: Option<(VaultAction, CallRefusal)>,
        decided: Result<(), VaultError>,
    ) -> (r: Result<(), VaultError>)
        ensures
            match first_refusal {
                Some((action, refusal)) => *final(self) == before && r == Err::<(), VaultError>(
                    refusal_error(action, refusal),
                ),
                None => match decided {
                    Ok(()) => *final(self) == *old(self) && r == Ok::<(), VaultError>(()),
                    Err(e) => *final(self) == before && r == Err::<(), VaultError>(e),
                },
            },
    {
        match first_refusal {
            Some((action, refusal)) => {
                *self = before;
                Err(call_refusal_error(&action, refusal))
            },
            None => match decided {
                Ok(()) => Ok(()),
                Err(e) => {
                    *self = before;
                    Err(e)
                },
            },
        }
    }

    /// The ownership check of the owner-only messages.
    fn only_owner(&self, caller: &AccountId) -> (r: Result<(), VaultError>)
        ensures
            r == (if *caller == self.owner {
                Ok(())
            } else {
                Err(VaultError::OwnableError(OwnableError::CallerIsNotOwner))
            }),
    {
        match only_owner(caller, &self.owner) {
            Err(e) => Err(VaultError::OwnableError(e)),
            Ok(()) => Ok(()),
        }
    }

    /// The owner may set an attribute of a vault token; this is the check
    /// made before the token storage is written.
    pub fn _set_attribute(&self, caller: &AccountId) -> (r: Result<(), VaultError>)
        ensures
            r == (if *caller == self.owner {
                Ok(())
            } else {
                Err(VaultError::OwnableError(OwnableError::CallerIsNotOwner))
            }),
    {
        self.only_owner(caller)
    }

    pub fn set_vault_controller_address(&mut self, caller: &AccountId, controller_address: AccountId) -> (r: Result<(), VaultError>)
        ensures
            outcome_is(
                old(self)@,
                final(self)@,
                r,
                old(self)@.set_vault_controller_address(*caller, controller_address),
            ),
    {
        self.only_owner(caller)?;
        self.controller_address = controller_address;
        Ok(())
    }

    pub fn set_oracle_address(&mut self, caller: &AccountId, new_oracle_address: AccountId) -> (r: Result<(), VaultError>)
        ensures
            outcome_is(
                old(self)@,
                final(self)@,
                r,
                old(self)@.set_oracle_address(*caller, new_oracle_address),
            ),
    {
        self.only_owner(caller)?;
        self.oracle_address = new_oracle_address;
        Ok(())
    }

    pub fn set_liquidator_address(&mut self, caller: &AccountId, new_liquidator_address: AccountId) -> (r: Result<(), VaultError>)
        ensures
            outcome_is(
                old(self)@,
                final(self)@,
                r,
                old(self)@.set_liquidator_address(*caller, new_liquidator_address),
            ),
    {
        self.only_owner(caller)?;
        self.liquidator_address = new_liquidator_address;
        Ok(())
    }

    /// The collateral token refuses to deliver any other token: only the
    /// collateral token may send tokens to the vault.
    pub fn before_received(&self, caller: &AccountId) -> (r: Result<(), PSP22ReceiverError>)
        ensures
            *caller == self.collateral.collateral_token_address <==> r is Ok,
            r matches Err(PSP22ReceiverError::TransferRejected(m)) ==> m@ == "UnacceptedPsp22"@,
    {
        if !caller.equals(&self.collateral.collateral_token_address) {
            return Err(PSP22ReceiverError::TransferRejected(String::from_str("UnacceptedPsp22")));
        }
        Ok(())
    }

    /// Pauses borrowing; the owner only. Returns the event to record.
    pub fn pause(&mut self, caller: &AccountId) -> (r: Result<PauseEvent, PausingError>)
        ensures
            outcome_is(old(self)@, final(self)@, r, old(self)@.pause(*caller)),
    {
        let owner = self.owner;
        crate::access::pause(caller, &owner, &mut self.paused)
    }

    /// Resumes borrowing; the owner only. Returns the event to record.
    pub fn unpause(&mut self, caller: &AccountId) -> (r: Result<PauseEvent, PausingError>)
        ensures
            outcome_is(old(self)@, final(self)@, r, old(self)@.unpause(*caller)),
    {
        let owner = self.owner;
        crate::access::unpause(caller, &owner, &mut self.paused)
    }

    /// Sets the shares-profit controller of the vault's profit; the owner only.
    pub fn set_shares_profit_controller_address(
        &mut self,
        caller: &AccountId,
        new_profit_controller: AccountId,
    ) -> (r: Result<(), VaultError>)
        ensures
            outcome_is(
                old(self)@,
                final(self)@,
                r,
                old(self)@.set_shares_profit_controller_address(*caller, new_profit_controller),
            ),
    {
        self.only_owner(caller)?;
        self.spgenerate.shares_profit_controller_address = new_profit_controller;
        Ok(())
    }

    /// The caller mints all the shares it is allowed; returns the amount that
    /// the shares token is asked to mint to it.
    pub fn mint_shares(&mut self, caller: &AccountId) -> (r: u128)
        ensures
            (final(self)@, r) == old(self)@.mint_shares(*caller),
    {
        self.spgenerate.mint_shares(caller)
    }

    /// Concludes minting shares on the shares token's answer: its refusal is
    /// returned as a generator error and the state goes back to `before`;
    /// otherwise the minting stands.
    pub fn conclude_mint_shares(&mut self, before: VaultContract, minted: Result<(), PSP22Error>) -> (r:
        Result<(), SPGeneratingError>)
        ensures
            match minted {
                Ok(()) => *final(self) == *old(self) && r == Ok::<(), SPGeneratingError>(()),
                Err(e) => *final(self) == before && r == Err::<(), SPGeneratingError>(
                    SPGeneratingError::PSP22Error(e),
                ),
            },
    {
        match minted {
            Ok(()) => Ok(()),
            Err(e) => {
                *self = before;
                Err(SPGeneratingError::PSP22Error(e))
            },
        }
    }

    pub fn collateral_amount(&self) -> (r: u128)
        ensures
            r == self.collateral.collateral_amount,
    {
        self.collateral.collateral_amount()
    }

    pub fn get_collateral_token_address(&self) -> (r: AccountId)
        ensures
            r == self.collateral.collateral_token_address,
    {
        self.collateral.get_collateral_token_address()
    }

    pub fn emited_amount(&self) -> (r: u128)
        ensures
            r == self.emit.emited_amount,
    {
        self.emit.emited_amount()
    }

    pub fn get_emited_token_address(&self) -> (r: AccountId)
        ensures
            r == self.emit.emited_token_address,
    {
        self.emit.get_emited_token_address()
    }

    /// Whether bringing the interest coefficient forward to `now` leaves the
    /// integer ranges.
    fn coefficient_at_aborts(&self, now: u64) -> (r: bool)
        ensures
            r == !self@.coefficient_at_defined(now),
    {
        let last = self.last_interest_coefficient_timestamp;
        if now > last {
            let dt: i128 = (now - last) as i128;
            let product = match dt.checked_mul(self.current_interest_rate_e12) {
                Some(p) => p,
                None => return true,
            };
            let factor = match 1_000_000_000_000i128.checked_add(product) {
                Some(f) => f,
                None => return true,
            };
            let f = i128_bits_as_u128(factor);
            self.current_interest_coefficient_e12.checked_mul(f).is_none()
        } else {
            false
        }
    }

    /// Whether the debt of vault `vault_id` at `now` leaves the integer
    /// ranges or divides by zero.
    fn debt_at_aborts(&self, vault_id: u128, now: u64) -> (r: bool)
        ensures
            r == !self@.debt_at_defined(vault_id, now),
    {
        if self.coefficient_at_aborts(now) {
            return true;
        }
        let cur = self._get_current_interest_coefficient_e12(now);
        let last = self._get_last_interest_coefficient_by_id_e12(vault_id);
        let debt = self._get_debt_by_id(vault_id);
        if cur == last {
            return false;
        }
        if last == 0 {
            return true;
        }
        let q = match debt.checked_mul(cur) {
            Some(p) => p / last,
            None => return true,
        };
        q != 0 && q.checked_add(1).is_none()
    }

    /// Whether bringing vault `vault_id` up to date at `now` leaves the
    /// integer ranges or divides by zero.
    pub fn update_vault_debt_aborts(&self, vault_id: u128, now: u64, owner: &AccountId) -> (r: bool)
        ensures
            r == !self@.update_vault_debt_defined(vault_id, now, *owner),
    {
        if self.debt_at_aborts(vault_id, now) {
            return true;
        }
        let cur = self._get_current_interest_coefficient_e12(now);
        let last = self._get_last_interest_coefficient_by_id_e12(vault_id);
        if cur == last {
            return false;
        }
        let debt = self._get_debt_by_id(vault_id);
        let updated = self._vault_debt_at(vault_id, now);
        if updated > debt {
            let amount = updated - debt;
            let a = u128_bits_as_i128(amount);
            if self.spgenerate.generated_profit.checked_add(a).is_none() {
                return true;
            }
            let share = match amount.checked_mul(self.spgenerate.sharing_part_e6) {
                Some(x) => x / E6,
                None => return true,
            };
            self.spgenerate._get_shares_minting_allowance(owner).checked_add(share).is_none()
                || self.total_debt.checked_add(amount).is_none()
        } else if updated < debt {
            let amount = debt - updated;
            let a = u128_bits_as_i128(amount);
            self.spgenerate.generated_profit.checked_sub(a).is_none() || self.total_debt < amount
        } else {
            false
        }
    }

    /// The total debt once vault `vault_id` is brought up to date at `now`.
    fn total_debt_after_update(&self, vault_id: u128, now: u64, owner: &AccountId) -> (r: u128)
        requires
            self@.update_vault_debt_defined(vault_id, now, *owner),
        ensures
            r == self@.update_vault_debt(vault_id, now, *owner).0.total_debt,
    {
        let debt = self._get_debt_by_id(vault_id);
        let updated = self._vault_debt_at(vault_id, now);
        if updated >= debt {
            self.total_debt + (updated - debt)
        } else {
            self.total_debt - (debt - updated)
        }
    }

    /// Whether the debt ceiling of vault `vault_id` at `collateral_price_e6`
    /// leaves the integer ranges or divides by zero.
    pub fn debt_ceiling_aborts(&self, vault_id: u128, collateral_price_e6: u128) -> (r: bool)
        ensures
            r == !self@.debt_ceiling_defined(vault_id, collateral_price_e6),
    {
        let collateral = self._get_collateral_by_id(vault_id);
        let value = match collateral.checked_mul(collateral_price_e6) {
            Some(p) => p / COLLATERAL_DECIMALS,
            None => return true,
        };
        value.checked_mul(E6).is_none() || self.current_minimum_collateral_coefficient_e6 == 0
    }

    /// Whether opening a vault overflows the vault ids.
    pub fn create_vault_aborts(&self) -> (r: bool)
        ensures
            r == !self@.create_vault_defined(),
    {
        self.next_id == u128::MAX
    }

    /// Whether the deposit overflows the collateral books.
    pub fn deposit_collateral_aborts(
        &self,
        caller: &AccountId,
        vault_id: u128,
        amount: u128,
        vault_owner: Option<AccountId>,
    ) -> (r: bool)
        ensures
            r == !self@.deposit_collateral_defined(*caller, vault_id, amount, vault_owner),
    {
        let owner = account_or_zero_exec(vault_owner);
        if !caller.equals(&owner) {
            return false;
        }
        self.collateral.collateral_amount.checked_add(amount).is_none()
            || self._get_collateral_by_id(vault_id).checked_add(amount).is_none()
    }

    /// Whether the withdrawal leaves the integer ranges or divides by zero.
    pub fn withdraw_collateral_aborts(
        &self,
        caller: &AccountId,
        now: u64,
        vault_id: u128,
        amount: u128,
        vault_owner: Option<AccountId>,
        collateral_price_e6: u128,
    ) -> (r: bool)
        ensures
            r == !self@.withdraw_collateral_defined(
                *caller,
                now,
                vault_id,
                amount,
                vault_owner,
                collateral_price_e6,
            ),
    {
        let owner = account_or_zero_exec(vault_owner);
        let vc = self._get_collateral_by_id(vault_id);
        if !caller.equals(&owner) || amount > vc {
            return false;
        }
        if self.update_vault_debt_aborts(vault_id, now, &owner) {
            return true;
        }
        let debt = self._vault_debt_at(vault_id, now);
        let after = vc - amount;
        let needed = match debt.checked_mul(self.current_minimum_collateral_coefficient_e6) {
            Some(x) => x,
            None => return true,
        };
        let value = match after.checked_mul(collateral_price_e6) {
            Some(x) => x / COLLATERAL_DECIMALS,
            None => return true,
        };
        let allowed = match value.checked_mul(E6) {
            Some(x) => x,
            None => return true,
        };
        needed <= allowed && self.collateral.collateral_amount < amount
    }

    /// Whether the loan leaves the integer ranges or divides by zero.
    pub fn borrow_token_aborts(
        &self,
        caller: &AccountId,
        now: u64,
        vault_id: u128,
        amount: u128,
        vault_owner: Option<AccountId>,
        collateral_price_e6: u128,
    ) -> (r: bool)
        ensures
            r == !self@.borrow_token_defined(
                *caller,
                now,
                vault_id,
                amount,
                vault_owner,
                collateral_price_e6,
            ),
    {
        let owner = account_or_zero_exec(vault_owner);
        if self.paused || !caller.equals(&owner) {
            return false;
        }
        if self.debt_ceiling_aborts(vault_id, collateral_price_e6) || self.update_vault_debt_aborts(
            vault_id,
            now,
            &owner,
        ) {
            return true;
        }
        let ceiling = self._get_debt_ceiling(vault_id, collateral_price_e6);
        let debt = self._vault_debt_at(vault_id, now);
        let wanted = match debt.checked_add(amount) {
            Some(x) => x,
            None => return true,
        };
        let total = self.total_debt_after_update(vault_id, now, &owner);
        wanted <= ceiling && (total.checked_add(amount).is_none()
            || self.emit.emited_amount.checked_add(amount).is_none())
    }

    /// Whether the payment underflows the debt books.
    pub fn pay_back_token_aborts(
        &self,
        caller: &AccountId,
        now: u64,
        vault_id: u128,
        amount: u128,
        vault_owner: Option<AccountId>,
    ) -> (r: bool)
        ensures
            r == !self@.pay_back_token_defined(*caller, now, vault_id, amount, vault_owner),
    {
        let owner = account_or_zero_exec(vault_owner);
        if !caller.equals(&owner) {
            return false;
        }
        if self.update_vault_debt_aborts(vault_id, now, &owner) {
            return true;
        }
        let debt = self._vault_debt_at(vault_id, now);
        let paid = if amount >= debt {
            debt
        } else {
            amount
        };
        let total = self.total_debt_after_update(vault_id, now, &owner);
        self.emit.emited_amount < paid || total < paid
    }

    /// Whether the liquidation leaves the integer ranges or divides by zero.
    pub fn buy_risky_vault_aborts(
        &self,
        caller: &AccountId,
        now: u64,
        vault_id: u128,
        vault_owner: Option<AccountId>,
        collateral_price_e6: u128,
    ) -> (r: bool)
        ensures
            r == !self@.buy_risky_vault_defined(
                *caller,
                now,
                vault_id,
                vault_owner,
                collateral_price_e6,
            ),
    {
        if !caller.equals(&self.liquidator_address) {
            return false;
        }
        let owner = account_or_zero_exec(vault_owner);
        if self.debt_ceiling_aborts(vault_id, collateral_price_e6) || self.update_vault_debt_aborts(
            vault_id,
            now,
            &owner,
        ) {
            return true;
        }
        let ceiling = self._get_debt_ceiling(vault_id, collateral_price_e6);
        let debt = self._vault_debt_at(vault_id, now);
        let total = self.total_debt_after_update(vault_id, now, &owner);
        ceiling < debt && (self.emit.emited_amount < debt || total < debt)
    }

    /// Whether setting the controller's steps leaves the integer ranges.
    pub fn be_controlled_aborts(
        &self,
        caller: &AccountId,
        current_interest_rate_step: i16,
        current_collateral_step: u16,
    ) -> (r: bool)
        ensures
            r == !self@.be_controlled_defined(
                *caller,
                current_interest_rate_step,
                current_collateral_step,
            ),
    {
        if !caller.equals(&self.controller_address) {
            return false;
        }
        if (current_interest_rate_step as i128).checked_mul(
            self.interest_rate_step_value_e12,
        ).is_none() {
            return true;
        }
        match (current_collateral_step as u128).checked_mul(self.collateral_step_value_e6) {
            Some(x) => x > self.maximum_minimum_collateral_coefficient_e6,
            None => true,
        }
    }

    /// Whether the vault details at `now` leave the integer ranges or divide
    /// by zero.
    pub fn vault_details_aborts(&self, vault_id: u128, now: u64) -> (r: bool)
        ensures
            r == !self@.debt_at_defined(vault_id, now),
    {
        self.debt_at_aborts(vault_id, now)
    }

    pub fn get_next_id(&self) -> (r: u128)
        ensures
            r == self.next_id,
    {
        self.next_id
    }

    pub fn get_total_debt(&self) -> (r: u128)
        ensures
            r == self.total_debt,
    {
        self.total_debt
    }

    /// The collateral of vault `vault_id`, and its debt at `now`: the debt
    /// that bringing the vault up to date at `now` would store.
    pub fn get_vault_details(&self, vault_id: u128, now: u64) -> (r: (u128, u128))
        requires
            self@.debt_at_defined(vault_id, now),
        ensures
            r.0 == self@.collateral_of(vault_id),
            r.1 == self@.debt_at(vault_id, now),
    {
        (self._get_collateral_by_id(vault_id), self._vault_debt_at(vault_id, now))
    }

    pub fn get_vault_controller_address(&self) -> (r: AccountId)
        ensures
            r == self.controller_address,
    {
        self.controller_address
    }

    pub fn get_oracle_address(&self) -> (r: AccountId)
        ensures
            r == self.oracle_address,
    {
        self.oracle_address
    }

    pub fn get_liquidator_address(&self) -> (r: AccountId)
        ensures
            r == self.liquidator_address,
    {
        self.liquidator_address
    }
}

} // verus!
