//! What every vault message keeps, and what the lending messages promise.
use vstd::prelude::*;
use vstd::set::fold::{is_fun_commutative, lemma_fold_insert, lemma_fold_empty};
use crate::account::AccountId;
use crate::vault::{VaultModel, VaultAction, collateral_value, account_or_zero};
use crate::arith::E6;
use crate::errors::{PausableError, VaultError};

verus! {

/// A message to the vault, with what the outside world answered for it.
pub enum VaultMessage {
    CreateVault { caller: AccountId },
    DestroyVault { caller: AccountId, vault_id: u128, vault_owner: Option<AccountId> },
    DepositCollateral {
        caller: AccountId,
        vault_id: u128,
        amount: u128,
        vault_owner: Option<AccountId>,
    },
    WithdrawCollateral {
        caller: AccountId,
        now: u64,
        vault_id: u128,
        amount: u128,
        vault_owner: Option<AccountId>,
        price_e6: u128,
    },
    BorrowToken {
        caller: AccountId,
        now: u64,
        vault_id: u128,
        amount: u128,
        vault_owner: Option<AccountId>,
        price_e6: u128,
    },
    PayBackToken {
        caller: AccountId,
        now: u64,
        vault_id: u128,
        amount: u128,
        vault_owner: Option<AccountId>,
    },
    BuyRiskyVault {
        caller: AccountId,
        now: u64,
        vault_id: u128,
        vault_owner: Option<AccountId>,
        price_e6: u128,
    },
    BeControlled { caller: AccountId, interest_rate_step: i16, collateral_step: u16 },
    SetVaultControllerAddress { caller: AccountId, address: AccountId },
    SetOracleAddress { caller: AccountId, address: AccountId },
    SetLiquidatorAddress { caller: AccountId, address: AccountId },
    SetSharesProfitControllerAddress { caller: AccountId, address: AccountId },
    Pause { caller: AccountId },
    Unpause { caller: AccountId },
    MintShares { caller: AccountId },
}

/// The state after a message's result, when it succeeded.
pub open spec fn next_state<T, E>(r: Result<(VaultModel, T), E>) -> Option<VaultModel> {
    match r {
        Ok((m, _)) => Some(m),
        Err(_) => None,
    }
}

impl VaultModel {
    /// Whether `msg` runs without leaving the integer ranges.
    pub open spec fn step_defined(self, msg: VaultMessage) -> bool {
        match msg {
            VaultMessage::CreateVault { .. } => self.create_vault_defined(),
            VaultMessage::DepositCollateral { caller, vault_id, amount, vault_owner } =>
                self.deposit_collateral_defined(caller, vault_id, amount, vault_owner),
            VaultMessage::WithdrawCollateral {
                caller,
                now,
                vault_id,
                amount,
                vault_owner,
                price_e6,
            } => self.withdraw_collateral_defined(
                caller,
                now,
                vault_id,
                amount,
                vault_owner,
                price_e6,
            ),
            VaultMessage::BorrowToken { caller, now, vault_id, amount, vault_owner, price_e6 } =>
                self.borrow_token_defined(caller, now, vault_id, amount, vault_owner, price_e6),
            VaultMessage::PayBackToken { caller, now, vault_id, amount, vault_owner } =>
                self.pay_back_token_defined(caller, now, vault_id, amount, vault_owner),
            VaultMessage::BuyRiskyVault { caller, now, vault_id, vault_owner, price_e6 } =>
                self.buy_risky_vault_defined(caller, now, vault_id, vault_owner, price_e6),
            VaultMessage::BeControlled { caller, interest_rate_step, collateral_step } =>
                self.be_controlled_defined(caller, interest_rate_step, collateral_step),
            _ => true,
        }
    }

    /// The state after `msg`, or none when it is refused.
    pub open spec fn step(self, msg: VaultMessage) -> Option<VaultModel> {
        match msg {
            VaultMessage::CreateVault { caller } => Some(self.create_vault(caller).0),
            VaultMessage::DestroyVault { caller, vault_id, vault_owner } => next_state(
                self.destroy_vault(caller, vault_id, vault_owner),
            ),
            VaultMessage::DepositCollateral { caller, vault_id, amount, vault_owner } => next_state(
                self.deposit_collateral(caller, vault_id, amount, vault_owner),
            ),
            VaultMessage::WithdrawCollateral {
                caller,
                now,
                vault_id,
                amount,
                vault_owner,
                price_e6,
            } => next_state(
                self.withdraw_collateral(caller, now, vault_id, amount, vault_owner, price_e6),
            ),
            VaultMessage::BorrowToken { caller, now, vault_id, amount, vault_owner, price_e6 } =>
                next_state(self.borrow_token(caller, now, vault_id, amount, vault_owner, price_e6)),
            VaultMessage::PayBackToken { caller, now, vault_id, amount, vault_owner } => next_state(
                self.pay_back_token(caller, now, vault_id, amount, vault_owner),
            ),
            VaultMessage::BuyRiskyVault { caller, now, vault_id, vault_owner, price_e6 } =>
                next_state(self.buy_risky_vault(caller, now, vault_id, vault_owner, price_e6)),
            VaultMessage::BeControlled { caller, interest_rate_step, collateral_step } => next_state(
                self.be_controlled(caller, interest_rate_step, collateral_step),
            ),
            VaultMessage::SetVaultControllerAddress { caller, address } => next_state(
                self.set_vault_controller_address(caller, address),
            ),
            VaultMessage::SetOracleAddress { caller, address } => next_state(
                self.set_oracle_address(caller, address),
            ),
            VaultMessage::SetLiquidatorAddress { caller, address } => next_state(
                self.set_liquidator_address(caller, address),
            ),
            VaultMessage::SetSharesProfitControllerAddress { caller, address } => next_state(
                self.set_shares_profit_controller_address(caller, address),
            ),
            VaultMessage::Pause { caller } => next_state(self.pause(caller)),
            VaultMessage::Unpause { caller } => next_state(self.unpause(caller)),
            VaultMessage::MintShares { caller } => Some(self.mint_shares(caller).0),
        }
    }
}

/// Bringing a vault's debt up to date touches neither the collateral nor
/// the emitted stable coin.
proof fn lemma_update_keeps_collateral(m: VaultModel, id: u128, now: u64, owner: AccountId)
    ensures
        m.update_vault_debt(id, now, owner).0.emited_amount == m.emited_amount,
        m.update_vault_debt(id, now, owner).0.collateral_amount == m.collateral_amount,
        m.update_vault_debt(id, now, owner).0.collateral_by_id == m.collateral_by_id,
{
}

/// The step of the sum of a map's values: adds the value stored for `k`.
pub open spec fn add_value(m: Map<u128, u128>) -> spec_fn(int, u128) -> int {
    |acc: int, k: u128| acc + m[k]
}

/// The sum of the values of a finite map.
pub open spec fn sum_values(m: Map<u128, u128>) -> int {
    m.dom().fold(0int, add_value(m))
}

proof fn lemma_add_value_commutative(m: Map<u128, u128>)
    ensures
        is_fun_commutative(add_value(m)),
{
    assert forall|a1: u128, a2: u128, b: int|
        #[trigger] add_value(m)(add_value(m)(b, a2), a1) == add_value(m)(add_value(m)(b, a1), a2) by {
    }
}

/// Folding the values of two maps over a set of keys on which they agree
/// gives the same sum.
proof fn lemma_fold_agree(s: Set<u128>, m1: Map<u128, u128>, m2: Map<u128, u128>, z: int)
    requires
        s.finite(),
        forall|k: u128| #[trigger] s.contains(k) ==> m1[k] == m2[k],
    ensures
        s.fold(z, add_value(m1)) == s.fold(z, add_value(m2)),
    decreases s.len(),
{
    lemma_add_value_commutative(m1);
    lemma_add_value_commutative(m2);
    if s.len() == 0 {
        assert(s =~= Set::empty());
        lemma_fold_empty(z, add_value(m1));
        lemma_fold_empty(z, add_value(m2));
    } else {
        let a = s.choose();
        let t = s.remove(a);
        assert(s =~= t.insert(a));
        lemma_fold_agree(t, m1, m2, z);
        lemma_fold_insert(t, z, add_value(m1), a);
        lemma_fold_insert(t, z, add_value(m2), a);
    }
}

/// Storing `v` for `k` changes the sum of a finite map's values by the
/// difference from what was stored for `k` (zero when nothing was).
pub proof fn lemma_sum_values_insert(m: Map<u128, u128>, k: u128, v: u128)
    requires
        m.dom().finite(),
    ensures
        m.insert(k, v).dom().finite(),
        sum_values(m.insert(k, v)) == sum_values(m) - crate::vault::lookup(m, k) + v,
{
    let n = m.insert(k, v);
    lemma_add_value_commutative(m);
    lemma_add_value_commutative(n);
    let rest = m.dom().remove(k);
    assert(n.dom() =~= rest.insert(k));
    lemma_fold_agree(rest, m, n, 0int);
    lemma_fold_insert(rest, 0int, add_value(n), k);
    if m.dom().contains(k) {
        assert(m.dom() =~= rest.insert(k));
        lemma_fold_insert(rest, 0int, add_value(m), k);
    } else {
        assert(m.dom() =~= rest);
    }
}

/// The total debt is the sum of the vaults' debts.
pub open spec fn debt_summed(m: VaultModel) -> bool {
    &&& m.debt_by_id.dom().finite()
    &&& m.total_debt == sum_values(m.debt_by_id)
}

/// Bringing a vault up to date keeps the total debt the sum of the vaults'
/// debts, and leaves the vault owing its debt at that time.
proof fn lemma_update_keeps_debt_summed(m: VaultModel, id: u128, now: u64, owner: AccountId)
    requires
        debt_summed(m),
        m.update_vault_debt_defined(id, now, owner),
    ensures
        debt_summed(m.update_vault_debt(id, now, owner).0),
        m.update_vault_debt(id, now, owner).0.debt_of(id) == m.update_vault_debt(id, now, owner).1,
        m.update_vault_debt(id, now, owner).1 == m.debt_at(id, now),
{
    if m.coefficient_at(now) != m.last_coefficient_of(id) {
        lemma_sum_values_insert(m.debt_by_id, id, m.debt_at(id, now));
    }
}

/// Every vault message keeps the total debt equal to the sum of the vaults'
/// debts, except that opening a vault resets the debt booked under the next
/// id, which must therefore be zero.
pub proof fn lemma_step_keeps_total_debt_summed(m: VaultModel, msg: VaultMessage)
    requires
        debt_summed(m),
        m.step_defined(msg),
        msg is CreateVault ==> m.debt_of(m.next_id) == 0,
    ensures
        m.step(msg) matches Some(n) ==> debt_summed(n),
{
    match msg {
        VaultMessage::CreateVault { caller } => {
            lemma_sum_values_insert(m.debt_by_id, m.next_id, 0);
        },
        VaultMessage::WithdrawCollateral { caller, now, vault_id, amount, vault_owner, price_e6 } => {
            let owner = account_or_zero(vault_owner);
            if caller == owner && amount <= m.collateral_of(vault_id) {
                lemma_update_keeps_debt_summed(m, vault_id, now, owner);
            }
        },
        VaultMessage::BorrowToken { caller, now, vault_id, amount, vault_owner, price_e6 } => {
            let owner = account_or_zero(vault_owner);
            if !m.paused && caller == owner {
                lemma_update_keeps_debt_summed(m, vault_id, now, owner);
                let (s, d, a) = m.update_vault_debt(vault_id, now, owner);
                lemma_sum_values_insert(s.debt_by_id, vault_id, (d + amount) as u128);
            }
        },
        VaultMessage::PayBackToken { caller, now, vault_id, amount, vault_owner } => {
            let owner = account_or_zero(vault_owner);
            if caller == owner {
                lemma_update_keeps_debt_summed(m, vault_id, now, owner);
                let (s, d, a) = m.update_vault_debt(vault_id, now, owner);
                let paid = VaultModel::settled(d, amount);
                lemma_sum_values_insert(s.debt_by_id, vault_id, (d - paid) as u128);
            }
        },
        VaultMessage::BuyRiskyVault { caller, now, vault_id, vault_owner, price_e6 } => {
            let owner = account_or_zero(vault_owner);
            if caller == m.liquidator_address {
                lemma_update_keeps_debt_summed(m, vault_id, now, owner);
                let (s, d, a) = m.update_vault_debt(vault_id, now, owner);
                lemma_sum_values_insert(s.debt_by_id, vault_id, 0);
            }
        },
        _ => {},
    }
}

/// The collateral the vault holds is the sum of its vaults' collateral.
pub open spec fn collateral_balanced(m: VaultModel) -> bool {
    &&& m.collateral_by_id.dom().finite()
    &&& m.collateral_amount == sum_values(m.collateral_by_id)
}

/// Every vault message keeps the collateral the vault holds equal to the sum
/// of its vaults' collateral, except that opening a vault resets the
/// collateral booked under the next id, which must therefore be zero.
pub proof fn lemma_step_keeps_collateral_balanced(m: VaultModel, msg: VaultMessage)
    requires
        collateral_balanced(m),
        m.step_defined(msg),
        msg is CreateVault ==> m.collateral_of(m.next_id) == 0,
    ensures
        m.step(msg) matches Some(n) ==> collateral_balanced(n),
{
    match msg {
        VaultMessage::CreateVault { caller } => {
            lemma_sum_values_insert(m.collateral_by_id, m.next_id, 0);
        },
        VaultMessage::DepositCollateral { caller, vault_id, amount, vault_owner } => {
            let c = m.collateral_of(vault_id);
            lemma_sum_values_insert(m.collateral_by_id, vault_id, (c + amount) as u128);
        },
        VaultMessage::WithdrawCollateral { caller, now, vault_id, amount, vault_owner, price_e6 } => {
            let owner = account_or_zero(vault_owner);
            lemma_update_keeps_collateral(m, vault_id, now, owner);
            let c = m.collateral_of(vault_id);
            lemma_sum_values_insert(m.collateral_by_id, vault_id, (c - amount) as u128);
        },
        VaultMessage::BorrowToken { caller, now, vault_id, vault_owner, .. } => {
            lemma_update_keeps_collateral(m, vault_id, now, account_or_zero(vault_owner));
        },
        VaultMessage::PayBackToken { caller, now, vault_id, vault_owner, .. } => {
            lemma_update_keeps_collateral(m, vault_id, now, account_or_zero(vault_owner));
        },
        VaultMessage::BuyRiskyVault { caller, now, vault_id, vault_owner, .. } => {
            lemma_update_keeps_collateral(m, vault_id, now, account_or_zero(vault_owner));
        },
        _ => {},
    }
}


/// A vault contract with no vaults is balanced: no collateral is held and
/// no debt is owed.
pub proof fn lemma_empty_vault_invariants(m: VaultModel)
    requires
        m.collateral_by_id == Map::<u128, u128>::empty(),
        m.debt_by_id == Map::<u128, u128>::empty(),
        m.collateral_amount == 0,
        m.total_debt == 0,
    ensures
        collateral_balanced(m),
        debt_summed(m),
{
    assert(m.collateral_by_id.dom() =~= Set::<u128>::empty());
    lemma_fold_empty(0int, add_value(m.collateral_by_id));
    lemma_fold_empty(0int, add_value(m.debt_by_id));
}

/// Bringing a vault up to date twice at the same time changes nothing the
/// second time: same state, same debt, no calls.
pub proof fn lemma_update_vault_debt_idempotent(m: VaultModel, id: u128, now: u64, owner: AccountId)
    requires
        m.update_vault_debt_defined(id, now, owner),
    ensures
        ({
            let (n, d, a) = m.update_vault_debt(id, now, owner);
            n.update_vault_debt(id, now, owner) == (n, d, Seq::<VaultAction>::empty())
        }),
{
    let (n, d, a) = m.update_vault_debt(id, now, owner);
    assert(n.with_coefficient_updated(now) == n);
}

/// With a rate that is not negative, the interest coefficient never falls.
pub proof fn lemma_coefficient_grows_with_nonnegative_rate(m: VaultModel, now: u64)
    requires
        m.coefficient_at_defined(now),
        m.current_interest_rate_e12 >= 0,
    ensures
        m.coefficient_at(now) >= m.current_interest_coefficient_e12,
{
    if now > m.last_interest_coefficient_timestamp {
        let dt = now - m.last_interest_coefficient_timestamp;
        let f = m.accrual_factor(dt);
        let c = m.current_interest_coefficient_e12 as int;
        assert(dt * m.current_interest_rate_e12 >= 0) by (nonlinear_arith)
            requires
                dt >= 0,
                m.current_interest_rate_e12 >= 0,
        ;
        assert(c * f / 1_000_000_000_000int >= c) by (nonlinear_arith)
            requires
                f >= 1_000_000_000_000int,
                c >= 0,
        ;
    }
}

/// What is read without storing is what an update stores: the coefficient
/// read at `now` is the one that bringing the coefficient forward stores,
/// and the debt of a vault at `now` (as the vault details report it) is the
/// debt that bringing the vault up to date at `now` stores and returns.
pub proof fn lemma_reads_match_updates(m: VaultModel, id: u128, now: u64, owner: AccountId)
    ensures
        m.with_coefficient_updated(now).current_interest_coefficient_e12 == m.coefficient_at(now),
        m.update_vault_debt(id, now, owner).1 == m.debt_at(id, now),
        m.update_vault_debt(id, now, owner).0.debt_of(id) == m.debt_at(id, now),
        m.update_vault_debt(id, now, owner).0.current_interest_coefficient_e12 == m.coefficient_at(
            now,
        ),
{
}

/// With a rate that is not negative, a vault's debt never shrinks: its debt
/// at any later time is at least its stored debt. This needs the vault's
/// last coefficient to be at most the current one, which holds as long as
/// the rate has never been negative since the vault was last brought up to
/// date.
pub proof fn lemma_debt_grows_with_nonnegative_rate(m: VaultModel, id: u128, now: u64)
    requires
        m.debt_at_defined(id, now),
        m.current_interest_rate_e12 >= 0,
        m.last_coefficient_of(id) <= m.current_interest_coefficient_e12,
    ensures
        m.debt_at(id, now) >= m.debt_of(id),
{
    lemma_coefficient_grows_with_nonnegative_rate(m, now);
    let cur = m.coefficient_at(now);
    let last = m.last_coefficient_of(id);
    let d = m.debt_of(id);
    if cur != last {
        let q = d * cur / (last as int);
        assert(q >= d) by (nonlinear_arith)
            requires
                q == d * cur / (last as int),
                0 < last <= cur,
                d >= 0,
        ;
    }
}

/// A loan that is granted leaves the vault's debt within the ceiling taken
/// before the loan, raises the emitted stable coin by exactly the amount
/// lent, and moves the total debt exactly as the vault's debt moved.
pub proof fn lemma_borrow_within_ceiling(
    m: VaultModel,
    caller: AccountId,
    now: u64,
    id: u128,
    amount: u128,
    vault_owner: Option<AccountId>,
    price_e6: u128,
)
    requires
        m.borrow_token_defined(caller, now, id, amount, vault_owner, price_e6),
    ensures
        m.borrow_token(caller, now, id, amount, vault_owner, price_e6) matches Ok((n, _)) ==> {
            &&& n.debt_of(id) == m.debt_at(id, now) + amount
            &&& n.debt_of(id) <= m.debt_ceiling(id, price_e6)
            &&& n.total_debt == m.total_debt - m.debt_of(id) + n.debt_of(id)
            &&& n.emited_amount == m.emited_amount + amount
        },
{
    lemma_update_keeps_collateral(m, id, now, account_or_zero(vault_owner));
}

/// A withdrawal is granted to the owner of a vault holding at least the
/// amount exactly when the vault's debt, brought up to date, stays within
/// the debt ceiling of the collateral left (the ceiling that lending uses);
/// it then takes the amount from the vault and from the collateral held.
pub proof fn lemma_withdraw_keeps_vault_covered(
    m: VaultModel,
    now: u64,
    id: u128,
    amount: u128,
    vault_owner: Option<AccountId>,
    price_e6: u128,
)
    requires
        m.withdraw_collateral_defined(account_or_zero(vault_owner), now, id, amount, vault_owner, price_e6),
        amount <= m.collateral_of(id),
        m.current_minimum_collateral_coefficient_e6 != 0,
    ensures
        ({
            let owner = account_or_zero(vault_owner);
            let after = (m.collateral_of(id) - amount) as u128;
            let r = m.withdraw_collateral(owner, now, id, amount, vault_owner, price_e6);
            &&& r is Ok <==> m.debt_at(id, now) <= m.ceiling_for(after, price_e6)
            &&& r matches Ok((n, _)) ==> {
                &&& n.debt_of(id) <= n.debt_ceiling(id, price_e6)
                &&& n.collateral_of(id) == after
                &&& n.collateral_amount == m.collateral_amount - amount
            }
        }),
{
    let owner = account_or_zero(vault_owner);
    lemma_update_keeps_collateral(m, id, now, owner);
    let after = (m.collateral_of(id) - amount) as u128;
    let d = m.debt_at(id, now);
    let c = m.current_minimum_collateral_coefficient_e6;
    let x = collateral_value(after, price_e6) * 1_000_000int;
    assert(x >= 0) by (nonlinear_arith)
        requires
            x == collateral_value(after, price_e6) * 1_000_000int,
            collateral_value(after, price_e6) >= 0,
    {
    }
    assert((d * c <= x) <==> (d <= x / (c as int))) by (nonlinear_arith)
        requires
            c > 0,
            x >= 0,
            d >= 0,
    ;
    assert(collateral_value(after, price_e6) >= 0) by (nonlinear_arith);
}

/// A payment lowers the vault's debt at that time by what it settles, the
/// emitted stable coin by the same, and moves the total debt exactly as the
/// vault's debt moved.
pub proof fn lemma_pay_back_settles(
    m: VaultModel,
    caller: AccountId,
    now: u64,
    id: u128,
    amount: u128,
    vault_owner: Option<AccountId>,
)
    requires
        m.pay_back_token_defined(caller, now, id, amount, vault_owner),
    ensures
        m.pay_back_token(caller, now, id, amount, vault_owner) matches Ok((n, _)) ==> {
            let d = m.debt_at(id, now);
            let paid = VaultModel::settled(d, amount);
            &&& n.debt_of(id) == d - paid
            &&& n.total_debt == m.total_debt - m.debt_of(id) + n.debt_of(id)
            &&& n.emited_amount == m.emited_amount - paid
            &&& (amount >= d ==> n.debt_of(id) == 0)
        },
{
    lemma_update_keeps_collateral(m, id, now, account_or_zero(vault_owner));
}

/// A liquidation clears the vault's debt and hands its token to the
/// liquidator.
pub proof fn lemma_liquidation_clears_debt(
    m: VaultModel,
    caller: AccountId,
    now: u64,
    id: u128,
    vault_owner: Option<AccountId>,
    price_e6: u128,
)
    requires
        m.buy_risky_vault_defined(caller, now, id, vault_owner, price_e6),
    ensures
        m.buy_risky_vault(caller, now, id, vault_owner, price_e6) matches Ok((n, acts)) ==> {
            &&& n.debt_of(id) == 0
            &&& acts.contains(
                VaultAction::MoveVaultToken { from: account_or_zero(vault_owner), to: caller, id },
            )
        },
{
    let owner = account_or_zero(vault_owner);
    let (s, debt, a) = m.update_vault_debt(id, now, owner);
    if let Ok((n, acts)) = m.buy_risky_vault(caller, now, id, vault_owner, price_e6) {
        assert(acts[a.len() as int + 2] == VaultAction::MoveVaultToken { from: owner, to: caller, id });
    }
}

/// Destroying a vault never changes the vault contract's state: only the
/// vault token is burned.
pub proof fn lemma_destroy_keeps_state(
    m: VaultModel,
    caller: AccountId,
    id: u128,
    vault_owner: Option<AccountId>,
)
    ensures
        m.destroy_vault(caller, id, vault_owner) matches Ok((n, _)) ==> n == m,
{
}


/// A withdrawal undoes a deposit: when the owner of a vault without debt
/// deposits an amount and withdraws it again, the vault and the contract
/// hold the collateral they held before. The inputs left out are those on
/// which a step traps: the collateral books overflow, the coefficient cannot
/// be brought forward or the vault's last coefficient is zero, or the value
/// of the collateral overflows.
pub proof fn lemma_withdraw_undoes_deposit(
    m: VaultModel,
    owner: AccountId,
    now: u64,
    id: u128,
    amount: u128,
    price_e6: u128,
)
    requires
        m.debt_of(id) == 0,
        m.collateral_amount + amount <= u128::MAX,
        m.collateral_of(id) + amount <= u128::MAX,
        m.coefficient_at_defined(now),
        m.coefficient_at(now) != m.last_coefficient_of(id) ==> m.last_coefficient_of(id) != 0,
        m.collateral_of(id) * price_e6 <= u128::MAX,
        collateral_value(m.collateral_of(id), price_e6) * E6 <= u128::MAX,
    ensures
        m.deposit_collateral(owner, id, amount, Some(owner)) matches Ok((m1, _)) && (
        m1.withdraw_collateral(owner, now, id, amount, Some(owner), price_e6) matches Ok((m2, _))
            && m2.collateral_of(id) == m.collateral_of(id) && m2.collateral_amount
            == m.collateral_amount),
{
    let (m1, a1) = m.deposit_collateral(owner, id, amount, Some(owner)).unwrap();
    lemma_update_keeps_collateral(m1, id, now, owner);
    assert(m1.debt_of(id) == 0);
    assert(m1.coefficient_at(now) == m.coefficient_at(now));
    let cur = m1.coefficient_at(now);
    if cur != m1.last_coefficient_of(id) {
        assert(m1.debt_of(id) * cur == 0) by (nonlinear_arith)
            requires
                m1.debt_of(id) == 0,
        ;
        assert(m1.scaled_debt(id, cur) == 0);
    }
    assert(m1.debt_at(id, now) == 0);
    let (s, debt, acts) = m1.update_vault_debt(id, now, owner);
    assert(debt == 0);
    assert(debt * m1.current_minimum_collateral_coefficient_e6 == 0) by (nonlinear_arith)
        requires
            debt == 0,
    ;
    assert(m1.collateral_of(id) == m.collateral_of(id) + amount);
    assert(collateral_value(m.collateral_of(id), price_e6) >= 0) by (nonlinear_arith);
    assert(m1.within_ceiling(debt, m.collateral_of(id), price_e6));
    assert(m1.withdraw_collateral_defined(owner, now, id, amount, Some(owner), price_e6));
}

/// Paying back what was just borrowed, at the same instant, restores the
/// emitted stable coin, and the vault's debt and the total debt as bringing
/// the vault up to date left them.
pub proof fn lemma_pay_back_undoes_borrow(
    m: VaultModel,
    owner: AccountId,
    now: u64,
    id: u128,
    amount: u128,
    price_e6: u128,
)
    requires
        m.borrow_token_defined(owner, now, id, amount, Some(owner), price_e6),
        m.borrow_token(owner, now, id, amount, Some(owner), price_e6) matches Ok((m1, _))
            && m1.pay_back_token_defined(owner, now, id, amount, Some(owner)),
    ensures
        m.borrow_token(owner, now, id, amount, Some(owner), price_e6) matches Ok((m1, _)) && (
        m1.pay_back_token(owner, now, id, amount, Some(owner)) matches Ok((m2, _))
            && m2.debt_of(id) == m.debt_at(id, now) && m2.total_debt
            == m.update_vault_debt(id, now, owner).0.total_debt && m2.emited_amount
            == m.emited_amount),
{
    let (m1, a1) = m.borrow_token(owner, now, id, amount, Some(owner), price_e6).unwrap();
    lemma_update_keeps_collateral(m, id, now, owner);
    let (s, debt, acts) = m.update_vault_debt(id, now, owner);
    lemma_update_vault_debt_idempotent(m, id, now, owner);
    assert(m1.with_coefficient_updated(now) == m1);
    assert(m1.last_coefficient_of(id) == m1.current_interest_coefficient_e12);
    assert(m1.update_vault_debt(id, now, owner).1 == debt + amount);
}

/// The account a message comes from.
pub open spec fn sender(msg: VaultMessage) -> AccountId {
    match msg {
        VaultMessage::CreateVault { caller } => caller,
        VaultMessage::DestroyVault { caller, .. } => caller,
        VaultMessage::DepositCollateral { caller, .. } => caller,
        VaultMessage::WithdrawCollateral { caller, .. } => caller,
        VaultMessage::BorrowToken { caller, .. } => caller,
        VaultMessage::PayBackToken { caller, .. } => caller,
        VaultMessage::BuyRiskyVault { caller, .. } => caller,
        VaultMessage::BeControlled { caller, .. } => caller,
        VaultMessage::SetVaultControllerAddress { caller, .. } => caller,
        VaultMessage::SetOracleAddress { caller, .. } => caller,
        VaultMessage::SetLiquidatorAddress { caller, .. } => caller,
        VaultMessage::SetSharesProfitControllerAddress { caller, .. } => caller,
        VaultMessage::Pause { caller } => caller,
        VaultMessage::Unpause { caller } => caller,
        VaultMessage::MintShares { caller } => caller,
    }
}

/// Whether what the outside world answered for `msg` fits the state `m`:
/// a vault that was never opened (an id from `next_id` on) has no vault
/// token, so no holder.
pub open spec fn answers_fit(m: VaultModel, msg: VaultMessage) -> bool {
    match msg {
        VaultMessage::DestroyVault { vault_id, vault_owner, .. } => vault_id >= m.next_id
            ==> vault_owner is None,
        VaultMessage::DepositCollateral { vault_id, vault_owner, .. } => vault_id >= m.next_id
            ==> vault_owner is None,
        VaultMessage::WithdrawCollateral { vault_id, vault_owner, .. } => vault_id >= m.next_id
            ==> vault_owner is None,
        VaultMessage::BorrowToken { vault_id, vault_owner, .. } => vault_id >= m.next_id
            ==> vault_owner is None,
        VaultMessage::PayBackToken { vault_id, vault_owner, .. } => vault_id >= m.next_id
            ==> vault_owner is None,
        VaultMessage::BuyRiskyVault { vault_id, vault_owner, .. } => vault_id >= m.next_id
            ==> vault_owner is None,
        _ => true,
    }
}

/// The state after `msg` as the chain keeps it: a message that is refused,
/// or that traps on the integer ranges, is reverted.
pub open spec fn apply(m: VaultModel, msg: VaultMessage) -> VaultModel {
    if m.step_defined(msg) {
        match m.step(msg) {
            Some(n) => n,
            None => m,
        }
    } else {
        m
    }
}

/// The state after the messages `msgs`, in order.
pub open spec fn run(m: VaultModel, msgs: Seq<VaultMessage>) -> VaultModel
    decreases msgs.len(),
{
    if msgs.len() == 0 {
        m
    } else {
        run(apply(m, msgs[0]), msgs.drop_first())
    }
}

/// Whether every message of `msgs`, from state `m` on, comes from an account
/// other than the all-zero one and has answers that fit the state it meets.
pub open spec fn run_fits(m: VaultModel, msgs: Seq<VaultMessage>) -> bool
    decreases msgs.len(),
{
    if msgs.len() == 0 {
        true
    } else {
        &&& sender(msgs[0]) != AccountId::spec_zero()
        &&& answers_fit(m, msgs[0])
        &&& run_fits(apply(m, msgs[0]), msgs.drop_first())
    }
}

/// No vault id from `next_id` on holds collateral or debt.
pub open spec fn fresh_ids_empty(m: VaultModel) -> bool {
    forall|k: u128|
        #![trigger m.collateral_of(k)]
        #![trigger m.debt_of(k)]
        k >= m.next_id ==> m.collateral_of(k) == 0 && m.debt_of(k) == 0
}

/// The books of the vault contract: the collateral held is the sum of the
/// vaults' collateral, the total debt the sum of their debts, and no vault
/// that was never opened holds anything.
pub open spec fn books_kept(m: VaultModel) -> bool {
    &&& collateral_balanced(m)
    &&& debt_summed(m)
    &&& fresh_ids_empty(m)
}

/// A vault that was never opened owes nothing at any time.
proof fn lemma_fresh_vault_owes_nothing(m: VaultModel, id: u128, now: u64, price_e6: u128)
    requires
        m.debt_of(id) == 0,
        m.collateral_of(id) == 0,
        m.debt_at_defined(id, now),
        m.current_minimum_collateral_coefficient_e6 != 0,
    ensures
        m.debt_at(id, now) == 0,
        m.debt_ceiling(id, price_e6) == 0,
{
    let cur = m.coefficient_at(now);
    let last = m.last_coefficient_of(id) as int;
    if cur != m.last_coefficient_of(id) {
        assert(m.debt_of(id) * cur / last == 0) by (nonlinear_arith)
            requires
                m.debt_of(id) == 0,
                last != 0,
        ;
    }
    let c = m.current_minimum_collateral_coefficient_e6 as int;
    let v = m.collateral_of(id) * price_e6 / 1_000_000_000_000int;
    assert(v == 0) by (nonlinear_arith)
        requires
            m.collateral_of(id) == 0,
            v == m.collateral_of(id) * price_e6 / 1_000_000_000_000int,
    ;
    assert(v * 1_000_000 / c == 0) by (nonlinear_arith)
        requires
            v == 0,
            c != 0,
    ;
}

/// A message that comes from an account other than the all-zero one, with
/// answers that fit the state, keeps the books.
pub proof fn lemma_step_keeps_books(m: VaultModel, msg: VaultMessage)
    requires
        books_kept(m),
        m.step_defined(msg),
        sender(msg) != AccountId::spec_zero(),
        answers_fit(m, msg),
    ensures
        m.step(msg) matches Some(n) ==> books_kept(n),
{
    lemma_step_keeps_collateral_balanced(m, msg);
    lemma_step_keeps_total_debt_summed(m, msg);
    if let Some(n) = m.step(msg) {
        match msg {
            VaultMessage::BuyRiskyVault { caller, now, vault_id, vault_owner, price_e6 } => {
                if vault_id >= m.next_id {
                    lemma_fresh_vault_owes_nothing(m, vault_id, now, price_e6);
                }
            },
            _ => {},
        }
        let id = match msg {
            VaultMessage::DepositCollateral { vault_id, .. } => vault_id,
            VaultMessage::WithdrawCollateral { vault_id, .. } => vault_id,
            VaultMessage::BorrowToken { vault_id, .. } => vault_id,
            VaultMessage::PayBackToken { vault_id, .. } => vault_id,
            VaultMessage::BuyRiskyVault { vault_id, .. } => vault_id,
            _ => m.next_id,
        };
        assert(msg is CreateVault || n.next_id == m.next_id);
        assert(msg is CreateVault || id < m.next_id || (n.collateral_by_id == m.collateral_by_id
            && n.debt_by_id == m.debt_by_id));
        assert forall|k: u128| k >= n.next_id implies n.collateral_of(k) == 0 && n.debt_of(k)
            == 0 by {
            assert(m.collateral_of(k) == 0 && m.debt_of(k) == 0);
        }
    }
}

/// The runs from a state that keeps the books keep them, as long as no
/// message comes from the all-zero account and the answers fit the states.
pub proof fn lemma_run_keeps_books(m: VaultModel, msgs: Seq<VaultMessage>)
    requires
        books_kept(m),
        run_fits(m, msgs),
    ensures
        books_kept(run(m, msgs)),
    decreases msgs.len(),
{
    if msgs.len() > 0 {
        if m.step_defined(msgs[0]) {
            lemma_step_keeps_books(m, msgs[0]);
        }
        lemma_run_keeps_books(apply(m, msgs[0]), msgs.drop_first());
    }
}

/// From a vault contract as it is made, with no vaults, no collateral and no
/// debt, every run in which no message comes from the all-zero account (and
/// the answers fit) keeps the total debt equal to the sum of the vaults'
/// debts and the collateral held equal to the sum of their collateral.
pub proof fn lemma_books_kept_from_new(m: VaultModel, msgs: Seq<VaultMessage>)
    requires
        m.collateral_by_id == Map::<u128, u128>::empty(),
        m.debt_by_id == Map::<u128, u128>::empty(),
        m.collateral_amount == 0,
        m.total_debt == 0,
        run_fits(m, msgs),
    ensures
        debt_summed(run(m, msgs)),
        collateral_balanced(run(m, msgs)),
{
    lemma_empty_vault_invariants(m);
    lemma_run_keeps_books(m, msgs);
}

/// Folding the values of a map over a finite set of keys, from a start that
/// is not negative, gives a sum that is not negative.
proof fn lemma_fold_nonnegative(s: Set<u128>, m: Map<u128, u128>, z: int)
    requires
        s.finite(),
        z >= 0,
    ensures
        s.fold(z, add_value(m)) >= 0,
    decreases s.len(),
{
    lemma_add_value_commutative(m);
    if s.len() == 0 {
        assert(s =~= Set::empty());
        lemma_fold_empty(z, add_value(m));
    } else {
        let a = s.choose();
        let t = s.remove(a);
        assert(s =~= t.insert(a));
        lemma_fold_nonnegative(t, m, z);
        lemma_fold_insert(t, z, add_value(m), a);
    }
}

/// The sum of a finite map's values is at least the value stored for any key.
pub proof fn lemma_sum_values_at_least(m: Map<u128, u128>, k: u128)
    requires
        m.dom().finite(),
    ensures
        sum_values(m) >= crate::vault::lookup(m, k),
{
    lemma_sum_values_insert(m, k, 0);
    let n = m.insert(k, 0);
    lemma_fold_nonnegative(n.dom(), n, 0int);
}

/// While the total debt is the sum of the vaults' debts, it covers what a
/// payment or a liquidation of any vault settles once the vault is brought
/// up to date: taking that from the total debt never goes below zero.
pub proof fn lemma_kept_books_cover_payments(
    m: VaultModel,
    id: u128,
    now: u64,
    owner: AccountId,
    amount: u128,
)
    requires
        debt_summed(m),
        m.update_vault_debt_defined(id, now, owner),
    ensures
        ({
            let (s, d, a) = m.update_vault_debt(id, now, owner);
            &&& s.total_debt >= d
            &&& s.total_debt >= VaultModel::settled(d, amount)
        }),
{
    lemma_update_keeps_debt_summed(m, id, now, owner);
    let (s, d, a) = m.update_vault_debt(id, now, owner);
    lemma_sum_values_at_least(s.debt_by_id, id);
}

/// The interest coefficient compounds: brought forward over `dt` time units
/// at rate `r` (twelve decimals per unit), it is multiplied by
/// `(10^12 + dt * r) / 10^12`, rounding down; at or before the time it was
/// last brought forward it stays. Bringing it forward stores exactly that and
/// the time.
pub proof fn lemma_coefficient_compounds(m: VaultModel, now: u64)
    requires
        m.coefficient_at_defined(now),
    ensures
        ({
            let ts = m.last_interest_coefficient_timestamp;
            let c = m.current_interest_coefficient_e12;
            let f = 1_000_000_000_000int + (now - ts) * m.current_interest_rate_e12;
            let n = m.with_coefficient_updated(now);
            &&& now <= ts ==> m.coefficient_at(now) == c && n == m
            &&& now > ts && f >= 0 ==> m.coefficient_at(now) == c * f / 1_000_000_000_000int
            &&& now > ts ==> n.current_interest_coefficient_e12 == m.coefficient_at(now)
                && n.last_interest_coefficient_timestamp == now
        }),
{
}

/// Bringing the coefficient forward over two intervals multiplies their
/// factors in turn.
pub proof fn lemma_coefficient_over_two_intervals(m: VaultModel, t1: u64, t2: u64)
    requires
        m.last_interest_coefficient_timestamp < t1 < t2,
        m.coefficient_at_defined(t1),
        m.with_coefficient_updated(t1).coefficient_at_defined(t2),
        1_000_000_000_000int + (t1 - m.last_interest_coefficient_timestamp)
            * m.current_interest_rate_e12 >= 0,
        1_000_000_000_000int + (t2 - t1) * m.current_interest_rate_e12 >= 0,
    ensures
        ({
            let c = m.current_interest_coefficient_e12;
            let f1 = 1_000_000_000_000int + (t1 - m.last_interest_coefficient_timestamp)
                * m.current_interest_rate_e12;
            let f2 = 1_000_000_000_000int + (t2 - t1) * m.current_interest_rate_e12;
            m.with_coefficient_updated(t1).coefficient_at(t2) == (c * f1 / 1_000_000_000_000int)
                * f2 / 1_000_000_000_000int
        }),
{
    lemma_coefficient_compounds(m, t1);
    lemma_coefficient_compounds(m.with_coefficient_updated(t1), t2);
}

/// A vault's debt follows the coefficient: at `now` it is the stored debt
/// times the coefficient at `now` over the coefficient the vault was last
/// brought up to date at, rounded down and then up by one unless it is zero;
/// the stored debt when the coefficient has not moved. Bringing the vault up
/// to date stores and returns that debt and moves the total debt by the
/// same difference.
pub proof fn lemma_debt_follows_coefficient(m: VaultModel, id: u128, now: u64, owner: AccountId)
    requires
        m.update_vault_debt_defined(id, now, owner),
    ensures
        ({
            let cur = m.coefficient_at(now);
            let last = m.last_coefficient_of(id);
            let d = m.debt_of(id);
            let q = d * cur / (last as int);
            let expected = if cur == last {
                d as int
            } else if q == 0 {
                0
            } else {
                q + 1
            };
            let (n, r, a) = m.update_vault_debt(id, now, owner);
            &&& m.debt_at(id, now) == expected
            &&& r == expected
            &&& n.debt_of(id) == expected
            &&& n.total_debt == m.total_debt - d + expected
        }),
{
}

/// A loan asked by the vault's owner while borrowing is not paused is
/// granted exactly when the vault's debt brought up to date plus the amount
/// stays within the vault's own ceiling: its collateral's value (twelve
/// decimals of collateral, six of price) times 10^6 over the current minimum
/// collateral coefficient. Whatever other vaults owe does not enter. A
/// refused loan is refused for the collateral; while paused every loan is
/// refused for the pause.
pub proof fn lemma_borrow_decision(
    m: VaultModel,
    now: u64,
    id: u128,
    amount: u128,
    vault_owner: Option<AccountId>,
    price_e6: u128,
)
    requires
        m.borrow_token_defined(account_or_zero(vault_owner), now, id, amount, vault_owner, price_e6),
    ensures
        ({
            let owner = account_or_zero(vault_owner);
            let ceiling = m.collateral_of(id) * price_e6 / 1_000_000_000_000int * 1_000_000
                / (m.current_minimum_collateral_coefficient_e6 as int);
            let r = m.borrow_token(owner, now, id, amount, vault_owner, price_e6);
            &&& m.paused ==> r == Err::<(VaultModel, Seq<VaultAction>), VaultError>(
                VaultError::PausableError(PausableError::Paused),
            )
            &&& !m.paused ==> (r is Ok <==> m.debt_at(id, now) + amount <= ceiling)
            &&& !m.paused && !(r is Ok) ==> r == Err::<(VaultModel, Seq<VaultAction>), VaultError>(
                VaultError::CollateralBelowMinimum,
            )
        }),
{
    let owner = account_or_zero(vault_owner);
    if !m.paused {
        lemma_debt_follows_coefficient(m, id, now, owner);
    }
}

/// The liquidator may buy a vault exactly when the vault's debt brought up to
/// date exceeds the vault's ceiling taken with the current minimum collateral
/// coefficient: its collateral's value times 10^6 over that coefficient. A
/// vault within that ceiling is refused as above the minimum collateral.
pub proof fn lemma_buy_decision(
    m: VaultModel,
    now: u64,
    id: u128,
    vault_owner: Option<AccountId>,
    price_e6: u128,
)
    requires
        m.buy_risky_vault_defined(m.liquidator_address, now, id, vault_owner, price_e6),
    ensures
        ({
            let ceiling = m.collateral_of(id) * price_e6 / 1_000_000_000_000int * 1_000_000
                / (m.current_minimum_collateral_coefficient_e6 as int);
            let r = m.buy_risky_vault(m.liquidator_address, now, id, vault_owner, price_e6);
            &&& r is Ok <==> m.debt_at(id, now) > ceiling
            &&& !(r is Ok) ==> r == Err::<(VaultModel, Seq<VaultAction>), VaultError>(
                VaultError::CollateralAboveMinimum,
            )
        }),
{
    lemma_debt_follows_coefficient(m, id, now, account_or_zero(vault_owner));
}

/// Paying back is not guarded by the pause: the vault's owner may always pay
/// back, and the payment lowers the debt brought up to date by the amount, or
/// to zero when the amount covers it. Anyone else is refused for ownership.
pub proof fn lemma_pay_back_ignores_pause(
    m: VaultModel,
    caller: AccountId,
    now: u64,
    id: u128,
    amount: u128,
    vault_owner: Option<AccountId>,
)
    requires
        m.pay_back_token_defined(caller, now, id, amount, vault_owner),
    ensures
        ({
            let r = m.pay_back_token(caller, now, id, amount, vault_owner);
            let d = m.debt_at(id, now);
            &&& caller == account_or_zero(vault_owner) ==> (r matches Ok((n, _)) && n.debt_of(id)
                == (if amount >= d {
                0
            } else {
                d - amount
            }) && n.paused == m.paused)
            &&& caller != account_or_zero(vault_owner) ==> r == Err::<
                (VaultModel, Seq<VaultAction>),
                VaultError,
            >(VaultError::VaultOwnership)
        }),
{
    if caller == account_or_zero(vault_owner) {
        lemma_debt_follows_coefficient(m, id, now, caller);
    }
}

/// A deposit by the vault's owner is always granted: the vault and the
/// contract hold the amount more, the collateral token is asked to move it
/// from the owner, and nothing else changes. Anyone else is refused for
/// ownership.
pub proof fn lemma_deposit_decision(
    m: VaultModel,
    caller: AccountId,
    id: u128,
    amount: u128,
    vault_owner: Option<AccountId>,
)
    requires
        m.deposit_collateral_defined(caller, id, amount, vault_owner),
    ensures
        ({
            let owner = account_or_zero(vault_owner);
            let r = m.deposit_collateral(caller, id, amount, vault_owner);
            &&& caller == owner ==> (r matches Ok((n, acts)) && n.collateral_of(id)
                == m.collateral_of(id) + amount && n.collateral_amount == m.collateral_amount
                + amount && n.debt_by_id == m.debt_by_id && n.total_debt == m.total_debt
                && acts[0] == VaultAction::TransferCollateralIn { from: owner, amount })
            &&& caller != owner ==> r == Err::<(VaultModel, Seq<VaultAction>), VaultError>(
                VaultError::VaultOwnership,
            )
        }),
{
}

/// A withdrawal by the vault's owner of no more than the vault holds is
/// granted exactly when the vault's debt brought up to date, times the
/// current minimum collateral coefficient, is at most the value of the
/// collateral left (twelve decimals of collateral, six of price) times 10^6.
/// A granted one takes the amount from the vault and the contract and asks
/// the collateral token to send it to the owner; a refused one is refused
/// for the collateral, as is one of more than the vault holds.
pub proof fn lemma_withdraw_decision(
    m: VaultModel,
    now: u64,
    id: u128,
    amount: u128,
    vault_owner: Option<AccountId>,
    price_e6: u128,
)
    requires
        m.withdraw_collateral_defined(account_or_zero(vault_owner), now, id, amount, vault_owner, price_e6),
    ensures
        ({
            let owner = account_or_zero(vault_owner);
            let r = m.withdraw_collateral(owner, now, id, amount, vault_owner, price_e6);
            let left = m.collateral_of(id) - amount;
            &&& amount > m.collateral_of(id) ==> r == Err::<
                (VaultModel, Seq<VaultAction>),
                VaultError,
            >(VaultError::CollateralBelowMinimum)
            &&& amount <= m.collateral_of(id) ==> (r is Ok <==> m.debt_at(id, now)
                * m.current_minimum_collateral_coefficient_e6 <= left * price_e6
                / 1_000_000_000_000int * 1_000_000)
            &&& !(r is Ok) ==> r == Err::<(VaultModel, Seq<VaultAction>), VaultError>(
                VaultError::CollateralBelowMinimum,
            )
            &&& r matches Ok((n, acts)) ==> n.collateral_of(id) == left && n.collateral_amount
                == m.collateral_amount - amount && acts.contains(
                VaultAction::TransferCollateralOut { to: owner, amount },
            )
        }),
{
    let owner = account_or_zero(vault_owner);
    lemma_update_keeps_collateral(m, id, now, owner);
    if amount <= m.collateral_of(id) {
        lemma_debt_follows_coefficient(m, id, now, owner);
        let (s, d, a) = m.update_vault_debt(id, now, owner);
        if let Ok((n, acts)) = m.withdraw_collateral(owner, now, id, amount, vault_owner, price_e6) {
            assert(acts[a.len() as int] == VaultAction::TransferCollateralOut { to: owner, amount });
        }
    }
}

/// A granted loan leaves the vault owing its debt brought up to date plus
/// the amount, emits exactly the amount more, and mints the amount to the
/// owner.
pub proof fn lemma_granted_loan(
    m: VaultModel,
    now: u64,
    id: u128,
    amount: u128,
    vault_owner: Option<AccountId>,
    price_e6: u128,
)
    requires
        m.borrow_token_defined(account_or_zero(vault_owner), now, id, amount, vault_owner, price_e6),
    ensures
        ({
            let owner = account_or_zero(vault_owner);
            m.borrow_token(owner, now, id, amount, vault_owner, price_e6) matches Ok((n, acts))
                ==> n.debt_of(id) == m.debt_at(id, now) + amount && n.emited_amount
                == m.emited_amount + amount && acts.contains(
                VaultAction::MintStable { to: owner, amount },
            )
        }),
{
    let owner = account_or_zero(vault_owner);
    if !m.paused {
        lemma_update_keeps_collateral(m, id, now, owner);
        lemma_debt_follows_coefficient(m, id, now, owner);
        let (s, d, a) = m.update_vault_debt(id, now, owner);
        if let Ok((n, acts)) = m.borrow_token(owner, now, id, amount, vault_owner, price_e6) {
            assert(acts[a.len() as int + 1] == VaultAction::MintStable { to: owner, amount });
        }
    }
}

/// A granted liquidation leaves the vault owing nothing, burns its whole
/// debt brought up to date from the liquidator, and hands the vault token to
/// the liquidator.
pub proof fn lemma_granted_liquidation(
    m: VaultModel,
    now: u64,
    id: u128,
    vault_owner: Option<AccountId>,
    price_e6: u128,
)
    requires
        m.buy_risky_vault_defined(m.liquidator_address, now, id, vault_owner, price_e6),
    ensures
        ({
            let owner = account_or_zero(vault_owner);
            let liq = m.liquidator_address;
            let d = m.debt_at(id, now);
            m.buy_risky_vault(liq, now, id, vault_owner, price_e6) matches Ok((n, acts))
                ==> n.debt_of(id) == 0 && n.emited_amount == m.emited_amount - d && acts.contains(
                VaultAction::BurnStable { from: liq, amount: d },
            ) && acts.contains(VaultAction::MoveVaultToken { from: owner, to: liq, id })
        }),
{
    let owner = account_or_zero(vault_owner);
    let liq = m.liquidator_address;
    lemma_update_keeps_collateral(m, id, now, owner);
    lemma_debt_follows_coefficient(m, id, now, owner);
    let (s, d, a) = m.update_vault_debt(id, now, owner);
    if let Ok((n, acts)) = m.buy_risky_vault(liq, now, id, vault_owner, price_e6) {
        assert(acts[a.len() as int] == VaultAction::BurnStable { from: liq, amount: d });
        assert(acts[a.len() as int + 2] == VaultAction::MoveVaultToken { from: owner, to: liq, id });
    }
}

} // verus!
