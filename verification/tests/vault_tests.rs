use stable_coin_project::account::AccountId;
use stable_coin_project::errors::{
    EmittingError, OwnableError, PSP22Error, PSP22ReceiverError, PSP34Error, PausableError,
    PausingError, SPGeneratingError, VaultError,
};
use stable_coin_project::access::PauseEvent;
use stable_coin_project::vault::{CallRefusal, VaultAction, VaultContract};

fn acc(b: u8) -> AccountId {
    AccountId([b; 32])
}

const PRICE_2: u128 = 2_000_000;
const ONE_THOUSAND_UNITS: u128 = 1_000_000_000_000_000;

fn alice() -> AccountId {
    acc(1)
}
fn bob() -> AccountId {
    acc(2)
}
fn carol() -> AccountId {
    acc(3)
}

/// A vault contract owned by alice; 200% maximum minimum collateral.
fn vault() -> VaultContract {
    VaultContract::new(
        acc(10), // oracle
        acc(11), // shares token
        acc(12), // shares-profit controller
        acc(13), // collateral token
        acc(14), // stable coin
        2_000_000,
        10_000,
        1_000,
        alice(),
        1000,
    )
    .0
}

/// The calls of a granted decision; fails when the decision is a refusal.
fn granted(d: (Vec<VaultAction>, Result<(), VaultError>)) -> Vec<VaultAction> {
    assert_eq!(d.1, Ok(()));
    d.0
}

fn same_state(a: &VaultContract, b: &VaultContract) -> bool {
    a.total_debt == b.total_debt
        && a.next_id == b.next_id
        && a.collateral_by_id == b.collateral_by_id
        && a.debt_by_id == b.debt_by_id
        && a.last_interest_coefficient_by_id_e12 == b.last_interest_coefficient_by_id_e12
        && a.current_interest_coefficient_e12 == b.current_interest_coefficient_e12
        && a.last_interest_coefficient_timestamp == b.last_interest_coefficient_timestamp
        && a.collateral.collateral_amount == b.collateral.collateral_amount
        && a.emit.emited_amount == b.emit.emited_amount
        && a.spgenerate.generated_profit == b.spgenerate.generated_profit
        && a.current_interest_rate_e12 == b.current_interest_rate_e12
        && a.current_minimum_collateral_coefficient_e6 == b.current_minimum_collateral_coefficient_e6
        && a.paused == b.paused
}

/// Opens vault 0 for alice with a thousand collateral units and a debt of 500.
fn funded_vault() -> VaultContract {
    let mut v = vault();
    v.create_vault(&alice());
    v.deposit_collateral(&alice(), 0, ONE_THOUSAND_UNITS, Some(alice())).unwrap();
    granted(v.borrow_token(&alice(), 1000, 0, 500_000_000, Some(alice()), PRICE_2));
    v
}

#[test]
fn constructor_sets_addresses() {
    let (_, actions) = VaultContract::new(
        acc(10),
        acc(11),
        acc(12),
        acc(13),
        acc(14),
        2_000_000,
        10_000,
        1_000,
        alice(),
        1000,
    );
    // the ownership of the contract goes to alice, with its event
    assert_eq!(actions, vec![VaultAction::InitOwnership { owner: alice() }]);
    let v = vault();
    assert_eq!(v.owner, alice());
    assert_eq!(v.get_collateral_token_address(), acc(13));
    assert_eq!(v.get_emited_token_address(), acc(14));
    assert_eq!(v.get_oracle_address(), acc(10));
    // the owner is also the vault controller until another is set
    assert_eq!(v.get_vault_controller_address(), alice());
    assert_eq!(v.get_liquidator_address(), AccountId::zero());
    assert_eq!(v.spgenerate.get_sharing_part_e6(), 1_000_000);
    assert_eq!(v.current_interest_coefficient_e12, 1_000_000_000_000);
    assert_eq!(v.current_minimum_collateral_coefficient_e6, 2_000_000);
    assert_eq!(v.get_next_id(), 0);
    assert_eq!(v.get_total_debt(), 0);
}

#[test]
fn create_vault_mints_token_and_opens_vault() {
    let mut v = vault();
    let a = v.create_vault(&bob());
    assert_eq!(a, vec![VaultAction::MintVaultToken { to: bob(), id: 0 }]);
    let a = v.create_vault(&carol());
    assert_eq!(a, vec![VaultAction::MintVaultToken { to: carol(), id: 1 }]);
    assert_eq!(v.get_next_id(), 2);
    assert_eq!(v._get_debt_by_id(1), 0);
    assert_eq!(v._get_collateral_by_id(1), 0);
    assert_eq!(v._get_last_interest_coefficient_by_id_e12(1), 1_000_000_000_000);
}

#[test]
fn deposit_books_collateral_and_emits_old_amount() {
    let mut v = vault();
    v.create_vault(&alice());
    let a = v.deposit_collateral(&alice(), 0, 700, Some(alice())).unwrap();
    assert_eq!(
        a,
        vec![
            VaultAction::TransferCollateralIn { from: alice(), amount: 700 },
            VaultAction::EmitDeposit { vault_id: 0, current_collateral: 0 },
        ]
    );
    let a = v.deposit_collateral(&alice(), 0, 300, Some(alice())).unwrap();
    assert_eq!(a[1], VaultAction::EmitDeposit { vault_id: 0, current_collateral: 700 });
    assert_eq!(v._get_collateral_by_id(0), 1000);
    assert_eq!(v.collateral_amount(), 1000);
}

#[test]
fn deposit_by_non_owner_is_refused_and_changes_nothing() {
    let mut v = vault();
    v.create_vault(&alice());
    let before = v.clone();
    assert_eq!(
        v.deposit_collateral(&bob(), 0, 700, Some(alice())),
        Err(VaultError::VaultOwnership)
    );
    assert!(same_state(&before, &v));
}

#[test]
fn debt_ceiling_is_collateral_value_over_coefficient() {
    let mut v = vault();
    v.create_vault(&alice());
    v.deposit_collateral(&alice(), 0, ONE_THOUSAND_UNITS, Some(alice())).unwrap();
    // 1000 units at 2 dollars: 2000 dollars, at 200%: 1000 dollars.
    assert_eq!(v._collateral_value_e6(ONE_THOUSAND_UNITS, PRICE_2), 2_000_000_000);
    assert_eq!(v._vault_collateral_value_e6(0, PRICE_2), 2_000_000_000);
    assert_eq!(v.get_debt_ceiling(0, PRICE_2), 1_000_000_000);
}

#[test]
fn borrow_within_ceiling_mints_and_books_debt() {
    let mut v = vault();
    v.create_vault(&alice());
    v.deposit_collateral(&alice(), 0, ONE_THOUSAND_UNITS, Some(alice())).unwrap();
    let a = granted(v.borrow_token(&alice(), 1000, 0, 500_000_000, Some(alice()), PRICE_2));
    assert_eq!(
        a,
        vec![
            VaultAction::AddAccountDebt { account: alice(), amount: 500_000_000 },
            VaultAction::MintStable { to: alice(), amount: 500_000_000 },
            VaultAction::EmitBorrow { vault_id: 0, borrowed: 500_000_000 },
        ]
    );
    assert_eq!(v._get_debt_by_id(0), 500_000_000);
    assert_eq!(v.get_total_debt(), 500_000_000);
    assert_eq!(v.emited_amount(), 500_000_000);
    assert_eq!(v.get_vault_details(0, 1000), (ONE_THOUSAND_UNITS, 500_000_000));
}

#[test]
fn borrow_over_ceiling_is_refused_and_changes_nothing() {
    let mut v = funded_vault();
    let before = v.clone();
    assert_eq!(
        v.borrow_token(&alice(), 1000, 0, 600_000_000, Some(alice()), PRICE_2),
        (vec![], Err(VaultError::CollateralBelowMinimum))
    );
    assert!(same_state(&before, &v));
    // exactly up to the ceiling is granted
    assert!(v.borrow_token(&alice(), 1000, 0, 500_000_000, Some(alice()), PRICE_2).1.is_ok());
    assert_eq!(v._get_debt_by_id(0), 1_000_000_000);
}

#[test]
fn borrow_while_paused_is_refused() {
    let mut v = funded_vault();
    assert_eq!(
        v.pause(&bob()),
        Err(PausingError::OwnableError(OwnableError::CallerIsNotOwner))
    );
    assert_eq!(v.pause(&alice()), Ok(PauseEvent::Paused { by: alice() }));
    assert_eq!(v.pause(&alice()), Err(PausingError::PausableError(PausableError::Paused)));
    assert_eq!(
        v.borrow_token(&alice(), 1000, 0, 1, Some(alice()), PRICE_2),
        (vec![], Err(VaultError::PausableError(PausableError::Paused)))
    );
    assert_eq!(v.unpause(&alice()), Ok(PauseEvent::Unpaused { by: alice() }));
    assert_eq!(v.unpause(&alice()), Err(PausingError::PausableError(PausableError::NotPaused)));
    assert!(v.borrow_token(&alice(), 1000, 0, 1, Some(alice()), PRICE_2).1.is_ok());
}

#[test]
fn interest_accrues_and_is_booked_as_profit() {
    let mut v = funded_vault();
    v.set_vault_controller_address(&alice(), carol()).unwrap();
    assert_eq!(v.be_controlled(&carol(), 10, 0, 0), Ok(()));
    assert_eq!(v.current_interest_rate_e12, 10_000);
    // 100 time units later the coefficient has grown by 100 * 10^4 / 10^12.
    assert_eq!(v._get_current_interest_coefficient_e12(1100), 1_000_001_000_000);
    // the vault details report the debt as it stands at that time
    assert_eq!(v.get_vault_details(0, 1100), (ONE_THOUSAND_UNITS, 500_000_501));
    let mut actions = Vec::new();
    let debt = v._update_vault_debt(0, 1100, &alice(), &mut actions);
    // 500000000 * 1.000001 = 500000500, rounded up by one.
    assert_eq!(debt, 500_000_501);
    assert_eq!(v.get_vault_details(0, 1100), (ONE_THOUSAND_UNITS, 500_000_501));
    assert_eq!(actions, vec![VaultAction::AddAccountDebt { account: alice(), amount: 501 }]);
    assert_eq!(v.current_interest_coefficient_e12, 1_000_001_000_000);
    assert_eq!(v.last_interest_coefficient_timestamp, 1100);
    assert_eq!(v.spgenerate.get_generated_profit(), 501);
    assert_eq!(v.spgenerate.get_shares_minting_allowance(&alice()), 501);
    // the total debt follows interest; the emitted coin does not
    assert_eq!(v.get_total_debt(), 500_000_501);
    assert_eq!(v.emited_amount(), 500_000_000);
}

#[test]
fn update_twice_at_same_time_changes_nothing_the_second_time() {
    let mut v = funded_vault();
    v.set_vault_controller_address(&alice(), carol()).unwrap();
    v.be_controlled(&carol(), 10, 0, 0).unwrap();
    let mut actions = Vec::new();
    let d1 = v._update_vault_debt(0, 1100, &alice(), &mut actions);
    let after_first = v.clone();
    let mut actions2 = Vec::new();
    let d2 = v._update_vault_debt(0, 1100, &alice(), &mut actions2);
    assert_eq!(d1, d2);
    assert!(actions2.is_empty());
    assert!(same_state(&after_first, &v));
}

#[test]
fn negative_rate_shrinks_debt_and_books_loss() {
    let mut v = funded_vault();
    v.set_vault_controller_address(&alice(), carol()).unwrap();
    v.be_controlled(&carol(), -10, 0, 0).unwrap();
    assert_eq!(v.current_interest_rate_e12, -10_000);
    let mut actions = Vec::new();
    let debt = v._update_vault_debt(0, 1100, &alice(), &mut actions);
    // 500000000 * 0.999999 = 499999500, plus one.
    assert_eq!(debt, 499_999_501);
    assert_eq!(actions, vec![VaultAction::SubAccountDebt { account: alice(), amount: 499 }]);
    assert_eq!(v.spgenerate.get_generated_profit(), -499);
    assert_eq!(v.get_total_debt(), 499_999_501);
}

#[test]
fn pay_back_settles_part_then_rest() {
    let mut v = funded_vault();
    let a = v.pay_back_token(&alice(), 1000, 0, 200_000_000, Some(alice())).unwrap();
    assert_eq!(
        a,
        vec![
            VaultAction::BurnStable { from: alice(), amount: 200_000_000 },
            VaultAction::SubAccountDebt { account: alice(), amount: 200_000_000 },
            VaultAction::EmitPayBack { vault_id: 0, pay_backed: 200_000_000 },
        ]
    );
    assert_eq!(v._get_debt_by_id(0), 300_000_000);
    // paying more than owed settles only the debt
    let a = v.pay_back_token(&alice(), 1000, 0, 900_000_000, Some(alice())).unwrap();
    assert_eq!(a[0], VaultAction::BurnStable { from: alice(), amount: 300_000_000 });
    assert_eq!(v._get_debt_by_id(0), 0);
    assert_eq!(v.get_total_debt(), 0);
    assert_eq!(v.emited_amount(), 0);
    assert_eq!(
        v.pay_back_token(&bob(), 1000, 0, 1, Some(alice())),
        Err(VaultError::VaultOwnership)
    );
}

#[test]
fn withdraw_stays_within_the_debt_ceiling() {
    let mut v = funded_vault();
    let before = v.clone();
    assert_eq!(
        v.withdraw_collateral(&alice(), 1000, 0, ONE_THOUSAND_UNITS + 1, Some(alice()), PRICE_2),
        (vec![], Err(VaultError::CollateralBelowMinimum))
    );
    // one unit more than half would leave a ceiling of 499.999999 dollars,
    // below the debt of 500
    assert_eq!(
        v.withdraw_collateral(&alice(), 1000, 0, ONE_THOUSAND_UNITS / 2 + 1, Some(alice()), PRICE_2),
        (vec![], Err(VaultError::CollateralBelowMinimum))
    );
    assert!(same_state(&before, &v));
    assert_eq!(
        v.withdraw_collateral(&bob(), 1000, 0, 1, Some(alice()), PRICE_2),
        (vec![], Err(VaultError::VaultOwnership))
    );
    // half leaves a ceiling of exactly the debt
    assert!(v.withdraw_collateral(&alice(), 1000, 0, ONE_THOUSAND_UNITS / 2, Some(alice()), PRICE_2).1.is_ok());
    assert_eq!(v._get_collateral_by_id(0), ONE_THOUSAND_UNITS / 2);
    assert_eq!(v.get_debt_ceiling(0, PRICE_2), 500_000_000);
}

#[test]
fn withdraw_without_debt_returns_collateral() {
    let mut v = vault();
    v.create_vault(&alice());
    v.deposit_collateral(&alice(), 0, 1000, Some(alice())).unwrap();
    let a = granted(v.withdraw_collateral(&alice(), 1000, 0, 400, Some(alice()), PRICE_2));
    assert_eq!(
        a,
        vec![
            VaultAction::TransferCollateralOut { to: alice(), amount: 400 },
            VaultAction::EmitDeposit { vault_id: 0, current_collateral: 600 },
        ]
    );
    assert_eq!(v._get_collateral_by_id(0), 600);
    assert_eq!(v.collateral_amount(), 600);
}

#[test]
fn collateral_held_is_sum_of_vaults() {
    let mut v = vault();
    v.create_vault(&alice());
    v.create_vault(&bob());
    v.deposit_collateral(&alice(), 0, 1000, Some(alice())).unwrap();
    v.deposit_collateral(&bob(), 1, 2500, Some(bob())).unwrap();
    granted(v.withdraw_collateral(&bob(), 1000, 1, 500, Some(bob()), PRICE_2));
    let sum: u128 = v.collateral_by_id.values().sum();
    assert_eq!(v.collateral_amount(), sum);
    assert_eq!(sum, 3000);
}

#[test]
fn liquidation_takes_over_risky_vault() {
    let mut v = funded_vault();
    v.set_liquidator_address(&alice(), bob()).unwrap();
    // at two dollars the vault is safe
    assert_eq!(
        v.buy_risky_vault(&bob(), 1000, 0, Some(alice()), PRICE_2),
        (vec![], Err(VaultError::CollateralAboveMinimum))
    );
    assert_eq!(
        v.buy_risky_vault(&carol(), 1000, 0, Some(alice()), 500_000),
        (vec![], Err(VaultError::Liquidator))
    );
    // at half a dollar the ceiling is 250 dollars, below the debt of 500
    assert_eq!(v.get_debt_ceiling(0, 500_000), 250_000_000);
    let a = granted(v.buy_risky_vault(&bob(), 1000, 0, Some(alice()), 500_000));
    assert_eq!(
        a,
        vec![
            VaultAction::BurnStable { from: bob(), amount: 500_000_000 },
            VaultAction::SubAccountDebt { account: alice(), amount: 500_000_000 },
            VaultAction::MoveVaultToken { from: alice(), to: bob(), id: 0 },
            VaultAction::EmitPayBack { vault_id: 0, pay_backed: 500_000_000 },
            VaultAction::EmitTransfer { from: alice(), to: bob(), id: 0 },
        ]
    );
    assert_eq!(v._get_debt_by_id(0), 0);
    assert_eq!(v.get_total_debt(), 0);
    assert_eq!(v.emited_amount(), 0);
}

#[test]
fn destroy_vault_checks_owner_debt_and_collateral() {
    let mut v = funded_vault();
    assert_eq!(v.destroy_vault(&alice(), 5, None), Err(VaultError::OwnerUnexists));
    assert_eq!(v.destroy_vault(&bob(), 0, Some(alice())), Err(VaultError::VaultOwnership));
    assert_eq!(v.destroy_vault(&alice(), 0, Some(alice())), Err(VaultError::HasDebt));
    v.pay_back_token(&alice(), 1000, 0, 500_000_000, Some(alice())).unwrap();
    assert_eq!(v.destroy_vault(&alice(), 0, Some(alice())), Err(VaultError::NotEmpty));
    v.create_vault(&alice());
    assert_eq!(
        v.destroy_vault(&alice(), 1, Some(alice())),
        Ok(vec![VaultAction::BurnVaultToken { from: alice(), id: 1 }])
    );
}

#[test]
fn be_controlled_only_by_controller() {
    let mut v = vault();
    assert_eq!(v.be_controlled(&carol(), 1, 1, 0), Err(VaultError::VaultController));
    v.set_vault_controller_address(&alice(), carol()).unwrap();
    assert_eq!(v.be_controlled(&carol(), -3, 50, 7), Ok(()));
    assert_eq!(v.current_interest_rate_e12, -3_000);
    // 2000000 - 50 * 10000
    assert_eq!(v.current_minimum_collateral_coefficient_e6, 1_500_000);
}

#[test]
fn setters_are_owner_only() {
    let mut v = vault();
    let e = Err(VaultError::OwnableError(OwnableError::CallerIsNotOwner));
    assert_eq!(v.set_vault_controller_address(&bob(), bob()), e);
    assert_eq!(v.set_oracle_address(&bob(), bob()), e);
    assert_eq!(v.set_liquidator_address(&bob(), bob()), e);
    assert_eq!(v.set_shares_profit_controller_address(&bob(), bob()), e);
    assert_eq!(v._set_attribute(&bob()), e);
    assert_eq!(v._set_attribute(&alice()), Ok(()));
    assert_eq!(v.set_oracle_address(&alice(), acc(20)), Ok(()));
    assert_eq!(v.get_oracle_address(), acc(20));
    assert_eq!(v.set_liquidator_address(&alice(), acc(21)), Ok(()));
    assert_eq!(v.get_liquidator_address(), acc(21));
    assert_eq!(v.set_shares_profit_controller_address(&alice(), acc(22)), Ok(()));
    assert_eq!(v.spgenerate.get_shares_profit_controller_address(), acc(22));
}

#[test]
fn only_collateral_token_may_send_tokens() {
    let v = vault();
    assert_eq!(v.before_received(&acc(13)), Ok(()));
    assert_eq!(
        v.before_received(&acc(14)),
        Err(PSP22ReceiverError::TransferRejected("UnacceptedPsp22".to_string()))
    );
}

#[test]
fn total_debt_is_sum_of_vault_debts() {
    let sum = |v: &VaultContract| -> u128 { v.debt_by_id.values().sum() };
    let mut v = funded_vault();
    v.create_vault(&bob());
    v.deposit_collateral(&bob(), 1, ONE_THOUSAND_UNITS, Some(bob())).unwrap();
    granted(v.borrow_token(&bob(), 1000, 1, 300_000_000, Some(bob()), PRICE_2));
    assert_eq!(v.get_total_debt(), sum(&v));
    assert_eq!(v.get_total_debt(), 800_000_000);
    v.set_vault_controller_address(&alice(), carol()).unwrap();
    v.be_controlled(&carol(), 10, 0, 0).unwrap();
    // alice's debt grows to 500000501 before she pays 100 of it
    v.pay_back_token(&alice(), 1100, 0, 100, Some(alice())).unwrap();
    assert_eq!(v._get_debt_by_id(0), 500_000_401);
    assert_eq!(v.get_total_debt(), sum(&v));
    assert_eq!(v.get_total_debt(), 800_000_401);
    v.set_liquidator_address(&alice(), carol()).unwrap();
    // bob's debt grows to 300000301 and is paid in full by the liquidator
    let a = granted(v.buy_risky_vault(&carol(), 1100, 1, Some(bob()), 100_000));
    assert_eq!(a[0], VaultAction::AddAccountDebt { account: bob(), amount: 301 });
    assert_eq!(a[1], VaultAction::BurnStable { from: carol(), amount: 300_000_301 });
    assert_eq!(v.get_total_debt(), sum(&v));
    assert_eq!(v.get_total_debt(), 500_000_401);
    assert_eq!(v.emited_amount(), 800_000_000 - 100 - 300_000_301);
}

#[test]
fn mint_shares_empties_allowance() {
    let mut v = funded_vault();
    v.set_vault_controller_address(&alice(), carol()).unwrap();
    v.be_controlled(&carol(), 10, 0, 0).unwrap();
    v.pay_back_token(&alice(), 1100, 0, 1, Some(alice())).unwrap();
    assert_eq!(v.spgenerate.get_shares_minting_allowance(&alice()), 501);
    assert_eq!(v.mint_shares(&alice()), 501);
    assert_eq!(v.spgenerate.get_shares_minting_allowance(&alice()), 0);
    assert_eq!(v.mint_shares(&bob()), 0);
}

#[test]
fn full_repayment_after_interest_aborts() {
    let mut v = funded_vault();
    v.set_vault_controller_address(&alice(), carol()).unwrap();
    v.be_controlled(&carol(), 10, 0, 0).unwrap();
    // the debt has grown to 500000501 but only 500000000 was emitted, so
    // burning all of it would underflow the emitted amount
    assert!(v.pay_back_token_aborts(&alice(), 1100, 0, 600_000_000, Some(alice())));
    assert!(!v.pay_back_token_aborts(&alice(), 1100, 0, 400_000_000, Some(alice())));
    // a refused caller never aborts
    assert!(!v.pay_back_token_aborts(&bob(), 1100, 0, 600_000_000, Some(alice())));
}

#[test]
fn abort_checks_match_the_arithmetic() {
    let mut v = funded_vault();
    assert!(!v.create_vault_aborts());
    v.next_id = u128::MAX;
    assert!(v.create_vault_aborts());
    assert!(v.deposit_collateral_aborts(&alice(), 0, u128::MAX, Some(alice())));
    assert!(!v.deposit_collateral_aborts(&alice(), 0, 5, Some(alice())));
    assert!(v.debt_ceiling_aborts(0, u128::MAX));
    assert!(!v.debt_ceiling_aborts(0, PRICE_2));
    assert!(v.borrow_token_aborts(&alice(), 1000, 0, u128::MAX, Some(alice()), PRICE_2));
    assert!(!v.borrow_token_aborts(&alice(), 1000, 0, 5, Some(alice()), PRICE_2));
    assert!(!v.withdraw_collateral_aborts(&alice(), 1000, 0, 1, Some(alice()), PRICE_2));
    // a vault that was never opened has no coefficient to divide by
    v.debt_by_id.insert(7, 10);
    assert!(v.update_vault_debt_aborts(7, 1000, &alice()));
    assert!(!v.update_vault_debt_aborts(0, 1000, &alice()));
    v.set_vault_controller_address(&alice(), carol()).unwrap();
    assert!(v.be_controlled_aborts(&carol(), 0, 201));
    assert!(!v.be_controlled_aborts(&carol(), 0, 200));
    assert!(!v.vault_details_aborts(0, 1000));
    v.set_liquidator_address(&alice(), bob()).unwrap();
    assert!(!v.buy_risky_vault_aborts(&bob(), 1000, 0, Some(alice()), 500_000));
}

#[test]
fn withdraw_undoes_deposit_without_debt() {
    let mut v = vault();
    v.create_vault(&alice());
    v.deposit_collateral(&alice(), 0, 250, Some(alice())).unwrap();
    v.deposit_collateral(&alice(), 0, 900, Some(alice())).unwrap();
    granted(v.withdraw_collateral(&alice(), 1500, 0, 900, Some(alice()), PRICE_2));
    assert_eq!(v._get_collateral_by_id(0), 250);
    assert_eq!(v.collateral_amount(), 250);
}

#[test]
fn pay_back_undoes_borrow_at_same_instant() {
    let mut v = funded_vault();
    let debt = v._get_debt_by_id(0);
    let total = v.get_total_debt();
    granted(v.borrow_token(&alice(), 1000, 0, 123_456, Some(alice()), PRICE_2));
    v.pay_back_token(&alice(), 1000, 0, 123_456, Some(alice())).unwrap();
    assert_eq!(v._get_debt_by_id(0), debt);
    assert_eq!(v.get_total_debt(), total);
    assert_eq!(v.emited_amount(), total);
}

#[test]
fn destroy_vault_keeps_the_books() {
    let mut v = vault();
    v.create_vault(&alice());
    let before = v.clone();
    assert!(v.destroy_vault(&alice(), 0, Some(alice())).is_ok());
    assert!(same_state(&before, &v));
}

#[test]
fn refused_collateral_transfer_books_nothing() {
    let mut v = vault();
    v.create_vault(&alice());
    let before = v.clone();
    let a = v.deposit_collateral(&alice(), 0, 700, Some(alice())).unwrap();
    let refusal = CallRefusal::PSP22(PSP22Error::InsufficientAllowance);
    assert_eq!(
        v.conclude(before.clone(), Some((a[0], refusal)), Ok(())),
        Err(VaultError::PSP22Error(PSP22Error::InsufficientAllowance))
    );
    assert!(same_state(&before, &v));
    assert_eq!(v.collateral_amount(), 0);
    // an accepted transfer keeps the deposit
    let a = v.deposit_collateral(&alice(), 0, 700, Some(alice())).unwrap();
    assert_eq!(a.len(), 2);
    assert_eq!(v.conclude(before, None, Ok(())), Ok(()));
    assert_eq!(v.collateral_amount(), 700);
}

#[test]
fn refused_withdrawal_transfer_keeps_the_collateral() {
    let mut v = vault();
    v.create_vault(&alice());
    v.deposit_collateral(&alice(), 0, 1000, Some(alice())).unwrap();
    let before = v.clone();
    let a = granted(v.withdraw_collateral(&alice(), 1000, 0, 400, Some(alice()), PRICE_2));
    let r = v.conclude(before, Some((a[0], CallRefusal::PSP22(PSP22Error::InsufficientBalance))), Ok(()));
    assert_eq!(r, Err(VaultError::PSP22Error(PSP22Error::InsufficientBalance)));
    assert_eq!(v._get_collateral_by_id(0), 1000);
    assert_eq!(v.collateral_amount(), 1000);
}

#[test]
fn refused_stable_coin_burn_is_an_emitting_error() {
    let mut v = funded_vault();
    let before = v.clone();
    let a = v.pay_back_token(&alice(), 1000, 0, 100, Some(alice())).unwrap();
    assert_eq!(a[0], VaultAction::BurnStable { from: alice(), amount: 100 });
    let r = v.conclude(before.clone(), Some((a[0], CallRefusal::PSP22(PSP22Error::InsufficientBalance))), Ok(()));
    assert_eq!(
        r,
        Err(VaultError::EmittingError(EmittingError::PSP22Error(PSP22Error::InsufficientBalance)))
    );
    assert!(same_state(&before, &v));
    // a vault token refusal comes as it was answered
    let a = v.create_vault(&bob());
    let r = v.conclude(before.clone(), Some((a[0], CallRefusal::PSP34(PSP34Error::TokenExists))), Ok(()));
    assert_eq!(r, Err(VaultError::PSP34Error(PSP34Error::TokenExists)));
    assert!(same_state(&before, &v));
}

#[test]
fn refused_share_mint_restores_the_allowance() {
    let mut v = funded_vault();
    v.set_vault_controller_address(&alice(), carol()).unwrap();
    v.be_controlled(&carol(), 10, 0, 0).unwrap();
    v.pay_back_token(&alice(), 1100, 0, 1, Some(alice())).unwrap();
    let before = v.clone();
    assert_eq!(v.mint_shares(&alice()), 501);
    assert_eq!(
        v.conclude_mint_shares(before, Err(PSP22Error::ZeroRecipientAddress)),
        Err(SPGeneratingError::PSP22Error(PSP22Error::ZeroRecipientAddress))
    );
    assert_eq!(v.spgenerate.get_shares_minting_allowance(&alice()), 501);
}

#[test]
fn ceiling_refusal_comes_after_the_accrual_call() {
    let mut v = funded_vault();
    v.set_vault_controller_address(&alice(), carol()).unwrap();
    v.be_controlled(&carol(), 10, 0, 0).unwrap();
    let before = v.clone();
    // the debt is brought to 500000501 first, telling the stable coin
    let (calls, verdict) =
        v.withdraw_collateral(&alice(), 1100, 0, ONE_THOUSAND_UNITS / 2, Some(alice()), PRICE_2);
    assert_eq!(calls, vec![VaultAction::AddAccountDebt { account: alice(), amount: 501 }]);
    assert_eq!(verdict, Err(VaultError::CollateralBelowMinimum));
    assert!(same_state(&before, &v));
    // when the stable coin refuses that call, its refusal is the answer
    let refused = CallRefusal::PSP22(PSP22Error::Custom("no".to_string()));
    assert_eq!(
        v.conclude(before.clone(), Some((calls[0], refused)), verdict.clone()),
        Err(VaultError::PSP22Error(PSP22Error::Custom("no".to_string())))
    );
    // otherwise the ceiling's refusal is, and nothing is kept
    assert_eq!(v.conclude(before.clone(), None, verdict), Err(VaultError::CollateralBelowMinimum));
    assert!(same_state(&before, &v));
    // the same for a loan over the ceiling and a liquidation of a safe vault
    let (calls, verdict) = v.borrow_token(&alice(), 1100, 0, 500_000_000, Some(alice()), PRICE_2);
    assert_eq!(calls, vec![VaultAction::AddAccountDebt { account: alice(), amount: 501 }]);
    assert_eq!(verdict, Err(VaultError::CollateralBelowMinimum));
    v.set_liquidator_address(&alice(), bob()).unwrap();
    let (calls, verdict) = v.buy_risky_vault(&bob(), 1100, 0, Some(alice()), PRICE_2);
    assert_eq!(calls, vec![VaultAction::AddAccountDebt { account: alice(), amount: 501 }]);
    assert_eq!(verdict, Err(VaultError::CollateralAboveMinimum));
}
