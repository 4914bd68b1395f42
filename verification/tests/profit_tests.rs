use stable_coin_project::access::{
    only_owner, pause, unpause, when_not_paused, when_paused, PauseEvent,
};
use stable_coin_project::account::{AccountId, AccountTable};
use stable_coin_project::errors::{
    OwnableError, PausableError, PausingError, PSP22Error, SPControllingError, SPGeneratingError,
};
use stable_coin_project::shares_profit_controlling::SPControllerContract;
use stable_coin_project::shares_profit_generating::SPGeneratingData;
use stable_coin_project::shares_token::SharesContract;

fn acc(b: u8) -> AccountId {
    AccountId([b; 32])
}

#[test]
fn account_equality_and_table() {
    assert!(acc(1).equals(&acc(1)));
    assert!(!acc(1).equals(&acc(2)));
    let mut x = [7u8; 32];
    x[31] = 8;
    assert!(!AccountId(x).equals(&acc(7)));
    let mut t: AccountTable<u128> = AccountTable::new();
    assert_eq!(t.get(&acc(1)), None);
    t.insert(acc(1), 5);
    t.insert(acc(2), 6);
    t.insert(acc(1), 7);
    assert_eq!(t.get(&acc(1)), Some(7));
    assert_eq!(t.get(&acc(2)), Some(6));
    let u = t.clone();
    assert_eq!(u.get(&acc(1)), Some(7));
}

#[test]
fn ownership_and_pause_checks() {
    assert_eq!(only_owner(&acc(1), &acc(1)), Ok(()));
    assert_eq!(only_owner(&acc(2), &acc(1)), Err(OwnableError::CallerIsNotOwner));
    assert_eq!(when_not_paused(true), Err(PausableError::Paused));
    assert_eq!(when_paused(false), Err(PausableError::NotPaused));
    let mut paused = false;
    assert_eq!(
        pause(&acc(2), &acc(1), &mut paused),
        Err(PausingError::OwnableError(OwnableError::CallerIsNotOwner))
    );
    assert_eq!(pause(&acc(1), &acc(1), &mut paused), Ok(PauseEvent::Paused { by: acc(1) }));
    assert!(paused);
    assert_eq!(unpause(&acc(1), &acc(1), &mut paused), Ok(PauseEvent::Unpaused { by: acc(1) }));
    assert!(!paused);
}

fn controller() -> SPControllerContract {
    let mut c = SPControllerContract::new(acc(9), acc(1));
    c.set_is_generator(&acc(1), acc(5), true).unwrap();
    c
}

#[test]
fn collect_profit_only_from_generators() {
    let mut c = controller();
    assert_eq!(c.collect_profit_begin(&acc(6)), Err(SPControllingError::Generator));
    assert_eq!(c.collect_profit(&acc(6), Ok(10)), Err(SPControllingError::Generator));
    assert_eq!(c.collect_profit_begin(&acc(5)), Ok(()));
    assert_eq!(c.collect_profit(&acc(5), Ok(1000)), Ok(1000));
    assert_eq!(c.collect_profit(&acc(5), Ok(-300)), Ok(-300));
    assert_eq!(
        c.collect_profit(&acc(5), Err(SPGeneratingError::Controller)),
        Err(SPControllingError::SPGeneratingError(SPGeneratingError::Controller))
    );
    assert_eq!(c.get_total_profit(), 700);
    c.set_is_generator(&acc(1), acc(5), false).unwrap();
    assert!(!c.is_generator(&acc(5)));
}

#[test]
fn distribute_income_splits_profit() {
    let mut c = controller();
    assert_eq!(c.distribute_income(), Err(SPControllingError::NoProfit));
    c.collect_profit(&acc(5), Ok(1000)).unwrap();
    assert_eq!(c.set_treassury_part_e6(&acc(1), 2_000_000), Err(SPControllingError::One));
    assert_eq!(c.set_treassury_part_e6(&acc(1), 250_000), Ok(()));
    assert_eq!(c.set_treassury_address(&acc(1), acc(7)), Ok(()));
    assert_eq!(c.distribute_income(), Ok(((acc(7), 250), (acc(1), 750))));
    assert_eq!(c.get_total_profit(), 0);
    assert_eq!(c.control.minted_amount, 1000);
    assert_eq!(c.distribute_income(), Err(SPControllingError::NoProfit));
    assert_eq!(c.get_treassury_part_e6(), 250_000);
    assert_eq!(c.get_treassury_address(), acc(7));
    assert_eq!(c.get_stable_coin_address(), acc(9));
}

#[test]
fn controller_setters_are_owner_only() {
    let mut c = controller();
    let e = Err(SPControllingError::OwnableError(OwnableError::CallerIsNotOwner));
    assert_eq!(c.set_is_generator(&acc(2), acc(6), true), e);
    assert_eq!(c.set_treassury_address(&acc(2), acc(6)), e);
    assert_eq!(c.set_treassury_part_e6(&acc(2), 1), e);
    assert_eq!(c.set_sharing_part_e6(&acc(2), &acc(5), 1), e);
    assert_eq!(c.set_sharing_part_e6(&acc(1), &acc(6), 1), Err(SPControllingError::Generator));
    assert_eq!(c.set_sharing_part_e6(&acc(1), &acc(5), 1), Ok(()));
}

#[test]
fn generator_gives_profit_to_controller_only() {
    let mut g = SPGeneratingData::new();
    g.shares_profit_controller_address = acc(3);
    g._add_profit(500);
    g._sub_profit(200);
    assert_eq!(g.give_profit(&acc(4)), Err(SPGeneratingError::Controller));
    assert_eq!(g.give_profit(&acc(3)), Ok(300));
    assert_eq!(g.get_generated_profit(), 0);
    assert_eq!(g.set_sharing_part_e6(&acc(4), 5), Err(SPGeneratingError::Controller));
    assert_eq!(g.set_sharing_part_e6(&acc(3), 500_000), Ok(()));
    g._add_profit_and_increase_shares_minting_allowance(1000, &acc(8));
    assert_eq!(g.get_shares_minting_allowance(&acc(8)), 500);
    assert_eq!(g.get_generated_profit(), 1000);
    assert_eq!(
        g.set_shares_profit_controller_address(&acc(4), &acc(1), acc(6)),
        Err(SPGeneratingError::OwnableError(OwnableError::CallerIsNotOwner))
    );
    assert_eq!(g.set_shares_profit_controller_address(&acc(1), &acc(1), acc(6)), Ok(()));
    assert_eq!(g.mint_shares(&acc(8)), 500);
    assert_eq!(g.get_shares_minting_allowance(&acc(8)), 0);
}

#[test]
fn profit_wraps_like_a_cast_of_the_amount() {
    let mut g = SPGeneratingData::new();
    // an amount above the i128 range counts as its two's-complement value
    g._add_profit(u128::MAX);
    assert_eq!(g.get_generated_profit(), -1);
}

#[test]
fn shares_minting_shrinks_with_supply() {
    let (mut s, initial) = SharesContract::new(acc(1));
    assert_eq!(initial, 10_000_000_000_000);
    assert_eq!(s.total_minted_amount, 10_000_000_000_000);
    assert_eq!(s.mint(true, 1_000_000), Ok(0));
    assert_eq!(s.mint(true, 4_000_000), Ok(2));
    assert_eq!(s.total_minted_amount, 10_000_000_000_002);
    assert_eq!(s.mint(true, 20_000_000_000_000), Ok(9_999_999));
    assert_eq!(s.pause(&acc(2)), Err(PausingError::OwnableError(OwnableError::CallerIsNotOwner)));
    assert_eq!(s.pause(&acc(1)), Ok(PauseEvent::Paused { by: acc(1) }));
    assert_eq!(s.mint(true, 4_000_000), Err(PSP22Error::Custom("P::Paused".to_string())));
    assert_eq!(s.unpause(&acc(1)), Ok(PauseEvent::Unpaused { by: acc(1) }));
    assert_eq!(s.mint(true, 4_000_000), Ok(1));
}

#[test]
fn shares_minting_needs_the_minter_role() {
    let (mut s, _) = SharesContract::new(acc(1));
    let before = s;
    assert_eq!(s.mint(false, 2_000_000_000_000), Err(PSP22Error::Custom("AC::MissingRole".to_string())));
    assert_eq!(s, before);
    assert_eq!(s.mint(true, 2_000_000_000_000), Ok(1_000_000));
    assert_eq!(s.mint(true, 2_000_000_000_000), Ok(999_999));
    assert_eq!(s.total_minted_amount, 10_000_000_000_000 + 1_000_000 + 999_999);
}

#[test]
fn refused_share_mint_is_undone() {
    let (mut s, _) = SharesContract::new(acc(1));
    let before = s;
    assert_eq!(s.mint(true, 2_000_000_000_000), Ok(1_000_000));
    assert_eq!(
        s.conclude_mint(before, Err(PSP22Error::ZeroRecipientAddress)),
        Err(PSP22Error::ZeroRecipientAddress)
    );
    assert_eq!(s, before);
    assert_eq!(s.mint(true, 2_000_000_000_000), Ok(1_000_000));
    assert_eq!(s.conclude_mint(before, Ok(())), Ok(()));
    assert_eq!(s.total_minted_amount, 10_000_001_000_000);
}

#[test]
fn abort_checks_of_profit_and_shares() {
    let mut c = controller();
    c.collect_profit(&acc(5), Ok(i128::MAX)).unwrap();
    assert!(c.collect_profit_aborts(&acc(5), &Ok(1)));
    assert!(!c.collect_profit_aborts(&acc(6), &Ok(1)));
    assert!(!c.distribute_income_aborts());
    c.control.treassury_part_e6 = 2_000_000;
    assert!(c.distribute_income_aborts());
    let (mut s, _) = SharesContract::new(acc(1));
    assert!(!s.mint_aborts(4_000_000));
    assert!(s.mint_aborts(u128::MAX));
    s.total_minted_amount = 0;
    assert!(s.mint_aborts(4_000_000));
}

#[test]
fn collected_profit_moves_from_generator_to_controller() {
    let mut c = controller();
    c.collect_profit(&acc(5), Ok(100)).unwrap();
    let mut g = SPGeneratingData::new();
    g.shares_profit_controller_address = acc(9);
    g._add_profit(400);
    let before = g.get_generated_profit() + c.get_total_profit();
    assert_eq!(c.collect_profit_begin(&acc(5)), Ok(()));
    let given = g.give_profit(&acc(9));
    assert_eq!(given, Ok(400));
    assert_eq!(c.collect_profit(&acc(5), given), Ok(400));
    assert_eq!(g.get_generated_profit(), 0);
    assert_eq!(c.get_total_profit(), 500);
    assert_eq!(g.get_generated_profit() + c.get_total_profit(), before);
}

#[test]
fn generator_refusals_are_answered() {
    let c = controller();
    assert_eq!(c.set_sharing_part_e6_end(Ok(())), Ok(()));
    assert_eq!(
        c.set_sharing_part_e6_end(Err(SPGeneratingError::Controller)),
        Err(SPControllingError::SPGeneratingError(SPGeneratingError::Controller))
    );
    let mut g = SPGeneratingData::new();
    g.sharing_part_e6 = 1_000_000;
    g._add_profit_and_increase_shares_minting_allowance(300, &acc(8));
    let before = g.clone();
    assert_eq!(g.mint_shares(&acc(8)), 300);
    assert_eq!(
        g.conclude_mint_shares(before, Err(PSP22Error::ZeroRecipientAddress)),
        Err(SPGeneratingError::PSP22Error(PSP22Error::ZeroRecipientAddress))
    );
    assert_eq!(g.get_shares_minting_allowance(&acc(8)), 300);
    let before = g.clone();
    assert_eq!(g.mint_shares(&acc(8)), 300);
    assert_eq!(g.conclude_mint_shares(before, Ok(())), Ok(()));
    assert_eq!(g.get_shares_minting_allowance(&acc(8)), 0);
}
