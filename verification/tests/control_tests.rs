use stable_coin_project::account::AccountId;
use stable_coin_project::errors::{
    MeasuringError, OwnableError, PSP22Error, SControllingError, VControllingError, VaultError,
};
use stable_coin_project::measuring::{_ausd_usd_price_e6_to_measurement_period, MeasurerContract};
use stable_coin_project::oracling::OracleContract;
use stable_coin_project::stable_controlling::{
    _ausd_usd_price_e6_to_tax_e6, _stability_measure_parameter_to_interest_rate,
    SControllerContract,
};
use stable_coin_project::vault_controlling::{
    _stability_measure_parameter_to_vault_parameters, VControllerContract,
};

fn acc(b: u8) -> AccountId {
    AccountId([b; 32])
}

#[test]
fn measurement_period_bands() {
    assert_eq!(_ausd_usd_price_e6_to_measurement_period(0), 30);
    assert_eq!(_ausd_usd_price_e6_to_measurement_period(940_000), 30);
    // the band table applies its entries in order: this band falls to the
    // two-hour entry that starts at 100101
    assert_eq!(_ausd_usd_price_e6_to_measurement_period(945_000), 7200);
    assert_eq!(_ausd_usd_price_e6_to_measurement_period(955_000), 60);
    assert_eq!(_ausd_usd_price_e6_to_measurement_period(965_000), 300);
    assert_eq!(_ausd_usd_price_e6_to_measurement_period(975_000), 900);
    assert_eq!(_ausd_usd_price_e6_to_measurement_period(985_000), 1800);
    assert_eq!(_ausd_usd_price_e6_to_measurement_period(992_000), 3600);
    assert_eq!(_ausd_usd_price_e6_to_measurement_period(1_000_000), 7200);
    assert_eq!(_ausd_usd_price_e6_to_measurement_period(1_005_000), 7200);
    assert_eq!(_ausd_usd_price_e6_to_measurement_period(1_007_000), 3600);
    assert_eq!(_ausd_usd_price_e6_to_measurement_period(1_015_000), 1800);
    assert_eq!(_ausd_usd_price_e6_to_measurement_period(1_025_000), 900);
    assert_eq!(_ausd_usd_price_e6_to_measurement_period(1_035_000), 300);
    assert_eq!(_ausd_usd_price_e6_to_measurement_period(1_045_000), 60);
    assert_eq!(_ausd_usd_price_e6_to_measurement_period(1_060_000), 30);
    assert_eq!(_ausd_usd_price_e6_to_measurement_period(u128::MAX), 30);
}

#[test]
fn measurer_waits_for_its_period() {
    let mut m = MeasurerContract::new(acc(1), acc(2));
    // 1 / 1.002 dollars: 998003, whose period is two hours
    assert_eq!(m.update_stability_measure_parameter(100, 1_000_000, 1_002_000), Ok(0));
    assert_eq!(m.get_ausd_usd_price_e6(), 998_003);
    assert_eq!(m.get_measurement_timestamp(), 0);
    assert_eq!(m.update_stability_measure_parameter(10_000, 1_000_000, 1_002_000), Ok(1));
    assert_eq!(m.get_measurement_timestamp(), 10_000);
    // at the same instant nothing more is measured
    assert_eq!(m.update_stability_measure_parameter(10_000, 1_000_000, 1_002_000), Ok(1));
    assert_eq!(m.get_stability_measure_parameter(), 1);
}

#[test]
fn measurer_steps_down_and_back_to_balance() {
    let mut m = MeasurerContract::new(acc(1), acc(2));
    m.measure.stability_measure = 130;
    // cheap collateral in stable coin: the measure falls
    assert_eq!(m.update_stability_measure_parameter(10_000, 1_000_000, 998_000), Ok(129));
    // in the band it moves toward 128
    assert_eq!(m.update_stability_measure_parameter(100_000, 1_000_000, 1_000_000), Ok(128));
    assert_eq!(m.update_stability_measure_parameter(200_000, 1_000_000, 1_000_000), Ok(128));
    m.measure.stability_measure = 100;
    assert_eq!(m.update_stability_measure_parameter(300_000, 1_000_000, 1_000_000), Ok(101));
}

#[test]
fn measurer_oracle_is_owner_only() {
    let mut m = MeasurerContract::new(acc(1), acc(2));
    assert_eq!(
        m.set_oracle_address(&acc(3), acc(4)),
        Err(MeasuringError::OwnableError(OwnableError::CallerIsNotOwner))
    );
    assert_eq!(m.set_oracle_address(&acc(2), acc(4)), Ok(()));
    assert_eq!(m.get_oracle_address(), acc(4));
}

#[test]
fn stable_coin_interest_rate_by_measure() {
    assert_eq!(_stability_measure_parameter_to_interest_rate(255), 15_900);
    assert_eq!(_stability_measure_parameter_to_interest_rate(206), 318);
    assert_eq!(_stability_measure_parameter_to_interest_rate(205), 0);
    assert_eq!(_stability_measure_parameter_to_interest_rate(128), 0);
    assert_eq!(_stability_measure_parameter_to_interest_rate(50), 0);
    assert_eq!(_stability_measure_parameter_to_interest_rate(49), -318);
    assert_eq!(_stability_measure_parameter_to_interest_rate(0), -15_900);
}

#[test]
fn stable_coin_tax_by_price() {
    assert_eq!(_ausd_usd_price_e6_to_tax_e6(0), 0);
    assert_eq!(_ausd_usd_price_e6_to_tax_e6(1_005_000), 0);
    assert_eq!(_ausd_usd_price_e6_to_tax_e6(1_010_000), 4_950);
    assert_eq!(_ausd_usd_price_e6_to_tax_e6(2_000_000), 497_500);
}

#[test]
fn stable_controller_controls_and_is_owned() {
    let mut c = SControllerContract::new(acc(1), acc(2), acc(3));
    assert_eq!(c.control_stable_coin(210, 1_010_000), (1_590, 4_950));
    assert_eq!(c.get_stable_coin_address(), acc(2));
    assert_eq!(
        c.set_measurer_address(&acc(4), acc(5)),
        Err(SControllingError::OwnableError(OwnableError::CallerIsNotOwner))
    );
    assert_eq!(c.set_measurer_address(&acc(3), acc(5)), Ok(()));
    assert_eq!(c.get_measurer_address(), acc(5));
}

#[test]
fn vault_parameters_by_measure() {
    assert_eq!(_stability_measure_parameter_to_vault_parameters(255), (-50, 50, 105));
    assert_eq!(_stability_measure_parameter_to_vault_parameters(206), (-50, 50, 56));
    assert_eq!(_stability_measure_parameter_to_vault_parameters(205), (0, 50, 0));
    assert_eq!(_stability_measure_parameter_to_vault_parameters(156), (0, 1, 0));
    assert_eq!(_stability_measure_parameter_to_vault_parameters(155), (0, 0, 0));
    assert_eq!(_stability_measure_parameter_to_vault_parameters(131), (24, 0, 0));
    assert_eq!(_stability_measure_parameter_to_vault_parameters(130), (25, 0, 0));
    assert_eq!(_stability_measure_parameter_to_vault_parameters(125), (25, 0, 0));
    assert_eq!(_stability_measure_parameter_to_vault_parameters(124), (26, 0, 0));
    assert_eq!(_stability_measure_parameter_to_vault_parameters(50), (100, 0, 0));
    assert_eq!(_stability_measure_parameter_to_vault_parameters(49), (101, 0, -1));
    assert_eq!(_stability_measure_parameter_to_vault_parameters(0), (150, 0, -50));
}

#[test]
fn vault_controller_controls() {
    let c = VControllerContract::new(acc(1), acc(2), acc(3));
    assert_eq!(c.control_vault(180), (0, 25, 0));
    assert_eq!(c.get_vault_address(), acc(2));
    assert_eq!(c.get_measurer_address(), acc(1));
}

#[test]
fn oracle_answers_last_feed() {
    let mut o = OracleContract::new(acc(1));
    assert_eq!(o.get_azero_usd_price_e6(), 0);
    o.feed_azero_usd_price_e6(2_000_000);
    o.feed_azero_ausd_price_e6(1_990_000);
    o.feed_azero_usd_price_e6(2_100_000);
    assert_eq!(o.get_azero_usd_price_e6(), 2_100_000);
    assert_eq!(o.get_azero_ausd_price_e6(), 1_990_000);
}

#[test]
fn abort_checks_of_measurer_and_tax() {
    let m = MeasurerContract::new(acc(1), acc(2));
    assert!(m.update_stability_measure_parameter_aborts(100, 1_000_000, 0));
    assert!(m.update_stability_measure_parameter_aborts(100, u128::MAX, 1_000_000));
    // a due measurement below 0.999 would take the measure below zero
    assert!(m.update_stability_measure_parameter_aborts(10_000, 1_000_000, 998_000));
    assert!(!m.update_stability_measure_parameter_aborts(10_000, 1_000_000, 1_002_000));
    assert!(stable_coin_project::stable_controlling::ausd_usd_price_e6_to_tax_e6_aborts(u128::MAX));
    assert!(!stable_coin_project::stable_controlling::ausd_usd_price_e6_to_tax_e6_aborts(2_000_000));
}

#[test]
fn vault_controller_answers_refusals() {
    let c = VControllerContract::new(acc(1), acc(2), acc(3));
    let refused = MeasuringError::OwnableError(OwnableError::CallerIsNotOwner);
    assert_eq!(
        c.control_vault_begin(Err(refused.clone())),
        Err(VControllingError::MeasuringError(refused))
    );
    assert_eq!(c.control_vault_begin(Ok(160)), Ok((0, 5, 0)));
    assert_eq!(c.control_vault_end(Ok(())), Ok(()));
    assert_eq!(
        c.control_vault_end(Err(VaultError::VaultController)),
        Err(VControllingError::VaultError(VaultError::VaultController))
    );
}

#[test]
fn stable_controller_answers_refusals() {
    let c = SControllerContract::new(acc(1), acc(2), acc(3));
    let refused = MeasuringError::OwnableError(OwnableError::CallerIsNotOwner);
    assert_eq!(
        c.control_stable_coin_begin(Err(refused.clone())),
        Err(SControllingError::MeasuringError(refused))
    );
    assert_eq!(c.control_stable_coin_begin(Ok(128)), Ok(128));
    assert_eq!(c.control_stable_coin_end(Ok(())), Ok(()));
    assert_eq!(
        c.control_stable_coin_end(Err(PSP22Error::InsufficientBalance)),
        Err(SControllingError::PSP22Error(PSP22Error::InsufficientBalance))
    );
}
