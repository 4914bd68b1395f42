//! The stability measurer: from the oracle's prices it derives the price of
//! the stable coin in dollars, and at intervals that shrink as that price
//! moves away from one dollar it steps a stability measure (0..=255, balanced
//! at 128) up or down.
use vstd::prelude::*;
use crate::account::AccountId;
use crate::arith::E6;
use crate::access::only_owner;
use crate::errors::{MeasuringError, OwnableError};

verus! {

pub const SECOND: u64 = 1u64;

pub const MINUTE: u64 = 60u64;

pub const HOUR: u64 = 3600u64;

/// The time that must pass between two measurements when the stable coin is
/// worth `ausd_usd_price_e6` dollars (six decimals): half a minute far from
/// the peg, two hours near it.
pub open spec fn measurement_period(ausd_usd_price_e6: u128) -> u64 {
    let p = ausd_usd_price_e6;
    if p <= 940000 {
        30
    } else if p <= 950000 {
        7200
    } else if p <= 960000 {
        60
    } else if p <= 970000 {
        300
    } else if p <= 980000 {
        900
    } else if p <= 990000 {
        1800
    } else if p <= 995000 {
        3600
    } else if p <= 1005000 {
        7200
    } else if p <= 1010000 {
        3600
    } else if p <= 1020000 {
        1800
    } else if p <= 1030000 {
        900
    } else if p <= 1040000 {
        300
    } else if p <= 1050000 {
        60
    } else {
        30
    }
}

/// The measurement period for a stable-coin price, by the table of price
/// bands that the measurer applies in order.
pub fn _ausd_usd_price_e6_to_measurement_period(ausd_usd_price_e6: u128) -> (r: u64)
    ensures
        r == measurement_period(ausd_usd_price_e6),
{
    let p = ausd_usd_price_e6;
    if p <= 940000 {
        30 * SECOND
    } else if 950001 <= p && p <= 960000 {
        1 * MINUTE
    } else if 960001 <= p && p <= 970000 {
        5 * MINUTE
    } else if 970001 <= p && p <= 980000 {
        15 * MINUTE
    } else if 980001 <= p && p <= 990000 {
        30 * MINUTE
    } else if 990001 <= p && p <= 995000 {
        HOUR
    } else if 995001 <= p && p <= 999000 {
        2 * HOUR
    } else if 999001 <= p && p <= 1001000 {
        2 * HOUR
    } else if 100101 <= p && p <= 1005000 {
        2 * HOUR
    } else if 100501 <= p && p <= 1010000 {
        HOUR
    } else if 101001 <= p && p <= 1020000 {
        30 * MINUTE
    } else if 102001 <= p && p <= 1030000 {
        15 * MINUTE
    } else if 103001 <= p && p <= 1040000 {
        5 * MINUTE
    } else if 104001 <= p && p <= 1050000 {
        1 * MINUTE
    } else {
        30 * SECOND
    }
}

/// The measurer's storage.
#[derive(Clone, Copy, Debug)]
pub struct MeasuringData {
    pub oracle_address: AccountId,
    pub stability_measure: u8,
    pub ausd_usd_price_e6: u128,
    pub measurement_timestamp: u64,
}

/// Price of the stable coin in dollars (six decimals), from the collateral's
/// price in dollars and in stable coin.
pub open spec fn ausd_usd_price(azero_usd_price_e6: u128, azero_ausd_price_e6: u128) -> int {
    azero_usd_price_e6 * E6 / (azero_ausd_price_e6 as int)
}

/// The next stability measure: above 1.001 stable coins per collateral unit
/// it rises, below 0.999 it falls, and in between it moves one step toward 128.
pub open spec fn next_stability_measure(measure: u8, azero_ausd_price_e6: u128) -> int {
    if azero_ausd_price_e6 > 1001000 {
        measure + 1
    } else if azero_ausd_price_e6 < 999000 {
        measure - 1
    } else if measure > 128 {
        measure - 1
    } else if measure < 128 {
        measure + 1
    } else {
        measure as int
    }
}

impl MeasuringData {
    /// Whether a measurement at `now` is due: more time than the period for
    /// the new price has passed since the last one.
    pub open spec fn measurement_due(self, now: u64, ausd_usd_price_e6: u128) -> bool {
        measurement_period(ausd_usd_price_e6) < now - self.measurement_timestamp
    }

    pub open spec fn update_defined(
        self,
        now: u64,
        azero_usd_price_e6: u128,
        azero_ausd_price_e6: u128,
    ) -> bool {
        let p = ausd_usd_price(azero_usd_price_e6, azero_ausd_price_e6);
        &&& azero_usd_price_e6 * E6 <= u128::MAX
        &&& azero_ausd_price_e6 != 0
        &&& now >= self.measurement_timestamp
        &&& self.measurement_due(now, p as u128) ==> 0 <= next_stability_measure(
            self.stability_measure,
            azero_ausd_price_e6,
        ) <= 255
    }

    /// The storage after a measurement at `now`: the stable coin's price is
    /// always recorded; when a measurement is due the measure steps and the
    /// time of the measurement is recorded.
    pub open spec fn updated(
        self,
        now: u64,
        azero_usd_price_e6: u128,
        azero_ausd_price_e6: u128,
    ) -> MeasuringData {
        let p = ausd_usd_price(azero_usd_price_e6, azero_ausd_price_e6) as u128;
        if self.measurement_due(now, p) {
            MeasuringData {
                ausd_usd_price_e6: p,
                stability_measure: next_stability_measure(
                    self.stability_measure,
                    azero_ausd_price_e6,
                ) as u8,
                measurement_timestamp: now,
                ..self
            }
        } else {
            MeasuringData { ausd_usd_price_e6: p, ..self }
        }
    }
}

/// The measurer contract.
#[derive(Clone, Copy, Debug)]
pub struct MeasurerContract {
    pub owner: AccountId,
    pub measure: MeasuringData,
}

impl MeasurerContract {
    /// A measurer that reads `oracle_address`; the measure, the price and the
    /// time of the last measurement start at zero.
    pub fn new(oracle_address: AccountId, owner: AccountId) -> (r: Self)
        ensures
            r.owner == owner,
            r.measure == (MeasuringData {
                oracle_address,
                stability_measure: 0,
                ausd_usd_price_e6: 0,
                measurement_timestamp: 0,
            }),
    {
        MeasurerContract {
            owner,
            measure: MeasuringData {
                oracle_address,
                stability_measure: 0,
                ausd_usd_price_e6: 0,
                measurement_timestamp: 0,
            },
        }
    }

    /// Takes a measurement at `now` from the oracle's two prices and returns
    /// the stability measure.
    pub fn update_stability_measure_parameter(
        &mut self,
        now: u64,
        azero_usd_price_e6: u128,
        azero_ausd_price_e6: u128,
    ) -> (r: Result<u8, MeasuringError>)
        requires
            old(self).measure.update_defined(now, azero_usd_price_e6, azero_ausd_price_e6),
        ensures
            final(self).owner == old(self).owner,
            final(self).measure == old(self).measure.updated(
                now,
                azero_usd_price_e6,
                azero_ausd_price_e6,
            ),
            r == Ok::<u8, MeasuringError>(final(self).measure.stability_measure),
    {
        let ausd_usd_price_e6 = azero_usd_price_e6 * E6 / azero_ausd_price_e6;
        self.measure.ausd_usd_price_e6 = ausd_usd_price_e6;
        let last_measurement_timestamp = self.measure.measurement_timestamp;
        let current_timestamp = now;
        let time_passed = current_timestamp - last_measurement_timestamp;
        if _ausd_usd_price_e6_to_measurement_period(ausd_usd_price_e6) < time_passed {
            if azero_ausd_price_e6 > 1001000 {
                self.measure.stability_measure = self.measure.stability_measure + 1;
            } else if azero_ausd_price_e6 < 999000 {
                self.measure.stability_measure = self.measure.stability_measure - 1;
            } else {
                if self.measure.stability_measure > 128 {
                    self.measure.stability_measure = self.measure.stability_measure - 1;
                } else if self.measure.stability_measure < 128 {
                    self.measure.stability_measure = self.measure.stability_measure + 1;
                }
            }
            self.measure.measurement_timestamp = current_timestamp;
        }
        Ok(self.measure.stability_measure)
    }

    /// Whether a measurement at `now` from these prices divides by zero,
    /// leaves the integer ranges, goes back in time, or steps the measure out
    /// of 0..=255.
    pub fn update_stability_measure_parameter_aborts(
        &self,
        now: u64,
        azero_usd_price_e6: u128,
        azero_ausd_price_e6: u128,
    ) -> (r: bool)
        ensures
            r == !self.measure.update_defined(now, azero_usd_price_e6, azero_ausd_price_e6),
    {
        if azero_ausd_price_e6 == 0 || now < self.measure.measurement_timestamp {
            return true;
        }
        let ausd_usd_price_e6 = match azero_usd_price_e6.checked_mul(E6) {
            Some(x) => x / azero_ausd_price_e6,
            None => return true,
        };
        let time_passed = now - self.measure.measurement_timestamp;
        if _ausd_usd_price_e6_to_measurement_period(ausd_usd_price_e6) < time_passed {
            let m = self.measure.stability_measure;
            (azero_ausd_price_e6 > 1001000 && m == 255) || (azero_ausd_price_e6 <= 1001000
                && azero_ausd_price_e6 < 999000 && m == 0)
        } else {
            false
        }
    }

    /// Sets the oracle to read; only the owner may.
    pub fn set_oracle_address(&mut self, caller: &AccountId, new_oracle_address: AccountId) -> (r:
        Result<(), MeasuringError>)
        ensures
            *caller != old(self).owner ==> r == Err::<(), MeasuringError>(
                MeasuringError::OwnableError(OwnableError::CallerIsNotOwner),
            ) && *final(self) == *old(self),
            *caller == old(self).owner ==> r is Ok && *final(self) == (MeasurerContract {
                measure: MeasuringData { oracle_address: new_oracle_address, ..old(self).measure },
                ..*old(self)
            }),
    {
        match only_owner(caller, &self.owner) {
            Err(e) => return Err(MeasuringError::OwnableError(e)),
            Ok(()) => {},
        }
        self.measure.oracle_address = new_oracle_address;
        Ok(())
    }

    pub fn get_stability_measure_parameter(&self) -> (r: u8)
        ensures
            r == self.measure.stability_measure,
    {
        self.measure.stability_measure
    }

    pub fn get_ausd_usd_price_e6(&self) -> (r: u128)
        ensures
            r == self.measure.ausd_usd_price_e6,
    {
        self.measure.ausd_usd_price_e6
    }

    pub fn get_measurement_timestamp(&self) -> (r: u64)
        ensures
            r == self.measure.measurement_timestamp,
    {
        self.measure.measurement_timestamp
    }

    pub fn get_oracle_address(&self) -> (r: AccountId)
        ensures
            r == self.measure.oracle_address,
    {
        self.measure.oracle_address
    }
}


/// A measurement moves the stability measure by at most one step.
pub proof fn lemma_measure_moves_one_step(
    d: MeasuringData,
    now: u64,
    azero_usd_price_e6: u128,
    azero_ausd_price_e6: u128,
)
    requires
        d.update_defined(now, azero_usd_price_e6, azero_ausd_price_e6),
    ensures
        ({
            let n = d.updated(now, azero_usd_price_e6, azero_ausd_price_e6);
            &&& d.stability_measure - 1 <= n.stability_measure <= d.stability_measure + 1
            &&& n.oracle_address == d.oracle_address
        }),
{
}

/// Within the band of 0.999 to 1.001 stable coins per collateral unit, a
/// measurement moves the measure toward 128 and never past it.
pub proof fn lemma_measure_returns_to_balance(
    d: MeasuringData,
    now: u64,
    azero_usd_price_e6: u128,
    azero_ausd_price_e6: u128,
)
    requires
        d.update_defined(now, azero_usd_price_e6, azero_ausd_price_e6),
        999000 <= azero_ausd_price_e6 <= 1001000,
    ensures
        ({
            let n = d.updated(now, azero_usd_price_e6, azero_ausd_price_e6);
            &&& d.stability_measure >= 128 ==> 128 <= n.stability_measure <= d.stability_measure
            &&& d.stability_measure <= 128 ==> d.stability_measure <= n.stability_measure <= 128
        }),
{
}

/// Outside its period nothing is measured: the measure and the time of the
/// last measurement stay, and only the stable coin's price is recorded.
pub proof fn lemma_measure_waits_for_period(
    d: MeasuringData,
    now: u64,
    azero_usd_price_e6: u128,
    azero_ausd_price_e6: u128,
)
    requires
        d.update_defined(now, azero_usd_price_e6, azero_ausd_price_e6),
        now - d.measurement_timestamp <= measurement_period(
            ausd_usd_price(azero_usd_price_e6, azero_ausd_price_e6) as u128,
        ),
    ensures
        ({
            let n = d.updated(now, azero_usd_price_e6, azero_ausd_price_e6);
            &&& n.stability_measure == d.stability_measure
            &&& n.measurement_timestamp == d.measurement_timestamp
            &&& n.ausd_usd_price_e6 == ausd_usd_price(azero_usd_price_e6, azero_ausd_price_e6)
        }),
{
}

/// Two measurements at the same time step the measure at most once: when
/// the first steps it, the second leaves the measure and the time of
/// measurement as they were.
pub proof fn lemma_measure_once_per_instant(
    d: MeasuringData,
    now: u64,
    usd1: u128,
    ausd1: u128,
    usd2: u128,
    ausd2: u128,
)
    requires
        d.update_defined(now, usd1, ausd1),
        d.updated(now, usd1, ausd1).update_defined(now, usd2, ausd2),
    ensures
        ({
            let n1 = d.updated(now, usd1, ausd1);
            let n2 = n1.updated(now, usd2, ausd2);
            n1.measurement_timestamp == now ==> {
                &&& n2.stability_measure == n1.stability_measure
                &&& n2.measurement_timestamp == now
            }
        }),
{
}

/// A measurement follows the supply of the stable coin, whatever the measure
/// was: when one is due, more than 1.001 stable coins per collateral unit
/// raise the measure by one and fewer than 0.999 lower it by one, and the
/// time of the measurement is recorded; when none is due the measure and that
/// time stay. The stable coin's dollar price is always recorded, and once more
/// than two hours have passed a measurement is always due.
pub proof fn lemma_measure_follows_supply(
    d: MeasuringData,
    now: u64,
    azero_usd_price_e6: u128,
    azero_ausd_price_e6: u128,
)
    requires
        azero_ausd_price_e6 != 0,
        azero_usd_price_e6 * 1_000_000 <= u128::MAX,
        now >= d.measurement_timestamp,
    ensures
        ({
            let p = (azero_usd_price_e6 * 1_000_000 / (azero_ausd_price_e6 as int)) as u128;
            let n = d.updated(now, azero_usd_price_e6, azero_ausd_price_e6);
            &&& n.ausd_usd_price_e6 == p
            &&& n.oracle_address == d.oracle_address
            &&& now - d.measurement_timestamp > 7200 ==> d.measurement_due(now, p)
            &&& d.measurement_due(now, p) ==> n.measurement_timestamp == now
            &&& d.measurement_due(now, p) && azero_ausd_price_e6 > 1_001_000 && d.stability_measure
                < 255 ==> n.stability_measure == d.stability_measure + 1
            &&& d.measurement_due(now, p) && azero_ausd_price_e6 < 999_000 && d.stability_measure
                > 0 ==> n.stability_measure == d.stability_measure - 1
            &&& !d.measurement_due(now, p) ==> n.stability_measure == d.stability_measure
                && n.measurement_timestamp == d.measurement_timestamp
        }),
{
}

/// The time between measurements shrinks as the stable coin's price leaves
/// the peg: two hours from 0.995001 to 1.005 dollars (and, by the order of
/// the bands, from 0.940001 to 0.95), one hour up to 0.995 and up to 1.01,
/// half an hour up to 0.99 and up to 1.02, a quarter up to 0.98 and up to
/// 1.03, five minutes up to 0.97 and up to 1.04, a minute up to 0.96 and up
/// to 1.05, and half a minute beyond.
pub proof fn lemma_measurement_period_bands(p: u128)
    ensures
        p <= 940_000 ==> measurement_period(p) == 30,
        940_001 <= p <= 950_000 ==> measurement_period(p) == 7200,
        950_001 <= p <= 960_000 ==> measurement_period(p) == 60,
        960_001 <= p <= 970_000 ==> measurement_period(p) == 300,
        970_001 <= p <= 980_000 ==> measurement_period(p) == 900,
        980_001 <= p <= 990_000 ==> measurement_period(p) == 1800,
        990_001 <= p <= 995_000 ==> measurement_period(p) == 3600,
        995_001 <= p <= 1_005_000 ==> measurement_period(p) == 7200,
        1_005_001 <= p <= 1_010_000 ==> measurement_period(p) == 3600,
        1_010_001 <= p <= 1_020_000 ==> measurement_period(p) == 1800,
        1_020_001 <= p <= 1_030_000 ==> measurement_period(p) == 900,
        1_030_001 <= p <= 1_040_000 ==> measurement_period(p) == 300,
        1_040_001 <= p <= 1_050_000 ==> measurement_period(p) == 60,
        p > 1_050_000 ==> measurement_period(p) == 30,
{
}

} // verus!
