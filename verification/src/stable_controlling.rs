//! The stable-coin controller: from the stability measure it sets the stable
//! coin's interest rate, and from the stable coin's dollar price its tax.
use vstd::prelude::*;
use crate::account::AccountId;
use crate::arith::E6;
use crate::access::only_owner;
use crate::errors::{MeasuringError, OwnableError, PSP22Error, SControllingError};

verus! {

/// Interest added per step of the measure beyond the neutral band.
pub const INTEREST_STEP: i128 = 318i128;

/// The stable coin's interest rate for a stability measure: zero from 50 to
/// 205, rising by a step per unit above 205 and falling by a step per unit
/// below 50.
pub open spec fn interest_rate_for(stability_measure: u8) -> int {
    if stability_measure >= 206 {
        (stability_measure - 205) * INTEREST_STEP
    } else if stability_measure >= 50 {
        0
    } else {
        -((50 - stability_measure) * INTEREST_STEP)
    }
}

/// The tax (six decimals) on the stable coin at a dollar price: none up to
/// 1.005 dollars, above it the excess over 1.005 as a part of the price.
pub open spec fn tax_for(ausd_usd_price_e6: u128) -> int {
    if ausd_usd_price_e6 <= 1005000 {
        0
    } else {
        (ausd_usd_price_e6 - 1005000) * E6 / (ausd_usd_price_e6 as int)
    }
}

/// Whether the tax computation at `ausd_usd_price_e6` stays within `u128`.
pub open spec fn tax_defined(ausd_usd_price_e6: u128) -> bool {
    ausd_usd_price_e6 > 1005000 ==> (ausd_usd_price_e6 - 1005000) * E6 <= u128::MAX
}

pub fn _stability_measure_parameter_to_interest_rate(stability_measure: u8) -> (r: i128)
    ensures
        r == interest_rate_for(stability_measure),
{
    if stability_measure >= 206 {
        ((stability_measure - 205) as i128) * INTEREST_STEP
    } else if stability_measure >= 50 {
        0
    } else {
        -((50 - stability_measure) as i128) * INTEREST_STEP
    }
}

pub fn _ausd_usd_price_e6_to_tax_e6(ausd_usd_price_e6: u128) -> (r: u128)
    requires
        tax_defined(ausd_usd_price_e6),
    ensures
        r == tax_for(ausd_usd_price_e6),
{
    if ausd_usd_price_e6 <= 1005000 {
        0
    } else {
        (ausd_usd_price_e6 - 1005000) * E6 / ausd_usd_price_e6
    }
}

/// Whether the tax computation at `ausd_usd_price_e6` leaves `u128`.
pub fn ausd_usd_price_e6_to_tax_e6_aborts(ausd_usd_price_e6: u128) -> (r: bool)
    ensures
        r == !tax_defined(ausd_usd_price_e6),
{
    ausd_usd_price_e6 > 1005000 && (ausd_usd_price_e6 - 1005000).checked_mul(E6).is_none()
}

/// The addresses the stable-coin controller works with.
#[derive(Clone, Copy, Debug)]
pub struct SControllingData {
    pub measurer_address: AccountId,
    pub stable_coin_address: AccountId,
}

/// The stable-coin controller contract.
#[derive(Clone, Copy, Debug)]
pub struct SControllerContract {
    pub owner: AccountId,
    pub control: SControllingData,
}

impl SControllerContract {
    pub fn new(measurer_address: AccountId, stable_coin_address: AccountId, owner: AccountId) -> (r:
        Self)
        ensures
            r.owner == owner,
            r.control.measurer_address == measurer_address,
            r.control.stable_coin_address == stable_coin_address,
    {
        SControllerContract {
            owner,
            control: SControllingData { measurer_address, stable_coin_address },
        }
    }

    /// From the stability measure and the stable coin's dollar price that the
    /// measurer answered, the interest rate and the tax to set on the stable
    /// coin.
    pub fn control_stable_coin(&self, stability_measure: u8, ausd_usd_price_e6: u128) -> (r: (
        i128,
        u128,
    ))
        requires
            tax_defined(ausd_usd_price_e6),
        ensures
            r.0 == interest_rate_for(stability_measure),
            r.1 == tax_for(ausd_usd_price_e6),
    {
        let interest_rate: i128 = _stability_measure_parameter_to_interest_rate(stability_measure);
        let tax_e6 = _ausd_usd_price_e6_to_tax_e6(ausd_usd_price_e6);
        (interest_rate, tax_e6)
    }

    /// The first step of controlling the stable coin, on the measurer's
    /// answer to the request to measure: a refusal is returned as the
    /// controller's error, and then neither the price is asked nor the stable
    /// coin called; a measure is passed on.
    pub fn control_stable_coin_begin(&self, measured: Result<u8, MeasuringError>) -> (r: Result<
        u8,
        SControllingError,
    >)
        ensures
            match measured {
                Ok(s) => r == Ok::<u8, SControllingError>(s),
                Err(e) => r == Err::<u8, SControllingError>(SControllingError::MeasuringError(e)),
            },
    {
        match measured {
            Ok(s) => Ok(s),
            Err(e) => Err(SControllingError::MeasuringError(e)),
        }
    }

    /// The last step, on the stable coin's answer to the new interest rate
    /// and tax: its refusal is returned as the controller's error.
    pub fn control_stable_coin_end(&self, answered: Result<(), PSP22Error>) -> (r: Result<
        (),
        SControllingError,
    >)
        ensures
            match answered {
                Ok(()) => r == Ok::<(), SControllingError>(()),
                Err(e) => r == Err::<(), SControllingError>(SControllingError::PSP22Error(e)),
            },
    {
        match answered {
            Ok(()) => Ok(()),
            Err(e) => Err(SControllingError::PSP22Error(e)),
        }
    }

    /// Sets the measurer to ask; only the owner may.
    pub fn set_measurer_address(&mut self, caller: &AccountId, new_measurer_address: AccountId) -> (r:
        Result<(), SControllingError>)
        ensures
            *caller != old(self).owner ==> r == Err::<(), SControllingError>(
                SControllingError::OwnableError(OwnableError::CallerIsNotOwner),
            ) && *final(self) == *old(self),
            *caller == old(self).owner ==> r is Ok && *final(self) == (SControllerContract {
                control: SControllingData {
                    measurer_address: new_measurer_address,
                    ..old(self).control
                },
                ..*old(self)
            }),
    {
        match only_owner(caller, &self.owner) {
            Err(e) => return Err(SControllingError::OwnableError(e)),
            Ok(()) => {},
        }
        self.control.measurer_address = new_measurer_address;
        Ok(())
    }

    pub fn get_stable_coin_address(&self) -> (r: AccountId)
        ensures
            r == self.control.stable_coin_address,
    {
        self.control.stable_coin_address
    }

    pub fn get_measurer_address(&self) -> (r: AccountId)
        ensures
            r == self.control.measurer_address,
    {
        self.control.measurer_address
    }
}


/// The stable coin's interest rate never falls as the stability measure
/// rises, and it is zero exactly on the neutral band from 50 to 205.
pub proof fn lemma_interest_rate_monotone(m1: u8, m2: u8)
    ensures
        m1 <= m2 ==> interest_rate_for(m1) <= interest_rate_for(m2),
        (interest_rate_for(m1) == 0) == (50 <= m1 <= 205),
{
}

/// The tax is zero up to 1.005 dollars and below one whole above it.
pub proof fn lemma_tax_below_one(ausd_usd_price_e6: u128)
    requires
        tax_defined(ausd_usd_price_e6),
    ensures
        ausd_usd_price_e6 <= 1005000 ==> tax_for(ausd_usd_price_e6) == 0,
        0 <= tax_for(ausd_usd_price_e6) < E6,
{
    if ausd_usd_price_e6 > 1005000 {
        let p = ausd_usd_price_e6 as int;
        assert((p - 1005000) * 1000000 / p < 1000000) by (nonlinear_arith)
            requires
                p > 1005000,
        ;
        assert((p - 1005000) * 1000000 / p >= 0) by (nonlinear_arith)
            requires
                p > 1005000,
        ;
    }
}

/// The stable coin's interest rate by stability measure: zero on the
/// neutral band from 50 to 205, 318 at 206 and 318 more for every step
/// above, minus 318 at 49 and 318 less for every step below.
pub proof fn lemma_interest_rate_bands(m: u8)
    ensures
        50 <= m <= 205 ==> interest_rate_for(m) == 0,
        m == 206 ==> interest_rate_for(m) == 318,
        m > 206 ==> interest_rate_for(m) - interest_rate_for((m - 1) as u8) == 318,
        m == 49 ==> interest_rate_for(m) == -318,
        m < 49 ==> interest_rate_for(m) - interest_rate_for((m + 1) as u8) == -318,
{
}

/// The tax on the stable coin: none up to 1.005 dollars; above, the share
/// (six decimals, rounded down) of the price that exceeds 1.005 dollars.
pub proof fn lemma_tax_bands(p: u128)
    ensures
        p <= 1_005_000 ==> tax_for(p) == 0,
        p > 1_005_000 ==> tax_for(p) == (p - 1_005_000) * 1_000_000 / (p as int),
{
}

} // verus!
