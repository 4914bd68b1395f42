//! The vault controller: from the stability measure it sets the vault's
//! interest-rate step and collateral step (and a step for the stable coin's
//! holders).
use vstd::prelude::*;
use crate::account::AccountId;
use crate::errors::{MeasuringError, VaultError, VControllingError};

verus! {

/// The vault parameters for a stability measure: the interest-rate step,
/// the collateral step, and the stable coin's interest-rate step.
pub open spec fn vault_parameters_for(stability_measure: u8) -> (int, int, int) {
    let m = stability_measure as int;
    if m >= 206 {
        (-50, 50, m - 150)
    } else if m >= 156 {
        (0, m - 155, 0)
    } else if m >= 131 {
        (155 - m, 0, 0)
    } else if m >= 125 {
        (25, 0, 0)
    } else if m >= 50 {
        (150 - m, 0, 0)
    } else {
        (150 - m, 0, m - 50)
    }
}

pub fn _stability_measure_parameter_to_vault_parameters(stability_measure: u8) -> (r: (
    i16,
    u16,
    i16,
))
    ensures
        (r.0 as int, r.1 as int, r.2 as int) == vault_parameters_for(stability_measure),
{
    if stability_measure >= 206 {
        (-((255 - 205) as i16), 50, stability_measure as i16 - 205 + 55)
    } else if stability_measure >= 156 {
        (0, (stability_measure - 155) as u16, 0)
    } else if stability_measure >= 131 {
        ((155 - stability_measure) as i16, 0, 0)
    } else if stability_measure >= 125 {
        (25, 0, 0)
    } else if stability_measure >= 50 {
        ((150 - stability_measure) as i16, 0, 0)
    } else {
        ((150 - stability_measure) as i16, 0, stability_measure as i16 - 50)
    }
}

/// The addresses the vault controller works with.
#[derive(Clone, Copy, Debug)]
pub struct VControllingData {
    pub measurer_address: AccountId,
    pub vault_address: AccountId,
}

/// The vault controller contract.
#[derive(Clone, Copy, Debug)]
pub struct VControllerContract {
    pub owner: AccountId,
    pub control: VControllingData,
}

impl VControllerContract {
    pub fn new(measurer_address: AccountId, vault_address: AccountId, owner: AccountId) -> (r: Self)
        ensures
            r.owner == owner,
            r.control.measurer_address == measurer_address,
            r.control.vault_address == vault_address,
    {
        VControllerContract { owner, control: VControllingData { measurer_address, vault_address } }
    }

    /// The steps to set on the vault for the stability measure that the
    /// measurer answered.
    pub fn control_vault(&self, stability_measure: u8) -> (r: (i16, u16, i16))
        ensures
            (r.0 as int, r.1 as int, r.2 as int) == vault_parameters_for(stability_measure),
    {
        _stability_measure_parameter_to_vault_parameters(stability_measure)
    }

    /// The first step of controlling the vault, on the measurer's answer to
    /// the request to measure: a refusal is returned as the controller's
    /// error and the vault is not called; a measure gives the steps to set
    /// on the vault.
    pub fn control_vault_begin(&self, measured: Result<u8, MeasuringError>) -> (r: Result<
        (i16, u16, i16),
        VControllingError,
    >)
        ensures
            match measured {
                Ok(s) => r matches Ok(p) && (p.0 as int, p.1 as int, p.2 as int)
                    == vault_parameters_for(s),
                Err(e) => r == Err::<(i16, u16, i16), VControllingError>(
                    VControllingError::MeasuringError(e),
                ),
            },
    {
        match measured {
            Ok(s) => Ok(self.control_vault(s)),
            Err(e) => Err(VControllingError::MeasuringError(e)),
        }
    }

    /// The last step, on the vault's answer to the new steps: its refusal is
    /// returned as the controller's error.
    pub fn control_vault_end(&self, answered: Result<(), VaultError>) -> (r: Result<
        (),
        VControllingError,
    >)
        ensures
            match answered {
                Ok(()) => r == Ok::<(), VControllingError>(()),
                Err(e) => r == Err::<(), VControllingError>(VControllingError::VaultError(e)),
            },
    {
        match answered {
            Ok(()) => Ok(()),
            Err(e) => Err(VControllingError::VaultError(e)),
        }
    }

    pub fn get_vault_address(&self) -> (r: AccountId)
        ensures
            r == self.control.vault_address,
    {
        self.control.vault_address
    }

    pub fn get_measurer_address(&self) -> (r: AccountId)
        ensures
            r == self.control.measurer_address,
    {
        self.control.measurer_address
    }
}


/// As the stability measure rises, the vault's interest-rate step never
/// rises, its collateral step never falls and stays within 0..=50, and the
/// stable coin's step never falls.
pub proof fn lemma_vault_parameters_monotone(m1: u8, m2: u8)
    ensures
        ({
            let (i1, c1, s1) = vault_parameters_for(m1);
            let (i2, c2, s2) = vault_parameters_for(m2);
            &&& m1 <= m2 ==> i2 <= i1 && c1 <= c2 && s1 <= s2
            &&& 0 <= c1 <= 50
            &&& -50 <= i1 <= 150
        }),
{
}

/// The vault's steps by stability measure, band by band: from 206 on the
/// interest step is -50, the collateral step 50 and the holders' step the
/// measure less 150; from 156 to 205 only the collateral step moves, to the
/// measure less 155; from 131 to 155 the interest step is 155 less the
/// measure; from 125 to 130 it is 25; from 50 to 124 it is 150 less the
/// measure; below 50 it is 150 less the measure and the holders' step the
/// measure less 50.
pub proof fn lemma_vault_parameters_bands(m: u8)
    ensures
        m >= 206 ==> vault_parameters_for(m) == (-50int, 50int, m - 150),
        156 <= m <= 205 ==> vault_parameters_for(m) == (0int, m - 155, 0int),
        131 <= m <= 155 ==> vault_parameters_for(m) == (155 - m, 0int, 0int),
        125 <= m <= 130 ==> vault_parameters_for(m) == (25int, 0int, 0int),
        50 <= m <= 124 ==> vault_parameters_for(m) == (150 - m, 0int, 0int),
        m < 50 ==> vault_parameters_for(m) == (150 - m, 0int, m - 50),
{
}

} // verus!
