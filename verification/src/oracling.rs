//! The price oracle: it holds the collateral's price in dollars and in stable
//! coin, as fed to it.
use vstd::prelude::*;
use crate::account::AccountId;

verus! {

/// The two prices (six decimals) the oracle holds.
#[derive(Clone, Copy, Debug)]
pub struct OraclingData {
    pub azero_usd_price_e6: u128,
    pub azero_ausd_price_e6: u128,
}

/// The oracle contract.
#[derive(Clone, Copy, Debug)]
pub struct OracleContract {
    pub owner: AccountId,
    pub oracle: OraclingData,
}

impl OracleContract {
    /// An oracle whose prices are both zero.
    pub fn new(owner: AccountId) -> (r: Self)
        ensures
            r.owner == owner,
            r.oracle.azero_usd_price_e6 == 0,
            r.oracle.azero_ausd_price_e6 == 0,
    {
        OracleContract { owner, oracle: OraclingData { azero_usd_price_e6: 0, azero_ausd_price_e6: 0 } }
    }

    /// The oracle once the collateral's price in dollars is fed.
    pub open spec fn fed_usd(self, azero_usd_price_e6: u128) -> OracleContract {
        OracleContract { oracle: OraclingData { azero_usd_price_e6, ..self.oracle }, ..self }
    }

    /// The oracle once the collateral's price in stable coin is fed.
    pub open spec fn fed_ausd(self, azero_ausd_price_e6: u128) -> OracleContract {
        OracleContract { oracle: OraclingData { azero_ausd_price_e6, ..self.oracle }, ..self }
    }

    /// Records the collateral's price in dollars; anyone may feed it.
    pub fn feed_azero_usd_price_e6(&mut self, azero_usd_price_e6: u128)
        ensures
            *final(self) == old(self).fed_usd(azero_usd_price_e6),
    {
        self.oracle.azero_usd_price_e6 = azero_usd_price_e6;
    }

    /// Records the collateral's price in stable coin; anyone may feed it.
    pub fn feed_azero_ausd_price_e6(&mut self, azero_ausd_price_e6: u128)
        ensures
            *final(self) == old(self).fed_ausd(azero_ausd_price_e6),
    {
        self.oracle.azero_ausd_price_e6 = azero_ausd_price_e6;
    }

    pub fn get_azero_usd_price_e6(&self) -> (r: u128)
        ensures
            r == self.oracle.azero_usd_price_e6,
    {
        self.oracle.azero_usd_price_e6
    }

    pub fn get_azero_ausd_price_e6(&self) -> (r: u128)
        ensures
            r == self.oracle.azero_ausd_price_e6,
    {
        self.oracle.azero_ausd_price_e6
    }
}


/// The oracle answers the last price fed to it, and feeding one price leaves
/// the other as it was.
pub proof fn lemma_oracle_answers_last_feed(o: OracleContract, usd: u128, ausd: u128)
    ensures
        o.fed_usd(usd).oracle.azero_usd_price_e6 == usd,
        o.fed_usd(usd).oracle.azero_ausd_price_e6 == o.oracle.azero_ausd_price_e6,
        o.fed_ausd(ausd).oracle.azero_ausd_price_e6 == ausd,
        o.fed_ausd(ausd).oracle.azero_usd_price_e6 == o.oracle.azero_usd_price_e6,
        o.fed_usd(usd).fed_ausd(ausd) == o.fed_ausd(ausd).fed_usd(usd),
{
}

} // verus!
