use vstd::prelude::*;
use crate::address::Address;
use crate::business::BusinessType;
use crate::territory::District;

verus! {

/// A plot was issued to `owner`.
#[derive(Clone, Copy, Debug, PartialEq, Eq)]
pub struct TerritoryMinted {
    pub mint: Address,
    pub owner: Address,
    pub district: District,
    pub plot_id: u16,
    pub base_income: u64,
    pub timestamp: i64,
}

/// A plot's income was settled: `net_income` goes to the owner and
/// `tax_amount` to the treasury.
#[derive(Clone, Copy, Debug, PartialEq, Eq)]
pub struct IncomeClaimed {
    pub territory: Address,
    pub owner: Address,
    pub gross_income: u64,
    pub net_income: u64,
    pub tax_amount: u64,
    pub days_claimed: u64,
    pub timestamp: i64,
}

/// The owner paid `investment` to harden a plot.
#[derive(Clone, Copy, Debug, PartialEq, Eq)]
pub struct SecurityUpgraded {
    pub territory: Address,
    pub owner: Address,
    pub investment: u64,
    pub new_security_level: u8,
    pub timestamp: i64,
}

/// An attack was launched; `success` is the outcome it computed.
#[derive(Clone, Copy, Debug, PartialEq, Eq)]
pub struct TerritoryAttacked {
    pub attacker: Address,
    pub attacker_territory: Address,
    pub defender_territory: Address,
    pub attack_power: u8,
    pub defense_power: u8,
    pub success: bool,
    pub timestamp: i64,
}

/// A pending attack was settled; if `successful`, the plot changed hands.
#[derive(Clone, Copy, Debug, PartialEq, Eq)]
pub struct AttackResolved {
    pub attacker: Address,
    pub defender: Address,
    pub territory: Address,
    pub successful: bool,
    pub timestamp: i64,
}

/// The owner paid `investment` to open a business on a plot.
#[derive(Clone, Copy, Debug, PartialEq, Eq)]
pub struct BusinessAdded {
    pub territory: Address,
    pub owner: Address,
    pub business_type: BusinessType,
    pub investment: u64,
    pub income_boost: u64,
    pub timestamp: i64,
}

} // verus!
