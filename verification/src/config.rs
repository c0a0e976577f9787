use vstd::prelude::*;
use crate::address::Address;

verus! {

/// The size of the plot pool that a new registry is created with.
pub const TOTAL_TERRITORIES: u32 = 2500;

/// The base income rate of a new registry, in the currency's smallest unit
/// per day.
pub const BASE_INCOME_RATE: u64 = 10_000_000;

/// The tax rate of a new registry, in basis points: one fifth.
pub const DEFAULT_TAX_RATE: u16 = 2000;

/// The attack cooldown of a new registry: 48 hours, in seconds.
pub const DEFAULT_ATTACK_COOLDOWN: i64 = 172_800;

/// A tax rate is a share of this many basis points.
pub const BASIS_POINTS: u64 = 10_000;

/// The registry: the parameters all plots share, and the count of plots
/// issued so far.
#[derive(Clone, Copy, Debug, PartialEq, Eq, Hash)]
pub struct TurfConfig {
    pub authority: Address,
    pub turf_collection: Address,
    pub mob_mint: Address,
    pub total_territories: u32,
    pub territories_minted: u32,
    pub base_income_rate: u64,
    /// In basis points, at most `BASIS_POINTS`.
    pub tax_rate: u16,
    /// In seconds.
    pub attack_cooldown: i64,
    pub is_active: bool,
}

impl TurfConfig {
    /// No more plots are issued than the pool holds, and the tax takes at
    /// most everything.
    pub open spec fn wf(self) -> bool {
        &&& self.territories_minted <= self.total_territories
        &&& self.tax_rate <= BASIS_POINTS
    }

    /// The registry as it is first created for `authority`.
    pub open spec fn initial(authority: Address, turf_collection: Address, mob_mint: Address) -> TurfConfig {
        TurfConfig {
            authority,
            turf_collection,
            mob_mint,
            total_territories: TOTAL_TERRITORIES,
            territories_minted: 0,
            base_income_rate: BASE_INCOME_RATE,
            tax_rate: DEFAULT_TAX_RATE,
            attack_cooldown: DEFAULT_ATTACK_COOLDOWN,
            is_active: true,
        }
    }

    /// Decides `wf`, for a registry that was read from storage.
    pub fn is_well_formed(&self) -> (ok: bool)
        ensures
            ok == self.wf(),
    {
        self.territories_minted <= self.total_territories && self.tax_rate as u64 <= BASIS_POINTS
    }
}

/// Creates the registry: an active pool of `TOTAL_TERRITORIES` plots, none
/// issued yet, with the default rates.
pub fn initialize(authority: Address, turf_collection: Address, mob_mint: Address) -> (config: TurfConfig)
    ensures
        config == TurfConfig::initial(authority, turf_collection, mob_mint),
        config.wf(),
{
    TurfConfig {
        authority,
        turf_collection,
        mob_mint,
        total_territories: TOTAL_TERRITORIES,
        territories_minted: 0,
        base_income_rate: BASE_INCOME_RATE,
        tax_rate: DEFAULT_TAX_RATE,
        attack_cooldown: DEFAULT_ATTACK_COOLDOWN,
        is_active: true,
    }
}

} // verus!
