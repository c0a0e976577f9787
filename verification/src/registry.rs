use vstd::prelude::*;
use crate::address::Address;
use crate::config::TurfConfig;
use crate::errors::ErrorCode;
use crate::events::TerritoryMinted;
use crate::territory::{District, Territory, TerritoryView, DEFAULT_SECURITY_LEVEL};

verus! {

impl TurfConfig {
    /// The registry after one more plot was issued.
    pub open spec fn issued_one(self) -> TurfConfig {
        TurfConfig { territories_minted: (self.territories_minted + 1) as u32, ..self }
    }
}

/// Why the issue of a plot is refused, if it is. The first reason in this
/// order counts: the registry is switched off, the pool is used up, the
/// index is outside the pool, the base income is zero.
pub open spec fn mint_rejection(config: TurfConfig, plot_id: u16, base_income: u64) -> Option<
    ErrorCode,
> {
    if !config.is_active {
        Some(ErrorCode::ProgramInactive)
    } else if config.territories_minted >= config.total_territories {
        Some(ErrorCode::MaxTerritoriesReached)
    } else if !(1 <= plot_id <= config.total_territories) {
        Some(ErrorCode::InvalidPlotId)
    } else if base_income == 0 {
        Some(ErrorCode::InvalidIncome)
    } else {
        None
    }
}

/// Decides whether the issue of a plot would go through, and if not, why
/// not. Nothing is changed.
pub fn check_mint(config: &TurfConfig, plot_id: u16, base_income: u64) -> (res: Result<(), ErrorCode>)
    ensures
        mint_rejection(*config, plot_id, base_income) == match res {
            Ok(_) => None,
            Err(e) => Some(e),
        },
{
    if !config.is_active {
        return Err(ErrorCode::ProgramInactive);
    }
    if config.territories_minted >= config.total_territories {
        return Err(ErrorCode::MaxTerritoriesReached);
    }
    if plot_id == 0 || plot_id as u32 > config.total_territories {
        return Err(ErrorCode::InvalidPlotId);
    }
    if base_income == 0 {
        return Err(ErrorCode::InvalidIncome);
    }
    Ok(())
}

/// Issues the plot `plot_id` to `owner` and counts it in the registry.
///
/// The new plot yields its base income, has the default security level and
/// no businesses, and its income runs from `now`. The caller of this
/// function issues one unit of the asset `mint` to `owner`.
pub fn mint_territory(
    config: &mut TurfConfig,
    mint: Address,
    owner: Address,
    district: District,
    plot_id: u16,
    base_income: u64,
    now: i64,
) -> (res: Result<(Territory, TerritoryMinted), ErrorCode>)
    ensures
        mint_rejection(*old(config), plot_id, base_income) == match res {
            Ok(_) => None,
            Err(e) => Some(e),
        },
        res is Err ==> *final(config) == *old(config),
        res matches Ok((territory, minted)) ==> {
            &&& *final(config) == old(config).issued_one()
            &&& final(config).territories_minted == old(config).territories_minted + 1
            &&& final(config).territories_minted <= final(config).total_territories
            &&& territory@ == TerritoryView::fresh(mint, owner, district, plot_id, base_income, now)
            &&& territory.wf()
            &&& territory@.registered_in(*final(config))
            &&& minted == (TerritoryMinted {
                mint,
                owner,
                district,
                plot_id,
                base_income,
                timestamp: now,
            })
        },
        old(config).wf() ==> final(config).wf(),
{
    check_mint(config, plot_id, base_income)?;
    let territory = Territory {
        mint,
        owner,
        district,
        plot_id,
        base_income,
        current_income: base_income,
        security_level: DEFAULT_SECURITY_LEVEL,
        last_income_claim: now,
        last_attack_time: 0,
        defense_wins: 0,
        attack_wins: 0,
        is_under_attack: false,
        businesses: Vec::new(),
    };
    config.territories_minted = config.territories_minted + 1;
    Ok((territory, TerritoryMinted { mint, owner, district, plot_id, base_income, timestamp: now }))
}

} // verus!
