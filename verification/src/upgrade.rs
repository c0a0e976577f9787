use vstd::prelude::*;
use crate::address::Address;
use crate::business::{
    lemma_boost_bounds, lemma_total_boost_push, Business, BusinessType, MAX_BUSINESSES,
};
use crate::errors::ErrorCode;
use crate::events::{BusinessAdded, SecurityUpgraded};
use crate::territory::{Territory, TerritoryView, MAX_SECURITY_LEVEL};

verus! {

/// What one security level costs, in the currency's smallest unit.
pub const SECURITY_UNIT_COST: u64 = 100_000_000;

/// The levels that `investment` adds to a plot at `level`: one for each
/// whole unit cost, but no more than the scale has left.
pub open spec fn security_gain(investment: u64, level: u8) -> int {
    let bought = investment as int / SECURITY_UNIT_COST as int;
    let room = MAX_SECURITY_LEVEL - level;
    if bought <= room {
        bought
    } else {
        room
    }
}

impl TerritoryView {
    /// The plot after `investment` was spent on its security.
    pub open spec fn hardened(self, investment: u64) -> TerritoryView {
        TerritoryView {
            security_level: (self.security_level + security_gain(investment, self.security_level)) as u8,
            ..self
        }
    }

    /// The plot after `business` opened on it: one more business, and its
    /// boost more income.
    pub open spec fn with_business(self, business: Business) -> TerritoryView {
        TerritoryView {
            businesses: self.businesses.push(business),
            current_income: (self.current_income + business.income_boost) as u64,
            ..self
        }
    }
}

/// Why a security upgrade is refused, if it is. The first reason in this
/// order counts: the caller does not own the plot, nothing is invested,
/// the plot is at the top of the scale already.
pub open spec fn upgrade_rejection(territory: TerritoryView, caller: Address, investment: u64) -> Option<
    ErrorCode,
> {
    if territory.owner != caller {
        Some(ErrorCode::NotOwner)
    } else if investment == 0 {
        Some(ErrorCode::InvalidInvestment)
    } else if territory.security_level >= MAX_SECURITY_LEVEL {
        Some(ErrorCode::MaxSecurityReached)
    } else {
        None
    }
}

/// Why the opening of a business is refused, if it is. The first reason in
/// this order counts: the caller does not own the plot, nothing is
/// invested, all the plot's slots are taken.
pub open spec fn business_rejection(territory: TerritoryView, caller: Address, investment: u64) -> Option<
    ErrorCode,
> {
    if territory.owner != caller {
        Some(ErrorCode::NotOwner)
    } else if investment == 0 {
        Some(ErrorCode::InvalidInvestment)
    } else if territory.businesses.len() >= MAX_BUSINESSES {
        Some(ErrorCode::MaxBusinessesReached)
    } else {
        None
    }
}

/// Whether the income of the plot with one more business fits the ledger's
/// 64-bit amounts. An opening that is refused adds nothing, and so fits.
pub open spec fn business_fits(
    territory: TerritoryView,
    caller: Address,
    business_type: BusinessType,
    investment: u64,
) -> bool {
    business_rejection(territory, caller, investment) is None ==> territory.current_income
        + business_type.boost_of(investment) <= u64::MAX
}

/// Decides whether a security upgrade would go through, and if not, why
/// not. Nothing is changed.
pub fn check_upgrade(territory: &Territory, caller: Address, investment: u64) -> (res: Result<
    (),
    ErrorCode,
>)
    ensures
        upgrade_rejection(territory@, caller, investment) == match res {
            Ok(_) => None,
            Err(e) => Some(e),
        },
{
    if !territory.owner.same_as(&caller) {
        return Err(ErrorCode::NotOwner);
    }
    if investment == 0 {
        return Err(ErrorCode::InvalidInvestment);
    }
    if territory.security_level >= MAX_SECURITY_LEVEL {
        return Err(ErrorCode::MaxSecurityReached);
    }
    Ok(())
}

/// Decides whether the opening of a business would go through, and if not,
/// why not. Nothing is changed.
pub fn check_business(territory: &Territory, caller: Address, investment: u64) -> (res: Result<
    (),
    ErrorCode,
>)
    ensures
        business_rejection(territory@, caller, investment) == match res {
            Ok(_) => None,
            Err(e) => Some(e),
        },
{
    if !territory.owner.same_as(&caller) {
        return Err(ErrorCode::NotOwner);
    }
    if investment == 0 {
        return Err(ErrorCode::InvalidInvestment);
    }
    if territory.businesses.len() >= MAX_BUSINESSES {
        return Err(ErrorCode::MaxBusinessesReached);
    }
    Ok(())
}

/// Decides `business_fits`: what `add_business` asks of its caller.
pub fn add_business_fits(
    territory: &Territory,
    caller: Address,
    business_type: BusinessType,
    investment: u64,
) -> (fits: bool)
    ensures
        fits == business_fits(territory@, caller, business_type, investment),
{
    match check_business(territory, caller, investment) {
        Err(_) => true,
        Ok(_) => territory.current_income.checked_add(business_type.boost(investment)).is_some(),
    }
}

/// Hardens a plot for its owner, who pays `investment` for it.
///
/// Each whole `SECURITY_UNIT_COST` buys one level, up to
/// `MAX_SECURITY_LEVEL`; what is paid beyond that buys nothing. The caller
/// of this function takes `investment` from the owner.
pub fn upgrade_security(territory: &mut Territory, caller: Address, investment: u64, now: i64) -> (res:
    Result<SecurityUpgraded, ErrorCode>)
    ensures
        upgrade_rejection(old(territory)@, caller, investment) == match res {
            Ok(_) => None,
            Err(e) => Some(e),
        },
        res is Err ==> *final(territory) == *old(territory),
        res matches Ok(upgraded) ==> {
            &&& final(territory)@ == old(territory)@.hardened(investment)
            &&& final(territory).security_level <= MAX_SECURITY_LEVEL
            &&& final(territory).security_level - old(territory).security_level == vstd::math::min(
                investment as int / SECURITY_UNIT_COST as int,
                MAX_SECURITY_LEVEL - old(territory).security_level,
            )
            &&& upgraded == (SecurityUpgraded {
                territory: old(territory).mint,
                owner: caller,
                investment,
                new_security_level: final(territory).security_level,
                timestamp: now,
            })
        },
        old(territory).wf() ==> final(territory).wf(),
{
    check_upgrade(territory, caller, investment)?;
    let bought: u64 = investment / SECURITY_UNIT_COST;
    let room: u8 = MAX_SECURITY_LEVEL - territory.security_level;
    let gain: u8 = if bought <= room as u64 {
        bought as u8
    } else {
        room
    };
    territory.security_level = territory.security_level + gain;
    Ok(
        SecurityUpgraded {
            territory: territory.mint,
            owner: caller,
            investment,
            new_security_level: territory.security_level,
            timestamp: now,
        },
    )
}

/// Opens a business on a plot for its owner, who pays `investment` for it.
///
/// The business raises the plot's daily income by its boost, for good. A
/// plot holds at most `MAX_BUSINESSES`. The caller of this function takes
/// `investment` from the owner.
pub fn add_business(
    territory: &mut Territory,
    caller: Address,
    business_type: BusinessType,
    investment: u64,
    now: i64,
) -> (res: Result<BusinessAdded, ErrorCode>)
    requires
        business_fits(old(territory)@, caller, business_type, investment),
    ensures
        business_rejection(old(territory)@, caller, investment) == match res {
            Ok(_) => None,
            Err(e) => Some(e),
        },
        res is Err ==> *final(territory) == *old(territory),
        old(territory).businesses.len() >= MAX_BUSINESSES ==> res is Err,
        res matches Ok(added) ==> {
            &&& final(territory)@ == old(territory)@.with_business(
                Business::opened(business_type, investment, now),
            )
            &&& final(territory).businesses.len() == old(territory).businesses.len() + 1
            &&& final(territory).current_income == old(territory).current_income
                + business_type.boost_of(investment)
            &&& added == (BusinessAdded {
                territory: old(territory).mint,
                owner: caller,
                business_type,
                investment,
                income_boost: business_type.boost_of(investment) as u64,
                timestamp: now,
            })
        },
        old(territory).wf() ==> final(territory).wf(),
{
    check_business(territory, caller, investment)?;
    let income_boost: u64 = business_type.boost(investment);
    let business = Business { business_type, investment, income_boost, created_at: now };
    proof {
        lemma_boost_bounds(business_type, investment);
        lemma_total_boost_push(territory.businesses@, business);
    }
    territory.businesses.push(business);
    territory.current_income = territory.current_income + income_boost;
    Ok(
        BusinessAdded {
            territory: territory.mint,
            owner: caller,
            business_type,
            investment,
            income_boost,
            timestamp: now,
        },
    )
}

} // verus!
