use vstd::prelude::*;
use crate::address::Address;
use crate::config::{TurfConfig, BASIS_POINTS};
use crate::errors::ErrorCode;
use crate::events::IncomeClaimed;
use crate::territory::{Territory, TerritoryView};

verus! {

/// Income accrues by the whole day.
pub const SECONDS_PER_DAY: i64 = 86_400;

/// The whole days that have passed from `last_claim` to `now`.
pub open spec fn days_elapsed(last_claim: i64, now: i64) -> int {
    (now - last_claim) / (SECONDS_PER_DAY as int)
}

/// The treasury's share of `gross` at `tax_rate` basis points, rounded down.
pub open spec fn tax_on(gross: int, tax_rate: u16) -> int {
    gross * tax_rate / (BASIS_POINTS as int)
}

impl TerritoryView {
    /// What the plot has earned by `now` since its last claim: a day's income
    /// for each whole day.
    pub open spec fn accrued(self, now: i64) -> int {
        self.current_income * days_elapsed(self.last_income_claim, now)
    }

    /// The plot after a claim at `now`. The claim clock restarts at `now`:
    /// what was left of a day is dropped.
    pub open spec fn claimed(self, now: i64) -> TerritoryView {
        TerritoryView { last_income_claim: now, ..self }
    }
}

/// Why a claim of `caller` at `now` is refused, if it is. The first reason in
/// this order counts: the registry is switched off, the caller does not own
/// the plot, the plot is contested, less than a day has passed.
pub open spec fn claim_rejection(
    config: TurfConfig,
    territory: TerritoryView,
    caller: Address,
    now: i64,
) -> Option<ErrorCode> {
    if !config.is_active {
        Some(ErrorCode::ProgramInactive)
    } else if territory.owner != caller {
        Some(ErrorCode::NotOwner)
    } else if territory.is_under_attack {
        Some(ErrorCode::TerritoryUnderAttack)
    } else if now - territory.last_income_claim < SECONDS_PER_DAY {
        Some(ErrorCode::ClaimTooEarly)
    } else {
        None
    }
}

/// Whether the amount that a claim at `now` settles fits the ledger's 64-bit
/// amounts. A claim that is refused settles nothing, and so fits.
pub open spec fn claim_fits(config: TurfConfig, territory: TerritoryView, caller: Address, now: i64) -> bool {
    claim_rejection(config, territory, caller, now) is None ==> territory.accrued(now) <= u64::MAX
}

/// The tax is a part of the gross amount.
pub proof fn lemma_tax_within_gross(gross: int, tax_rate: u16)
    requires
        0 <= gross,
        tax_rate <= BASIS_POINTS,
    ensures
        0 <= tax_on(gross, tax_rate) <= gross,
{
    assert(0 <= gross * tax_rate <= gross * 10_000) by (nonlinear_arith)
        requires
            0 <= gross,
            0 <= tax_rate <= 10_000,
    ;
}

/// The whole days from `last_claim` to a later `now`.
fn whole_days(last_claim: i64, now: i64) -> (days: u64)
    requires
        last_claim <= now,
    ensures
        days == days_elapsed(last_claim, now),
{
    let elapsed: i128 = now as i128 - last_claim as i128;
    (elapsed / SECONDS_PER_DAY as i128) as u64
}

/// Decides whether a claim of `caller` at `now` would go through, and if not,
/// why not. Nothing is changed.
pub fn check_claim(config: &TurfConfig, territory: &Territory, caller: Address, now: i64) -> (res: Result<
    (),
    ErrorCode,
>)
    ensures
        claim_rejection(*config, territory@, caller, now) == match res {
            Ok(_) => None,
            Err(e) => Some(e),
        },
{
    if !config.is_active {
        return Err(ErrorCode::ProgramInactive);
    }
    if !territory.owner.same_as(&caller) {
        return Err(ErrorCode::NotOwner);
    }
    if territory.is_under_attack {
        return Err(ErrorCode::TerritoryUnderAttack);
    }
    if (now as i128) - (territory.last_income_claim as i128) < SECONDS_PER_DAY as i128 {
        return Err(ErrorCode::ClaimTooEarly);
    }
    Ok(())
}

/// Decides `claim_fits`: what `claim_income` asks of its caller beyond a
/// well-formed registry.
pub fn claim_income_fits(config: &TurfConfig, territory: &Territory, caller: Address, now: i64) -> (fits:
    bool)
    ensures
        fits == claim_fits(*config, territory@, caller, now),
{
    match check_claim(config, territory, caller, now) {
        Err(_) => true,
        Ok(_) => {
            let days: u64 = whole_days(territory.last_income_claim, now);
            territory.current_income.checked_mul(days).is_some()
        },
    }
}

/// Settles the income of a plot for its owner.
///
/// The plot pays a day's income for each whole day since the last claim, so
/// missed days are caught up. The treasury takes its share, rounded down, and
/// the owner gets the rest: the caller of this function issues
/// `net_income` to the owner and `tax_amount` to the treasury.
pub fn claim_income(
    config: &TurfConfig,
    territory: &mut Territory,
    caller: Address,
    now: i64,
) -> (res: Result<IncomeClaimed, ErrorCode>)
    requires
        config.wf(),
        claim_fits(*config, old(territory)@, caller, now),
    ensures
        claim_rejection(*config, old(territory)@, caller, now) == match res {
            Ok(_) => None,
            Err(e) => Some(e),
        },
        res is Err ==> *final(territory) == *old(territory),
        old(territory).is_under_attack ==> res is Err,
        now - old(territory).last_income_claim < SECONDS_PER_DAY ==> res is Err,
        res matches Ok(receipt) ==> {
            &&& final(territory)@ == old(territory)@.claimed(now)
            &&& receipt.territory == old(territory).mint
            &&& receipt.owner == caller
            &&& receipt.days_claimed == days_elapsed(old(territory).last_income_claim, now)
            &&& receipt.days_claimed >= 1
            &&& receipt.gross_income == old(territory).current_income * receipt.days_claimed
            &&& receipt.tax_amount == receipt.gross_income * config.tax_rate / 10_000
            &&& receipt.net_income + receipt.tax_amount == receipt.gross_income
            &&& receipt.timestamp == now
        },
        old(territory).wf() ==> final(territory).wf(),
{
    check_claim(config, territory, caller, now)?;
    let days: u64 = whole_days(territory.last_income_claim, now);
    let gross: u64 = territory.current_income * days;
    proof {
        lemma_tax_within_gross(gross as int, config.tax_rate);
    }
    let tax: u64 = ((gross as u128 * config.tax_rate as u128) / BASIS_POINTS as u128) as u64;
    let net: u64 = gross - tax;
    territory.last_income_claim = now;
    Ok(
        IncomeClaimed {
            territory: territory.mint,
            owner: caller,
            gross_income: gross,
            net_income: net,
            tax_amount: tax,
            days_claimed: days,
            timestamp: now,
        },
    )
}

} // verus!
