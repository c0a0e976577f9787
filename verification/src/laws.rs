use vstd::prelude::*;
use crate::accrual::{claim_rejection, days_elapsed, tax_on, SECONDS_PER_DAY};
use crate::address::Address;
use crate::business::{lemma_total_boost_push, total_boost, Business, MAX_BUSINESSES};
use crate::capture::{attack_power, attack_rejection, attack_succeeds, random_factor};
use crate::config::{TurfConfig, BASIS_POINTS};
use crate::errors::{ErrorCode, ErrorKind};
use crate::territory::{CaptureState, TerritoryView, MAX_SECURITY_LEVEL};
use crate::upgrade::{business_rejection, upgrade_rejection, SECURITY_UNIT_COST};

verus! {

/// The plot after the businesses `opened` were added to it one after the
/// other.
pub open spec fn with_businesses(territory: TerritoryView, opened: Seq<Business>) -> TerritoryView
    decreases opened.len(),
{
    if opened.len() == 0 {
        territory
    } else {
        with_businesses(territory, opened.drop_last()).with_business(opened.last())
    }
}

/// A security upgrade that goes through raises the level by what the
/// investment buys or by what the scale has left, whichever is less, and so
/// never past the top of the scale.
pub proof fn lemma_upgrade_stays_on_scale(territory: TerritoryView, caller: Address, investment: u64)
    requires
        territory.security_level <= MAX_SECURITY_LEVEL,
        upgrade_rejection(territory, caller, investment) is None,
    ensures
        territory.hardened(investment).security_level <= MAX_SECURITY_LEVEL,
        territory.hardened(investment).security_level - territory.security_level == vstd::math::min(
            investment as int / SECURITY_UNIT_COST as int,
            MAX_SECURITY_LEVEL - territory.security_level,
        ),
        territory.hardened(investment).security_level >= territory.security_level,
{
}

/// Whatever the gross amount, the tax is its share at the tax rate, rounded
/// down, and tax and net amount together are the gross amount exactly.
pub proof fn lemma_claim_splits_exactly(gross: u64, tax_rate: u16)
    requires
        tax_rate <= BASIS_POINTS,
    ensures
        0 <= tax_on(gross as int, tax_rate) <= gross,
        tax_on(gross as int, tax_rate) == gross * tax_rate / 10_000,
        (gross - tax_on(gross as int, tax_rate)) + tax_on(gross as int, tax_rate) == gross,
{
    crate::accrual::lemma_tax_within_gross(gross as int, tax_rate);
}

/// A claim before a full day has passed is refused; as too early where the
/// registry is active, the caller owns the plot and the plot is not
/// contested.
pub proof fn lemma_early_claim_refused(config: TurfConfig, territory: TerritoryView, caller: Address, now: i64)
    requires
        now - territory.last_income_claim < SECONDS_PER_DAY,
    ensures
        claim_rejection(config, territory, caller, now) is Some,
        config.is_active && territory.owner == caller && !territory.is_under_attack ==> {
            &&& claim_rejection(config, territory, caller, now) == Some(ErrorCode::ClaimTooEarly)
            &&& ErrorCode::ClaimTooEarly.kind_of() == ErrorKind::TooEarly
        },
{
}

/// A claim that goes through pays for every whole day that has passed, and
/// at least for one.
pub proof fn lemma_claim_catches_up(config: TurfConfig, territory: TerritoryView, caller: Address, now: i64)
    requires
        claim_rejection(config, territory, caller, now) is None,
    ensures
        days_elapsed(territory.last_income_claim, now) >= 1,
        territory.accrued(now) == territory.current_income * days_elapsed(
            territory.last_income_claim,
            now,
        ),
        days_elapsed(territory.last_income_claim, now) * SECONDS_PER_DAY <= now
            - territory.last_income_claim < (days_elapsed(territory.last_income_claim, now) + 1)
            * SECONDS_PER_DAY,
{
}

/// While a plot is contested it pays no income and cannot be attacked
/// again. Where nothing else stands in the way, the refusal is a state
/// conflict.
pub proof fn lemma_contested_plot_is_locked(
    config: TurfConfig,
    territory: TerritoryView,
    attacker: TerritoryView,
    caller: Address,
    now: i64,
)
    requires
        territory.is_under_attack,
    ensures
        territory.capture_state() == CaptureState::Contested,
        claim_rejection(config, territory, caller, now) is Some,
        attack_rejection(config, attacker, territory, caller, now) is Some,
        config.is_active && territory.owner == caller ==> claim_rejection(config, territory, caller, now)
            == Some(ErrorCode::TerritoryUnderAttack),
        config.is_active && attacker.owner == caller && attacker.mint != territory.mint
            ==> attack_rejection(config, attacker, territory, caller, now) == Some(
            ErrorCode::TerritoryUnderAttack,
        ),
        ErrorCode::TerritoryUnderAttack.kind_of() == ErrorKind::StateConflict,
{
}

/// A plot cannot attack itself. Where the registry is active and the
/// caller owns the plot, the refusal is a validation error.
pub proof fn lemma_self_attack_refused(
    config: TurfConfig,
    attacker: TerritoryView,
    defender: TerritoryView,
    caller: Address,
    now: i64,
)
    requires
        attacker.mint == defender.mint,
    ensures
        attack_rejection(config, attacker, defender, caller, now) is Some,
        config.is_active && attacker.owner == caller ==> {
            &&& attack_rejection(config, attacker, defender, caller, now) == Some(
                ErrorCode::CannotAttackSelf,
            )
            &&& ErrorCode::CannotAttackSelf.kind_of() == ErrorKind::Validation
        },
{
}

/// A plot cannot attack before its cooldown has run out. Where nothing
/// else stands in the way, the refusal is a state conflict.
pub proof fn lemma_cooldown_refuses_attack(
    config: TurfConfig,
    attacker: TerritoryView,
    defender: TerritoryView,
    caller: Address,
    now: i64,
)
    requires
        now - attacker.last_attack_time < config.attack_cooldown,
    ensures
        attack_rejection(config, attacker, defender, caller, now) is Some,
        config.is_active && attacker.owner == caller && attacker.mint != defender.mint
            && !defender.is_under_attack ==> {
            &&& attack_rejection(config, attacker, defender, caller, now) == Some(
                ErrorCode::AttackCooldownActive,
            )
            &&& ErrorCode::AttackCooldownActive.kind_of() == ErrorKind::StateConflict
        },
{
}

/// Once an attack launched from a plot is resolved, whatever its outcome,
/// the plot cannot attack anyone until the cooldown has passed since the
/// resolution.
pub proof fn lemma_cooldown_after_resolution(
    config: TurfConfig,
    attacker: TerritoryView,
    next_defender: TerritoryView,
    caller: Address,
    successful: bool,
    resolved_at: i64,
    now: i64,
)
    requires
        now - resolved_at < config.attack_cooldown,
    ensures
        attack_rejection(
            config,
            attacker.resolved_as_attacker(successful, resolved_at),
            next_defender,
            caller,
            now,
        ) is Some,
{
    lemma_cooldown_refuses_attack(
        config,
        attacker.resolved_as_attacker(successful, resolved_at),
        next_defender,
        caller,
        now,
    );
}

/// An attack that is launched and then resolved with the outcome it
/// reported hands the plot to the attacker exactly when the attack power
/// and the chance factor together exceed the defender's security level.
/// Either way the plot is unlocked again and the attacker's cooldown runs
/// from the resolution.
pub proof fn lemma_capture_round(
    config: TurfConfig,
    attacker: TerritoryView,
    defender: TerritoryView,
    caller: Address,
    launched_at: i64,
    slot: u64,
    resolved_at: i64,
)
    requires
        attacker.security_level <= MAX_SECURITY_LEVEL,
        attack_rejection(config, attacker, defender, caller, launched_at) is None,
    ensures
        ({
            let won = attack_succeeds(attacker.security_level, defender.security_level, slot);
            let defender_after = defender.contested().resolved_as_defender(attacker.owner, won);
            let attacker_after = attacker.resolved_as_attacker(won, resolved_at);
            &&& defender.capture_state() == CaptureState::Idle
            &&& defender.contested().capture_state() == CaptureState::Contested
            &&& defender_after.capture_state() == CaptureState::Idle
            &&& won <==> attack_power(attacker.security_level) + random_factor(slot)
                > defender.security_level
            &&& 0 <= random_factor(slot) < 100
            &&& defender_after.owner == if won {
                caller
            } else {
                defender.owner
            }
            &&& won && attacker.attack_wins < u32::MAX ==> attacker_after.attack_wins
                == attacker.attack_wins + 1
            &&& !won && defender.defense_wins < u32::MAX ==> defender_after.defense_wins
                == defender.defense_wins + 1
            &&& attacker_after.last_attack_time == resolved_at
        }),
{
}

/// A plot whose business slots are all taken takes no further business.
/// Where the caller owns the plot and invests something, the refusal is
/// that the capacity is exceeded.
pub proof fn lemma_full_plot_refuses_business(territory: TerritoryView, caller: Address, investment: u64)
    requires
        territory.businesses.len() >= MAX_BUSINESSES,
    ensures
        business_rejection(territory, caller, investment) is Some,
        territory.owner == caller && investment > 0 ==> {
            &&& business_rejection(territory, caller, investment) == Some(
                ErrorCode::MaxBusinessesReached,
            )
            &&& ErrorCode::MaxBusinessesReached.kind_of() == ErrorKind::CapacityExceeded
        },
{
}

/// After any number of businesses were added to a plot, its income is what
/// it was plus the sum of their boosts; for a plot that started without
/// businesses, the base income plus the sum of all boosts.
pub proof fn lemma_income_after_businesses(territory: TerritoryView, opened: Seq<Business>)
    requires
        territory.wf(),
        forall|i: int| 0 <= i < opened.len() ==> (#[trigger] opened[i]).wf(),
        territory.businesses.len() + opened.len() <= MAX_BUSINESSES,
        territory.current_income + total_boost(opened) <= u64::MAX,
    ensures
        with_businesses(territory, opened).wf(),
        with_businesses(territory, opened).businesses == territory.businesses + opened,
        with_businesses(territory, opened).current_income == territory.current_income + total_boost(
            opened,
        ),
        with_businesses(territory, opened).base_income == territory.base_income,
        with_businesses(territory, opened).current_income == territory.base_income + total_boost(
            territory.businesses + opened,
        ),
    decreases opened.len(),
{
    if opened.len() == 0 {
        assert(territory.businesses + opened =~= territory.businesses);
    } else {
        let earlier = opened.drop_last();
        let last = opened.last();
        crate::business::lemma_total_boost_grows(opened, 0);
        assert(total_boost(opened) == total_boost(earlier) + last.income_boost);
        crate::business::lemma_total_boost_grows(earlier, 0);
        lemma_income_after_businesses(territory, earlier);
        let before = with_businesses(territory, earlier);
        lemma_total_boost_push(before.businesses, last);
        assert((territory.businesses + earlier).push(last) =~= territory.businesses + opened);
        assert(opened[opened.len() - 1].wf());
    }
}

} // verus!
