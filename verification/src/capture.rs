use vstd::prelude::*;
use crate::address::Address;
use crate::config::TurfConfig;
use crate::errors::ErrorCode;
use crate::events::{AttackResolved, TerritoryAttacked};
use crate::territory::{CaptureState, Territory, TerritoryView, MAX_SECURITY_LEVEL};

verus! {

/// The chance factor of an attack is the platform's slot counter modulo this.
pub const RANDOM_RANGE: u64 = 100;

/// The strength a plot attacks with: the weaker its own defences, the
/// harder it strikes.
pub open spec fn attack_power(attacker_level: u8) -> int {
    MAX_SECURITY_LEVEL - attacker_level
}

/// The chance factor drawn from the slot counter: 0 to 99. It is no secret
/// and no true chance: whoever sees the counter knows it.
pub open spec fn random_factor(slot: u64) -> int {
    slot as int % RANDOM_RANGE as int
}

/// Whether an attack wins: its power and the chance factor together must
/// exceed the defender's security level.
pub open spec fn attack_succeeds(attacker_level: u8, defender_level: u8, slot: u64) -> bool {
    attack_power(attacker_level) + random_factor(slot) > defender_level
}

impl TerritoryView {
    /// The plot locked by a pending attack.
    pub open spec fn contested(self) -> TerritoryView {
        TerritoryView { is_under_attack: true, ..self }
    }

    /// The attacked plot once the attack is settled: unlocked, and either
    /// handed to `attacker_owner` or one defence richer.
    pub open spec fn resolved_as_defender(self, attacker_owner: Address, successful: bool) -> TerritoryView {
        if successful {
            TerritoryView { owner: attacker_owner, is_under_attack: false, ..self }
        } else {
            TerritoryView {
                defense_wins: (self.defense_wins + 1) as u32,
                is_under_attack: false,
                ..self
            }
        }
    }

    /// The attacking plot once the attack is settled at `now`: its cooldown
    /// starts anew, and a win is counted.
    pub open spec fn resolved_as_attacker(self, successful: bool, now: i64) -> TerritoryView {
        if successful {
            TerritoryView {
                attack_wins: (self.attack_wins + 1) as u32,
                last_attack_time: now,
                ..self
            }
        } else {
            TerritoryView { last_attack_time: now, ..self }
        }
    }
}

/// Why an attack is refused, if it is. The first reason in this order
/// counts: the registry is switched off, the caller does not own the
/// attacking plot, the two plots are one, the defender is contested
/// already, the attacker's cooldown has not run out.
pub open spec fn attack_rejection(
    config: TurfConfig,
    attacker: TerritoryView,
    defender: TerritoryView,
    caller: Address,
    now: i64,
) -> Option<ErrorCode> {
    if !config.is_active {
        Some(ErrorCode::ProgramInactive)
    } else if attacker.owner != caller {
        Some(ErrorCode::NotOwner)
    } else if attacker.mint == defender.mint {
        Some(ErrorCode::CannotAttackSelf)
    } else if defender.is_under_attack {
        Some(ErrorCode::TerritoryUnderAttack)
    } else if now - attacker.last_attack_time < config.attack_cooldown {
        Some(ErrorCode::AttackCooldownActive)
    } else {
        None
    }
}

/// Whether the win that a resolution counts fits the plot's 32-bit counter.
/// A resolution that is refused counts nothing, and so fits.
pub open spec fn resolution_fits(attacker: TerritoryView, defender: TerritoryView, successful: bool) -> bool {
    defender.is_under_attack ==> if successful {
        attacker.attack_wins < u32::MAX
    } else {
        defender.defense_wins < u32::MAX
    }
}

/// Decides whether an attack would go through, and if not, why not.
/// Nothing is changed.
pub fn check_attack(
    config: &TurfConfig,
    attacker_territory: &Territory,
    defender_territory: &Territory,
    attacker: Address,
    now: i64,
) -> (res: Result<(), ErrorCode>)
    ensures
        attack_rejection(*config, attacker_territory@, defender_territory@, attacker, now)
            == match res {
            Ok(_) => None,
            Err(e) => Some(e),
        },
{
    if !config.is_active {
        return Err(ErrorCode::ProgramInactive);
    }
    if !attacker_territory.owner.same_as(&attacker) {
        return Err(ErrorCode::NotOwner);
    }
    if attacker_territory.mint.same_as(&defender_territory.mint) {
        return Err(ErrorCode::CannotAttackSelf);
    }
    if defender_territory.is_under_attack {
        return Err(ErrorCode::TerritoryUnderAttack);
    }
    if (now as i128) - (attacker_territory.last_attack_time as i128) < config.attack_cooldown as i128 {
        return Err(ErrorCode::AttackCooldownActive);
    }
    Ok(())
}

/// Decides `resolution_fits`: what `resolve_attack` asks of its caller.
pub fn resolve_attack_fits(
    attacker_territory: &Territory,
    defender_territory: &Territory,
    attack_successful: bool,
) -> (fits: bool)
    ensures
        fits == resolution_fits(attacker_territory@, defender_territory@, attack_successful),
{
    if !defender_territory.is_under_attack {
        true
    } else if attack_successful {
        attacker_territory.attack_wins < u32::MAX
    } else {
        defender_territory.defense_wins < u32::MAX
    }
}

/// Launches an attack from one plot on another.
///
/// The defender is locked until the attack is resolved. The outcome is
/// computed here, from the two security levels and the slot counter, and
/// reported in the record; the plot changes hands only at the resolution.
pub fn attack_territory(
    config: &TurfConfig,
    attacker_territory: &Territory,
    defender_territory: &mut Territory,
    attacker: Address,
    now: i64,
    slot: u64,
) -> (res: Result<TerritoryAttacked, ErrorCode>)
    requires
        attacker_territory.security_level <= MAX_SECURITY_LEVEL,
    ensures
        attack_rejection(*config, attacker_territory@, old(defender_territory)@, attacker, now)
            == match res {
            Ok(_) => None,
            Err(e) => Some(e),
        },
        res is Err ==> *final(defender_territory) == *old(defender_territory),
        old(defender_territory).is_under_attack ==> res is Err,
        attacker_territory.mint == old(defender_territory).mint ==> res is Err,
        now - attacker_territory.last_attack_time < config.attack_cooldown ==> res is Err,
        res matches Ok(attacked) ==> {
            &&& final(defender_territory)@ == old(defender_territory)@.contested()
            &&& final(defender_territory)@.capture_state() == CaptureState::Contested
            &&& attacked == (TerritoryAttacked {
                attacker,
                attacker_territory: attacker_territory.mint,
                defender_territory: old(defender_territory).mint,
                attack_power: attack_power(attacker_territory.security_level) as u8,
                defense_power: old(defender_territory).security_level,
                success: attack_succeeds(
                    attacker_territory.security_level,
                    old(defender_territory).security_level,
                    slot,
                ),
                timestamp: now,
            })
        },
        old(defender_territory).wf() ==> final(defender_territory).wf(),
{
    check_attack(config, attacker_territory, defender_territory, attacker, now)?;
    defender_territory.is_under_attack = true;
    let attack_power: u8 = MAX_SECURITY_LEVEL - attacker_territory.security_level;
    let defense_power: u8 = defender_territory.security_level;
    let random_factor: u8 = (slot % RANDOM_RANGE) as u8;
    let success: bool = attack_power as u16 + random_factor as u16 > defense_power as u16;
    Ok(
        TerritoryAttacked {
            attacker,
            attacker_territory: attacker_territory.mint,
            defender_territory: defender_territory.mint,
            attack_power,
            defense_power,
            success,
            timestamp: now,
        },
    )
}

/// Settles the attack that is pending on a plot.
///
/// If the attack was successful the plot goes to the owner of the attacking
/// plot, which counts a win; the caller of this function then hands the
/// asset over. If not, the defender counts a win. Either way the plot is
/// unlocked and the attacker's cooldown starts at `now`.
pub fn resolve_attack(
    attacker_territory: &mut Territory,
    defender_territory: &mut Territory,
    defender: Address,
    attack_successful: bool,
    now: i64,
) -> (res: Result<AttackResolved, ErrorCode>)
    requires
        resolution_fits(old(attacker_territory)@, old(defender_territory)@, attack_successful),
    ensures
        res is Ok <==> old(defender_territory).is_under_attack,
        res matches Err(e) ==> {
            &&& e == ErrorCode::NoActiveAttack
            &&& *final(attacker_territory) == *old(attacker_territory)
            &&& *final(defender_territory) == *old(defender_territory)
        },
        res matches Ok(resolved) ==> {
            &&& final(defender_territory)@ == old(defender_territory)@.resolved_as_defender(
                old(attacker_territory).owner,
                attack_successful,
            )
            &&& final(attacker_territory)@ == old(attacker_territory)@.resolved_as_attacker(
                attack_successful,
                now,
            )
            &&& final(defender_territory)@.capture_state() == CaptureState::Idle
            &&& final(attacker_territory).last_attack_time == now
            &&& attack_successful ==> final(defender_territory).owner == old(attacker_territory).owner
                && final(attacker_territory).attack_wins == old(attacker_territory).attack_wins + 1
            &&& !attack_successful ==> final(defender_territory).owner == old(defender_territory).owner
                && final(defender_territory).defense_wins == old(defender_territory).defense_wins + 1
            &&& resolved == (AttackResolved {
                attacker: old(attacker_territory).owner,
                defender,
                territory: old(defender_territory).mint,
                successful: attack_successful,
                timestamp: now,
            })
        },
        old(attacker_territory).wf() ==> final(attacker_territory).wf(),
        old(defender_territory).wf() ==> final(defender_territory).wf(),
{
    if !defender_territory.is_under_attack {
        return Err(ErrorCode::NoActiveAttack);
    }
    if attack_successful {
        defender_territory.owner = attacker_territory.owner;
        attacker_territory.attack_wins = attacker_territory.attack_wins + 1;
    } else {
        defender_territory.defense_wins = defender_territory.defense_wins + 1;
    }
    defender_territory.is_under_attack = false;
    attacker_territory.last_attack_time = now;
    Ok(
        AttackResolved {
            attacker: attacker_territory.owner,
            defender,
            territory: defender_territory.mint,
            successful: attack_successful,
            timestamp: now,
        },
    )
}

} // verus!
