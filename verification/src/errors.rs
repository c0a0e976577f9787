use vstd::prelude::*;

verus! {

/// Why an operation was refused. A refused operation changes nothing.
#[derive(Clone, Copy, Debug, PartialEq, Eq, Structural, Hash)]
pub enum ErrorCode {
    ProgramInactive,
    MaxTerritoriesReached,
    InvalidPlotId,
    InvalidIncome,
    NotOwner,
    TerritoryUnderAttack,
    ClaimTooEarly,
    InvalidInvestment,
    MaxSecurityReached,
    CannotAttackSelf,
    AttackCooldownActive,
    NoActiveAttack,
    MaxBusinessesReached,
}

/// The broad class a refusal falls in.
#[derive(Clone, Copy, Debug, PartialEq, Eq, Structural, Hash)]
pub enum ErrorKind {
    /// The registry is switched off.
    Inactive,
    /// A bounded resource is used up: the plot pool, a plot's business
    /// slots, or its security scale.
    CapacityExceeded,
    /// An argument is out of range: a plot index, a zero amount, an attack
    /// on oneself.
    Validation,
    /// The caller does not own the plot it acts for.
    Authorization,
    /// The plot is in the wrong state: contested, cooling down, or not
    /// contested when a resolution is asked for.
    StateConflict,
    /// Less than one full day has passed since the last income claim.
    TooEarly,
}

impl ErrorCode {
    /// The class of this refusal.
    pub open spec fn kind_of(self) -> ErrorKind {
        match self {
            ErrorCode::ProgramInactive => ErrorKind::Inactive,
            ErrorCode::MaxTerritoriesReached => ErrorKind::CapacityExceeded,
            ErrorCode::MaxSecurityReached => ErrorKind::CapacityExceeded,
            ErrorCode::MaxBusinessesReached => ErrorKind::CapacityExceeded,
            ErrorCode::InvalidPlotId => ErrorKind::Validation,
            ErrorCode::InvalidIncome => ErrorKind::Validation,
            ErrorCode::InvalidInvestment => ErrorKind::Validation,
            ErrorCode::CannotAttackSelf => ErrorKind::Validation,
            ErrorCode::NotOwner => ErrorKind::Authorization,
            ErrorCode::TerritoryUnderAttack => ErrorKind::StateConflict,
            ErrorCode::AttackCooldownActive => ErrorKind::StateConflict,
            ErrorCode::NoActiveAttack => ErrorKind::StateConflict,
            ErrorCode::ClaimTooEarly => ErrorKind::TooEarly,
        }
    }

    /// The text shown for this refusal.
    pub open spec fn message_text(self) -> Seq<char> {
        match self {
            ErrorCode::ProgramInactive => "Program is currently inactive"@,
            ErrorCode::MaxTerritoriesReached => "Maximum territories reached"@,
            ErrorCode::InvalidPlotId => "Invalid plot ID"@,
            ErrorCode::InvalidIncome => "Invalid income amount"@,
            ErrorCode::NotOwner => "Not the owner of this territory"@,
            ErrorCode::TerritoryUnderAttack => "Territory is under attack"@,
            ErrorCode::ClaimTooEarly => "Too early to claim income"@,
            ErrorCode::InvalidInvestment => "Invalid investment amount"@,
            ErrorCode::MaxSecurityReached => "Maximum security level reached"@,
            ErrorCode::CannotAttackSelf => "Cannot attack own territory"@,
            ErrorCode::AttackCooldownActive => "Attack cooldown is active"@,
            ErrorCode::NoActiveAttack => "No active attack to resolve"@,
            ErrorCode::MaxBusinessesReached => "Maximum businesses reached"@,
        }
    }

    /// The class of this refusal.
    #[verifier::when_used_as_spec(kind_of)]
    pub fn kind(self) -> (kind: ErrorKind)
        ensures
            kind == self.kind_of(),
    {
        match self {
            ErrorCode::ProgramInactive => ErrorKind::Inactive,
            ErrorCode::MaxTerritoriesReached
            | ErrorCode::MaxSecurityReached
            | ErrorCode::MaxBusinessesReached => ErrorKind::CapacityExceeded,
            ErrorCode::InvalidPlotId
            | ErrorCode::InvalidIncome
            | ErrorCode::InvalidInvestment
            | ErrorCode::CannotAttackSelf => ErrorKind::Validation,
            ErrorCode::NotOwner => ErrorKind::Authorization,
            ErrorCode::TerritoryUnderAttack
            | ErrorCode::AttackCooldownActive
            | ErrorCode::NoActiveAttack => ErrorKind::StateConflict,
            ErrorCode::ClaimTooEarly => ErrorKind::TooEarly,
        }
    }

    /// The text shown for this refusal.
    pub fn message(self) -> (text: &'static str)
        ensures
            text@ == self.message_text(),
    {
        match self {
            ErrorCode::ProgramInactive => "Program is currently inactive",
            ErrorCode::MaxTerritoriesReached => "Maximum territories reached",
            ErrorCode::InvalidPlotId => "Invalid plot ID",
            ErrorCode::InvalidIncome => "Invalid income amount",
            ErrorCode::NotOwner => "Not the owner of this territory",
            ErrorCode::TerritoryUnderAttack => "Territory is under attack",
            ErrorCode::ClaimTooEarly => "Too early to claim income",
            ErrorCode::InvalidInvestment => "Invalid investment amount",
            ErrorCode::MaxSecurityReached => "Maximum security level reached",
            ErrorCode::CannotAttackSelf => "Cannot attack own territory",
            ErrorCode::AttackCooldownActive => "Attack cooldown is active",
            ErrorCode::NoActiveAttack => "No active attack to resolve",
            ErrorCode::MaxBusinessesReached => "Maximum businesses reached",
        }
    }
}

} // verus!
