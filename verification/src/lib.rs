//! The rules of a territory game on a shared ledger.
//!
//! A fixed pool of plots is issued from a registry. A plot pays its owner a
//! daily income, taxed for the treasury; the owner can harden it and open
//! businesses on it; and the owner of another plot can try to capture it,
//! in two steps: an attack that locks the plot, and a resolution that hands
//! it over or not.
//!
//! Every operation is a function from the stored records and plain
//! arguments (the caller, the time, the slot counter) to the new records and
//! a record of what happened. An operation that is refused changes nothing.
//! Moving tokens, reading the clock and storing the records is the caller's
//! part.

pub mod accrual;
pub mod address;
pub mod business;
pub mod capture;
pub mod config;
pub mod errors;
pub mod events;
pub mod laws;
pub mod registry;
pub mod territory;
pub mod upgrade;

pub use accrual::{check_claim, claim_income, claim_income_fits, SECONDS_PER_DAY};
pub use address::Address;
pub use business::{Business, BusinessType, BOOST_DIVISOR, MAX_BUSINESSES};
pub use capture::{attack_territory, check_attack, resolve_attack, resolve_attack_fits, RANDOM_RANGE};
pub use config::{
    initialize, TurfConfig, BASE_INCOME_RATE, BASIS_POINTS, DEFAULT_ATTACK_COOLDOWN,
    DEFAULT_TAX_RATE, TOTAL_TERRITORIES,
};
pub use errors::{ErrorCode, ErrorKind};
pub use events::{
    AttackResolved, BusinessAdded, IncomeClaimed, SecurityUpgraded, TerritoryAttacked,
    TerritoryMinted,
};
pub use registry::{check_mint, mint_territory};
pub use territory::{
    CaptureState, District, Territory, DEFAULT_SECURITY_LEVEL, MAX_SECURITY_LEVEL,
};
pub use upgrade::{
    add_business, add_business_fits, check_business, check_upgrade, upgrade_security,
    SECURITY_UNIT_COST,
};
