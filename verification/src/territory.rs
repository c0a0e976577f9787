use vstd::prelude::*;
use crate::address::Address;
use crate::business::{lemma_total_boost_grows, total_boost, Business, MAX_BUSINESSES};
use crate::config::TurfConfig;

verus! {

/// The highest security level a plot can reach.
pub const MAX_SECURITY_LEVEL: u8 = 100;

/// The security level a plot is issued with.
pub const DEFAULT_SECURITY_LEVEL: u8 = 50;

/// The part of town a plot lies in.
#[derive(Clone, Copy, Debug, PartialEq, Eq, Structural, Hash)]
pub enum District {
    Downtown,
    Industrial,
    Financial,
    Harbor,
}

/// Whether a capture of the plot is pending.
#[derive(Clone, Copy, Debug, PartialEq, Eq, Structural, Hash)]
pub enum CaptureState {
    /// No attack is pending: the plot can pay out and can be attacked.
    Idle,
    /// An attack was launched and waits for its resolution: the plot is
    /// locked against claims and further attacks.
    Contested,
}

/// One plot: who owns it, what it yields, how well it is defended.
#[derive(Clone, Debug, PartialEq, Eq)]
pub struct Territory {
    /// The asset that stands for the plot.
    pub mint: Address,
    pub owner: Address,
    pub district: District,
    pub plot_id: u16,
    pub base_income: u64,
    /// Income per day: the base income and what the businesses add.
    pub current_income: u64,
    pub security_level: u8,
    pub last_income_claim: i64,
    /// When an attack launched from this plot was last resolved.
    pub last_attack_time: i64,
    pub defense_wins: u32,
    pub attack_wins: u32,
    pub is_under_attack: bool,
    pub businesses: Vec<Business>,
}

/// A plot as a mathematical value: its businesses are a sequence.
pub struct TerritoryView {
    pub mint: Address,
    pub owner: Address,
    pub district: District,
    pub plot_id: u16,
    pub base_income: u64,
    pub current_income: u64,
    pub security_level: u8,
    pub last_income_claim: i64,
    pub last_attack_time: i64,
    pub defense_wins: u32,
    pub attack_wins: u32,
    pub is_under_attack: bool,
    pub businesses: Seq<Business>,
}

impl View for Territory {
    type V = TerritoryView;

    open spec fn view(&self) -> TerritoryView {
        TerritoryView {
            mint: self.mint,
            owner: self.owner,
            district: self.district,
            plot_id: self.plot_id,
            base_income: self.base_income,
            current_income: self.current_income,
            security_level: self.security_level,
            last_income_claim: self.last_income_claim,
            last_attack_time: self.last_attack_time,
            defense_wins: self.defense_wins,
            attack_wins: self.attack_wins,
            is_under_attack: self.is_under_attack,
            businesses: self.businesses@,
        }
    }
}

impl TerritoryView {
    /// What holds of every plot at all times: the security level is on its
    /// scale, there are at most `MAX_BUSINESSES` businesses, each is a
    /// proper one, and the income is the base income plus their boosts.
    pub open spec fn wf(self) -> bool {
        &&& self.security_level <= MAX_SECURITY_LEVEL
        &&& self.businesses.len() <= MAX_BUSINESSES
        &&& forall|i: int| 0 <= i < self.businesses.len() ==> (#[trigger] self.businesses[i]).wf()
        &&& self.current_income == self.base_income + total_boost(self.businesses)
    }

    /// The plot's index lies in the registry's pool.
    pub open spec fn registered_in(self, config: TurfConfig) -> bool {
        1 <= self.plot_id <= config.total_territories
    }

    /// Where the plot stands in the capture protocol.
    pub open spec fn capture_state(self) -> CaptureState {
        if self.is_under_attack {
            CaptureState::Contested
        } else {
            CaptureState::Idle
        }
    }

    /// The plot as it is issued: default security, no businesses, no fights,
    /// income counted from `now`.
    pub open spec fn fresh(
        mint: Address,
        owner: Address,
        district: District,
        plot_id: u16,
        base_income: u64,
        now: i64,
    ) -> TerritoryView {
        TerritoryView {
            mint,
            owner,
            district,
            plot_id,
            base_income,
            current_income: base_income,
            security_level: DEFAULT_SECURITY_LEVEL,
            last_income_claim: now,
            last_attack_time: 0,
            defense_wins: 0,
            attack_wins: 0,
            is_under_attack: false,
            businesses: Seq::empty(),
        }
    }
}

impl Territory {
    /// The plot is well formed when its view is.
    pub open spec fn wf(&self) -> bool {
        self@.wf()
    }

    /// Decides `wf`, for a plot that was read from storage.
    pub fn is_well_formed(&self) -> (ok: bool)
        ensures
            ok == self.wf(),
    {
        if self.security_level > MAX_SECURITY_LEVEL || self.businesses.len() > MAX_BUSINESSES {
            return false;
        }
        let mut total: u128 = 0;
        let mut i: usize = 0;
        while i < self.businesses.len()
            invariant
                i <= self.businesses.len() <= MAX_BUSINESSES,
                total == total_boost(self.businesses@.take(i as int)),
                total <= i * u64::MAX,
                forall|j: int| 0 <= j < i ==> (#[trigger] self.businesses@[j]).wf(),
            decreases self.businesses.len() - i,
        {
            if !self.businesses[i].is_well_formed() {
                return false;
            }
            proof {
                assert(self.businesses@.take(i + 1).drop_last() =~= self.businesses@.take(i as int));
            }
            total = total + self.businesses[i].income_boost as u128;
            i += 1;
        }
        assert(self.businesses@.take(i as int) =~= self.businesses@);
        self.current_income as u128 == self.base_income as u128 + total
    }

    /// Where the plot stands in the capture protocol.
    pub fn capture_state(&self) -> (state: CaptureState)
        ensures
            state == self@.capture_state(),
    {
        if self.is_under_attack {
            CaptureState::Contested
        } else {
            CaptureState::Idle
        }
    }
}

/// A well-formed plot yields at least its base income.
pub proof fn lemma_income_covers_base(territory: TerritoryView)
    requires
        territory.wf(),
    ensures
        territory.base_income <= territory.current_income,
{
    lemma_total_boost_grows(territory.businesses, 0);
}

} // verus!
