use vstd::prelude::*;

verus! {

/// The most businesses one plot can hold.
pub const MAX_BUSINESSES: usize = 5;

/// A boost is the investment times the multiplier in tenths, divided by
/// this: one thousandth of the investment times the multiplier.
pub const BOOST_DIVISOR: u64 = 10_000;

/// What a business does; each kind has its own income multiplier.
#[derive(Clone, Copy, Debug, PartialEq, Eq, Structural, Hash)]
pub enum BusinessType {
    Restaurant,
    Nightclub,
    Casino,
    Construction,
    Shipping,
}

impl BusinessType {
    /// The income multiplier in tenths: 1.2 for a restaurant is 12, 2.0 for
    /// a casino is 20.
    pub open spec fn multiplier_tenths_of(self) -> u64 {
        match self {
            BusinessType::Restaurant => 12,
            BusinessType::Nightclub => 15,
            BusinessType::Casino => 20,
            BusinessType::Construction => 13,
            BusinessType::Shipping => 18,
        }
    }

    /// The income multiplier in tenths.
    #[verifier::when_used_as_spec(multiplier_tenths_of)]
    pub fn multiplier_tenths(self) -> (tenths: u64)
        ensures
            tenths == self.multiplier_tenths_of(),
            12 <= tenths <= 20,
    {
        match self {
            BusinessType::Restaurant => 12,
            BusinessType::Nightclub => 15,
            BusinessType::Casino => 20,
            BusinessType::Construction => 13,
            BusinessType::Shipping => 18,
        }
    }

    /// The daily income that `investment` adds: the investment times the
    /// multiplier, per thousand, rounded down.
    pub open spec fn boost_of(self, investment: u64) -> int {
        investment * self.multiplier_tenths_of() / (BOOST_DIVISOR as int)
    }

    /// The daily income that `investment` adds. The product is taken in
    /// 128 bits, so it is exact for every investment.
    pub fn boost(self, investment: u64) -> (boost: u64)
        ensures
            boost == self.boost_of(investment),
    {
        let tenths: u64 = self.multiplier_tenths();
        proof {
            lemma_boost_bounds(self, investment);
            assert(investment * tenths <= 20 * investment) by (nonlinear_arith)
                requires
                    tenths <= 20,
            ;
        }
        let scaled: u128 = (investment as u128) * (tenths as u128);
        (scaled / (BOOST_DIVISOR as u128)) as u64
    }
}

/// One business on a plot. It is added once and stays as it is.
#[derive(Clone, Copy, Debug, PartialEq, Eq, Hash)]
pub struct Business {
    pub business_type: BusinessType,
    pub investment: u64,
    pub income_boost: u64,
    pub created_at: i64,
}

impl Business {
    /// A business holds a real investment, and its boost is the one its
    /// kind and investment give.
    pub open spec fn wf(self) -> bool {
        &&& self.investment > 0
        &&& self.income_boost == self.business_type.boost_of(self.investment)
    }

    /// The business that `investment` opens at time `now`.
    pub open spec fn opened(business_type: BusinessType, investment: u64, now: i64) -> Business {
        Business {
            business_type,
            investment,
            income_boost: business_type.boost_of(investment) as u64,
            created_at: now,
        }
    }

    /// Decides `wf`.
    pub fn is_well_formed(&self) -> (ok: bool)
        ensures
            ok == self.wf(),
    {
        self.investment > 0 && self.income_boost == self.business_type.boost(self.investment)
    }
}

/// The income that a plot's businesses add together.
pub open spec fn total_boost(businesses: Seq<Business>) -> int
    decreases businesses.len(),
{
    if businesses.len() == 0 {
        0
    } else {
        total_boost(businesses.drop_last()) + businesses.last().income_boost
    }
}

/// A boost is the exact product of investment and multiplier, per thousand,
/// rounded down; it never exceeds the investment behind it.
pub proof fn lemma_boost_bounds(business_type: BusinessType, investment: u64)
    ensures
        0 <= business_type.boost_of(investment) <= investment,
        business_type.boost_of(investment) * 10_000 <= investment
            * business_type.multiplier_tenths_of() < (business_type.boost_of(investment) + 1)
            * 10_000,
{
    let tenths = business_type.multiplier_tenths_of();
    assert(0 <= investment * tenths <= 20 * investment) by (nonlinear_arith)
        requires
            12 <= tenths <= 20,
    ;
}

/// Adding a business adds its boost to the total.
pub proof fn lemma_total_boost_push(businesses: Seq<Business>, business: Business)
    ensures
        total_boost(businesses.push(business)) == total_boost(businesses) + business.income_boost,
{
    assert(businesses.push(business).drop_last() =~= businesses);
}

/// The total is never negative, and each further business only raises it.
pub proof fn lemma_total_boost_grows(businesses: Seq<Business>, n: int)
    requires
        0 <= n <= businesses.len(),
    ensures
        0 <= total_boost(businesses.take(n)) <= total_boost(businesses),
    decreases businesses.len() - n,
{
    if n == businesses.len() {
        assert(businesses.take(n) =~= businesses);
        lemma_total_boost_nonnegative(businesses);
    } else {
        lemma_total_boost_grows(businesses, n + 1);
        lemma_total_boost_nonnegative(businesses.take(n));
        assert(businesses.take(n + 1).drop_last() =~= businesses.take(n));
    }
}

proof fn lemma_total_boost_nonnegative(businesses: Seq<Business>)
    ensures
        0 <= total_boost(businesses),
    decreases businesses.len(),
{
    if businesses.len() > 0 {
        lemma_total_boost_nonnegative(businesses.drop_last());
    }
}

} // verus!
