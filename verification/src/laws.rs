//! General properties of the projection engine, proved once and for all
//! over the functional model of [`crate::engine`].

use vstd::prelude::*;

use crate::engine::{
    buckets_after, career_active_in, cash_share, expenses_at, grown_bucket, grown_buckets,
    has_cash_bucket, has_invest_bucket, income_at, invest_share, savings_at,
    with_required_buckets, generated_cash_bucket, generated_invest_bucket, INVEST_TIER_MIN,
};
use crate::input::{BucketV, CareerV, PersonV};
use crate::money::{grow, sat_add};

verus! {

/// Every value the model produces lies in the `u64` range; this lemma
/// records it for a year's total income.
pub proof fn lemma_income_at_bounds(careers: Seq<CareerV>, reference_year: int, i: nat)
    ensures
        0 <= income_at(careers, reference_year, i) <= u64::MAX,
    decreases careers.len(),
{
    if careers.len() > 0 {
        lemma_income_at_bounds(careers.drop_last(), reference_year, i);
    }
}

/// A year's total expenses lie in the `u64` range.
pub proof fn lemma_expenses_at_bounds(careers: Seq<CareerV>, reference_year: int, i: nat)
    ensures
        0 <= expenses_at(careers, reference_year, i) <= u64::MAX,
    decreases i,
{
    if i == 0 {
        lemma_income_at_bounds(careers, reference_year, 0);
    } else {
        lemma_expenses_at_bounds(careers, reference_year, (i - 1) as nat);
    }
}

/// Savings are never negative, in any simulated year, for any input; they
/// also never exceed the `u64` range.
pub proof fn lemma_savings_never_negative(careers: Seq<CareerV>, reference_year: int, i: nat)
    ensures
        0 <= savings_at(careers, reference_year, i) <= u64::MAX,
{
    lemma_income_at_bounds(careers, reference_year, i);
    lemma_expenses_at_bounds(careers, reference_year, i);
}

/// If every career active in simulation year `i` has no financial entries,
/// that year's total income is exactly zero; in year zero this forces the
/// expenses and the savings to zero as well.
pub proof fn lemma_income_zero_without_active_entries(
    careers: Seq<CareerV>,
    reference_year: int,
    i: nat,
)
    requires
        forall|k: int|
            0 <= k < careers.len() && career_active_in(
                #[trigger] careers[k],
                reference_year,
                reference_year + i,
            ) ==> careers[k].financials.len() == 0,
    ensures
        income_at(careers, reference_year, i) == 0,
        i == 0 ==> expenses_at(careers, reference_year, 0) == 0,
        i == 0 ==> savings_at(careers, reference_year, 0) == 0,
    decreases careers.len(),
{
    if careers.len() > 0 {
        assert(forall|k: int|
            0 <= k < careers.drop_last().len() ==> careers.drop_last()[k] == careers[k]);
        lemma_income_zero_without_active_entries(careers.drop_last(), reference_year, i);
    }
}

/// Growth and contribution change only bucket balances: the list's length
/// and every bucket's liquidity tier stay as they were.
pub proof fn lemma_grown_buckets_preserve_tiers(bs: Seq<BucketV>, to_cash: int, to_invest: int)
    ensures
        grown_buckets(bs, to_cash, to_invest).len() == bs.len(),
        forall|k: int|
            0 <= k < bs.len() ==> #[trigger] grown_buckets(bs, to_cash, to_invest)[k].liquidity_tier
                == bs[k].liquidity_tier,
{
}

/// Growth and contribution preserve the presence of cash-like and
/// investment-like buckets.
pub proof fn lemma_grown_buckets_preserve_presence(bs: Seq<BucketV>, to_cash: int, to_invest: int)
    ensures
        has_cash_bucket(grown_buckets(bs, to_cash, to_invest)) == has_cash_bucket(bs),
        has_invest_bucket(grown_buckets(bs, to_cash, to_invest)) == has_invest_bucket(bs),
{
    let grown = grown_buckets(bs, to_cash, to_invest);
    if has_cash_bucket(bs) {
        let k = choose|k: int| 0 <= k < bs.len() && bs[k].liquidity_tier == 0;
        assert(grown[k].liquidity_tier == 0);
    }
    if has_cash_bucket(grown) {
        let k = choose|k: int| 0 <= k < grown.len() && grown[k].liquidity_tier == 0;
        assert(bs[k].liquidity_tier == 0);
    }
    if has_invest_bucket(bs) {
        let k = choose|k: int| 0 <= k < bs.len() && bs[k].liquidity_tier >= INVEST_TIER_MIN;
        assert(grown[k].liquidity_tier >= INVEST_TIER_MIN);
    }
    if has_invest_bucket(grown) {
        let k = choose|k: int| 0 <= k < grown.len() && grown[k].liquidity_tier >= INVEST_TIER_MIN;
        assert(bs[k].liquidity_tier >= INVEST_TIER_MIN);
    }
}

/// Bucket synthesis is idempotent: once the working list holds a cash-like
/// and an investment-like bucket, the existence check appends nothing.
pub proof fn lemma_with_required_buckets_identity(bs: Seq<BucketV>, reference_year: int)
    requires
        has_cash_bucket(bs),
        has_invest_bucket(bs),
    ensures
        with_required_buckets(bs, reference_year) == bs,
{
}

/// An input that already holds a cash-like and an investment-like bucket
/// never receives generated buckets, in any simulated year: the working
/// list keeps its length and its tiers, and keeps holding both kinds.
pub proof fn lemma_no_buckets_generated_when_present(p: PersonV, reference_year: int, i: nat)
    requires
        has_cash_bucket(p.wealth),
        has_invest_bucket(p.wealth),
    ensures
        buckets_after(p, reference_year, i).len() == p.wealth.len(),
        has_cash_bucket(buckets_after(p, reference_year, i)),
        has_invest_bucket(buckets_after(p, reference_year, i)),
        forall|k: int|
            0 <= k < p.wealth.len() ==> #[trigger] buckets_after(
                p,
                reference_year,
                i,
            )[k].liquidity_tier == p.wealth[k].liquidity_tier,
    decreases i,
{
    let savings = savings_at(p.careers, reference_year, i);
    if i == 0 {
        lemma_with_required_buckets_identity(p.wealth, reference_year);
        lemma_grown_buckets_preserve_tiers(p.wealth, cash_share(savings), invest_share(savings));
        lemma_grown_buckets_preserve_presence(p.wealth, cash_share(savings), invest_share(savings));
    } else {
        lemma_no_buckets_generated_when_present(p, reference_year, (i - 1) as nat);
        let previous = buckets_after(p, reference_year, (i - 1) as nat);
        lemma_with_required_buckets_identity(previous, reference_year);
        lemma_grown_buckets_preserve_tiers(previous, cash_share(savings), invest_share(savings));
        lemma_grown_buckets_preserve_presence(previous, cash_share(savings), invest_share(savings));
    }
}

/// Starting from an empty wealth list, the working list after year zero
/// holds exactly two buckets: the generated cash bucket holding the cash
/// share of year zero's savings, and the generated investment bucket
/// holding the investment share.
pub proof fn lemma_empty_wealth_first_year(p: PersonV, reference_year: int)
    requires
        p.wealth.len() == 0,
    ensures
        buckets_after(p, reference_year, 0).len() == 2,
        buckets_after(p, reference_year, 0)[0] == (BucketV {
            initial_value: cash_share(savings_at(p.careers, reference_year, 0)),
            ..generated_cash_bucket(reference_year)
        }),
        buckets_after(p, reference_year, 0)[1] == (BucketV {
            initial_value: invest_share(savings_at(p.careers, reference_year, 0)),
            ..generated_invest_bucket(reference_year)
        }),
{
    let savings = savings_at(p.careers, reference_year, 0);
    let to_cash = cash_share(savings);
    let to_invest = invest_share(savings);
    lemma_savings_never_negative(p.careers, reference_year, 0);
    assert(!has_cash_bucket(p.wealth));
    assert(!has_invest_bucket(p.wealth));
    let required = with_required_buckets(p.wealth, reference_year);
    assert(required == p.wealth.push(generated_cash_bucket(reference_year)).push(
        generated_invest_bucket(reference_year),
    ));
    assert(required[0] == generated_cash_bucket(reference_year));
    assert(required[1] == generated_invest_bucket(reference_year));
    assert(0 <= to_cash <= savings) by {
        assert(savings / 5 >= 0);
        assert(savings / 5 <= savings);
    }
    assert(grow(0, 100) == 0);
    assert(grow(0, 700) == 0);
    assert(sat_add(0, to_cash) == to_cash);
    assert(sat_add(0, to_invest) == to_invest);
    assert(buckets_after(p, reference_year, 0)[0] == grown_bucket(
        generated_cash_bucket(reference_year),
        to_cash,
        to_invest,
    ));
    assert(buckets_after(p, reference_year, 0)[1] == grown_bucket(
        generated_invest_bucket(reference_year),
        to_cash,
        to_invest,
    ));
}

} // verus!
