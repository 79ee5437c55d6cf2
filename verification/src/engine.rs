//! The yearly projection engine.
//!
//! The engine is a stateless transformation from a family description, an
//! injected reference year (the calendar year treated as year zero) and a
//! year count to a sequence of yearly snapshots. Internally it threads two
//! pieces of running state across years: the working wealth-bucket list and
//! the previous year's expense figure.
//!
//! Every executable function here is specified against the functional model
//! in this module: `income_at`, `expenses_at`, `savings_at`, `buckets_after`
//! and `snapshot_at` say exactly what each simulated year computes.

use vstd::prelude::*;

use crate::dates::year_of_date;
use crate::input::{
    entries_view, careers_view, wealth_view, Career, CareerV, BucketV, FamilyDescription, Person,
    PersonV, Snapshot, SnapshotV, WealthObject, FinancialEntry,
};
use crate::money::{
    grow, grow_n, grow_n_u64, grow_u64, sat64, sat_add, sat_add_u64, CASH_RETURN_RATE_BP,
    INFLATION_RATE_BP, INVESTMENT_RETURN_RATE_BP, SALARY_GROWTH_RATE_BP,
};

verus! {

/// Lowest liquidity tier that classifies a bucket as investment-like.
pub const INVEST_TIER_MIN: i64 = 30;

/// How many calendar years past the reference year a career without a
/// readable end date stays active, and how far a generated bucket's year
/// range extends.
pub const DEFAULT_SPAN_YEARS: i64 = 100;

// ---------------------------------------------------------------------------
// Functional model
// ---------------------------------------------------------------------------
/// The year encoded by an optional date string, or `default` if the date is
/// absent or encodes no year.
pub open spec fn opt_year_or(d: Option<Seq<char>>, default: int) -> int {
    match d {
        Some(s) => match year_of_date(s) {
            Some(y) => y,
            None => default,
        },
        None => default,
    }
}

/// First calendar year a career is active; defaults to the reference year.
pub open spec fn career_start_year(c: CareerV, reference_year: int) -> int {
    opt_year_or(c.start_date, reference_year)
}

/// Last calendar year a career is active; defaults to one hundred years
/// past the reference year.
pub open spec fn career_end_year(c: CareerV, reference_year: int) -> int {
    opt_year_or(c.end_date, reference_year + DEFAULT_SPAN_YEARS)
}

/// Whether a career contributes income in calendar year `year`.
pub open spec fn career_active_in(c: CareerV, reference_year: int, year: int) -> bool {
    career_start_year(c, reference_year) <= year <= career_end_year(c, reference_year)
}

/// Yearly income of one financial entry in simulation year `i`: twelve
/// monthly amounts, compounded at the salary growth rate from the
/// simulation's start (exponent `i`, regardless of the career's own start).
pub open spec fn entry_income(amount: int, i: nat) -> int {
    grow_n(sat64(amount * 12), SALARY_GROWTH_RATE_BP as int, i)
}

/// Combined yearly income of a career's financial entries in simulation
/// year `i`.
pub open spec fn entries_income(fins: Seq<int>, i: nat) -> int
    decreases fins.len(),
{
    if fins.len() == 0 {
        0
    } else {
        sat_add(entries_income(fins.drop_last(), i), entry_income(fins.last(), i))
    }
}

/// Total income in simulation year `i`: the sum over every career active in
/// calendar year `reference_year + i` of its entries' grown income.
pub open spec fn income_at(careers: Seq<CareerV>, reference_year: int, i: nat) -> int
    decreases careers.len(),
{
    if careers.len() == 0 {
        0
    } else {
        let rest = income_at(careers.drop_last(), reference_year, i);
        if career_active_in(careers.last(), reference_year, reference_year + i) {
            sat_add(rest, entries_income(careers.last().financials, i))
        } else {
            rest
        }
    }
}

/// Total expenses in simulation year `i`: half of the first year's income,
/// then the previous year's expenses compounded at the inflation rate.
pub open spec fn expenses_at(careers: Seq<CareerV>, reference_year: int, i: nat) -> int
    decreases i,
{
    if i == 0 {
        income_at(careers, reference_year, 0) / 2
    } else {
        grow(expenses_at(careers, reference_year, (i - 1) as nat), INFLATION_RATE_BP as int)
    }
}

/// Savings in simulation year `i`: the income surplus, and zero on a
/// shortfall — never negative.
pub open spec fn savings_at(careers: Seq<CareerV>, reference_year: int, i: nat) -> int {
    let income = income_at(careers, reference_year, i);
    let expenses = expenses_at(careers, reference_year, i);
    if income >= expenses {
        income - expenses
    } else {
        0
    }
}

/// The fifth of the savings (20%) allocated to the cash bucket, rounded
/// down.
pub open spec fn cash_share(savings: int) -> int {
    savings / 5
}

/// The rest of the savings (80%, plus the rounding remainder of the cash
/// share) allocated to the investment bucket.
pub open spec fn invest_share(savings: int) -> int {
    savings - savings / 5
}

/// Whether some bucket of the working list is cash-like (tier exactly 0).
pub open spec fn has_cash_bucket(bs: Seq<BucketV>) -> bool {
    exists|k: int| 0 <= k < bs.len() && bs[k].liquidity_tier == 0
}

/// Whether some bucket of the working list is investment-like (tier at
/// least [`INVEST_TIER_MIN`]).
pub open spec fn has_invest_bucket(bs: Seq<BucketV>) -> bool {
    exists|k: int| 0 <= k < bs.len() && bs[k].liquidity_tier >= INVEST_TIER_MIN
}

/// The cash bucket the engine synthesizes when the working list has none:
/// zero balance, tier 0, spanning one hundred years from the reference
/// year.
pub open spec fn generated_cash_bucket(reference_year: int) -> BucketV {
    BucketV {
        id: "generated-cash"@,
        name: "Cash Savings"@,
        initial_value: 0,
        final_value: 0,
        start_year: reference_year,
        end_year: reference_year + DEFAULT_SPAN_YEARS,
        liquidity_tier: 0,
        financials: Seq::empty(),
    }
}

/// The investment bucket the engine synthesizes when the working list has
/// none: zero balance, tier [`INVEST_TIER_MIN`].
pub open spec fn generated_invest_bucket(reference_year: int) -> BucketV {
    BucketV {
        id: "generated-invest"@,
        name: "Investments"@,
        initial_value: 0,
        final_value: 0,
        start_year: reference_year,
        end_year: reference_year + DEFAULT_SPAN_YEARS,
        liquidity_tier: INVEST_TIER_MIN as int,
        financials: Seq::empty(),
    }
}

/// The working list with a synthesized cash bucket appended if it had no
/// cash-like bucket, and a synthesized investment bucket appended if it had
/// no investment-like bucket.
pub open spec fn with_required_buckets(bs: Seq<BucketV>, reference_year: int) -> Seq<BucketV> {
    let with_cash = if has_cash_bucket(bs) {
        bs
    } else {
        bs.push(generated_cash_bucket(reference_year))
    };
    if has_invest_bucket(bs) {
        with_cash
    } else {
        with_cash.push(generated_invest_bucket(reference_year))
    }
}

/// Growth rate of a bucket: the investment return for investment-like
/// buckets, the cash return for every other bucket.
pub open spec fn bucket_rate(tier: int) -> int {
    if tier >= INVEST_TIER_MIN {
        INVESTMENT_RETURN_RATE_BP as int
    } else {
        CASH_RETURN_RATE_BP as int
    }
}

/// One year of growth and contribution applied to a single bucket: the
/// balance compounds at the bucket's rate, then receives the cash share
/// (tier 0), the investment share (tier at least [`INVEST_TIER_MIN`]), or
/// nothing (inert tiers in between).
pub open spec fn grown_bucket(b: BucketV, to_cash: int, to_invest: int) -> BucketV {
    let grown = grow(b.initial_value, bucket_rate(b.liquidity_tier));
    let new_balance = if b.liquidity_tier == 0 {
        sat_add(grown, to_cash)
    } else if b.liquidity_tier >= INVEST_TIER_MIN {
        sat_add(grown, to_invest)
    } else {
        grown
    };
    BucketV { initial_value: new_balance, ..b }
}

/// One year of growth and contribution applied to the whole working list.
pub open spec fn grown_buckets(bs: Seq<BucketV>, to_cash: int, to_invest: int) -> Seq<BucketV> {
    Seq::new(bs.len(), |k: int| grown_bucket(bs[k], to_cash, to_invest))
}

/// Sum of all bucket balances, saturating at `u64::MAX`.
pub open spec fn total_assets_of(bs: Seq<BucketV>) -> int
    decreases bs.len(),
{
    if bs.len() == 0 {
        0
    } else {
        sat_add(total_assets_of(bs.drop_last()), bs.last().initial_value)
    }
}

/// One whole simulated year applied to the working bucket list: the
/// existence check and synthesis, then growth and contribution out of the
/// year's savings.
pub open spec fn year_step_buckets(bs: Seq<BucketV>, reference_year: int, savings: int) -> Seq<
    BucketV,
> {
    grown_buckets(with_required_buckets(bs, reference_year), cash_share(savings), invest_share(savings))
}

/// The working bucket list at the end of simulation year `i`, starting from
/// the person's wealth list.
pub open spec fn buckets_after(p: PersonV, reference_year: int, i: nat) -> Seq<BucketV>
    decreases i,
{
    let previous = if i == 0 {
        p.wealth
    } else {
        buckets_after(p, reference_year, (i - 1) as nat)
    };
    year_step_buckets(previous, reference_year, savings_at(p.careers, reference_year, i))
}

/// The person's start year, used only for the age calculation; defaults to
/// the reference year.
pub open spec fn person_start_year(p: PersonV, reference_year: int) -> int {
    opt_year_or(p.start_date, reference_year)
}

/// The snapshot emitted for simulation year `i`.
pub open spec fn snapshot_at(p: PersonV, reference_year: int, i: nat) -> SnapshotV {
    let total = total_assets_of(buckets_after(p, reference_year, i));
    SnapshotV {
        year: reference_year + i,
        age: reference_year - person_start_year(p, reference_year) + i,
        net_worth: total,
        total_assets: total,
        total_income: income_at(p.careers, reference_year, i),
        total_expenses: expenses_at(p.careers, reference_year, i),
        savings: savings_at(p.careers, reference_year, i),
    }
}

// ---------------------------------------------------------------------------
// Income
// ---------------------------------------------------------------------------
/// Computes one entry's income for simulation year `year_index`.
pub fn entry_income_u64(amount: u64, year_index: u32) -> (r: u64)
    ensures
        r == entry_income(amount as int, year_index as nat),
{
    let base: u64 = if amount > u64::MAX / 12 {
        u64::MAX
    } else {
        amount * 12
    };
    assert(base == sat64(amount as int * 12));
    grow_n_u64(base, SALARY_GROWTH_RATE_BP, year_index)
}

/// Computes the combined income of a career's financial entries for
/// simulation year `year_index`.
pub fn career_entries_income(fins: &Vec<FinancialEntry>, year_index: u32) -> (r: u64)
    ensures
        r == entries_income(entries_view(fins@), year_index as nat),
{
    let ghost model = entries_view(fins@);
    let mut acc: u64 = 0;
    let mut j: usize = 0;
    while j < fins.len()
        invariant
            j <= fins.len(),
            model == entries_view(fins@),
            acc == entries_income(model.take(j as int), year_index as nat),
        decreases fins.len() - j,
    {
        let one = entry_income_u64(fins[j].amount, year_index);
        acc = sat_add_u64(acc, one);
        proof {
            assert(model.take(j + 1).drop_last() =~= model.take(j as int));
            assert(model.take(j + 1).last() == model[j as int]);
        }
        j = j + 1;
    }
    proof {
        assert(model.take(fins@.len() as int) =~= model);
    }
    acc
}

/// First calendar year a career is active, derived from its start date;
/// defaults to the reference year.
pub fn career_start_year_of(c: &Career, reference_year: i32) -> (y: i64)
    ensures
        y == career_start_year(c@, reference_year as int),
{
    match &c.start_date {
        Some(s) => match crate::dates::year_from_date(s.as_str()) {
            Some(parsed) => parsed as i64,
            None => reference_year as i64,
        },
        None => reference_year as i64,
    }
}

/// Last calendar year a career is active, derived from its end date;
/// defaults to one hundred years past the reference year.
pub fn career_end_year_of(c: &Career, reference_year: i32) -> (y: i64)
    ensures
        y == career_end_year(c@, reference_year as int),
{
    match &c.end_date {
        Some(s) => match crate::dates::year_from_date(s.as_str()) {
            Some(parsed) => parsed as i64,
            None => reference_year as i64 + DEFAULT_SPAN_YEARS,
        },
        None => reference_year as i64 + DEFAULT_SPAN_YEARS,
    }
}

/// Computes the total income of simulation year `year_index`: the sum over
/// every career active in calendar year `reference_year + year_index`.
pub fn income_for_year(careers: &Vec<Career>, reference_year: i32, year_index: u32) -> (r: u64)
    ensures
        r == income_at(careers_view(careers@), reference_year as int, year_index as nat),
{
    let ghost model = careers_view(careers@);
    let current_year: i64 = reference_year as i64 + year_index as i64;
    let mut acc: u64 = 0;
    let mut j: usize = 0;
    while j < careers.len()
        invariant
            j <= careers.len(),
            model == careers_view(careers@),
            current_year == reference_year as int + year_index as int,
            acc == income_at(model.take(j as int), reference_year as int, year_index as nat),
        decreases careers.len() - j,
    {
        let career = &careers[j];
        let start = career_start_year_of(career, reference_year);
        let end = career_end_year_of(career, reference_year);
        if start <= current_year && current_year <= end {
            let earned = career_entries_income(&career.financials, year_index);
            acc = sat_add_u64(acc, earned);
        }
        proof {
            assert(model.take(j + 1).drop_last() =~= model.take(j as int));
            assert(model.take(j + 1).last() == model[j as int]);
        }
        j = j + 1;
    }
    proof {
        assert(model.take(careers@.len() as int) =~= model);
    }
    acc
}

// ---------------------------------------------------------------------------
// Bucket maintenance
// ---------------------------------------------------------------------------
/// Pushing a bucket commutes with taking the view of the list.
proof fn lemma_wealth_view_push(s: Seq<WealthObject>, b: WealthObject)
    ensures
        wealth_view(s.push(b)) == wealth_view(s).push(b@),
{
    assert(wealth_view(s.push(b)) =~= wealth_view(s).push(b@));
}

/// Builds the synthesized cash bucket.
fn make_generated_cash(reference_year: i32) -> (b: WealthObject)
    ensures
        b@ == generated_cash_bucket(reference_year as int),
{
    let b = WealthObject {
        id: String::from_str("generated-cash"),
        name: String::from_str("Cash Savings"),
        initial_value: 0,
        final_value: 0,
        start_year: reference_year as i64,
        end_year: reference_year as i64 + DEFAULT_SPAN_YEARS,
        liquidity_tier: 0,
        financials: Vec::new(),
    };
    proof {
        assert(entries_view(b.financials@) =~= Seq::<int>::empty());
        assert(b@ =~= generated_cash_bucket(reference_year as int));
    }
    b
}

/// Builds the synthesized investment bucket.
fn make_generated_invest(reference_year: i32) -> (b: WealthObject)
    ensures
        b@ == generated_invest_bucket(reference_year as int),
{
    let b = WealthObject {
        id: String::from_str("generated-invest"),
        name: String::from_str("Investments"),
        initial_value: 0,
        final_value: 0,
        start_year: reference_year as i64,
        end_year: reference_year as i64 + DEFAULT_SPAN_YEARS,
        liquidity_tier: INVEST_TIER_MIN,
        financials: Vec::new(),
    };
    proof {
        assert(entries_view(b.financials@) =~= Seq::<int>::empty());
        assert(b@ =~= generated_invest_bucket(reference_year as int));
    }
    b
}

/// Reports whether the list holds a cash-like bucket (tier exactly 0).
pub fn scan_has_cash(buckets: &Vec<WealthObject>) -> (r: bool)
    ensures
        r == has_cash_bucket(wealth_view(buckets@)),
{
    let ghost model = wealth_view(buckets@);
    let mut j: usize = 0;
    while j < buckets.len()
        invariant
            j <= buckets@.len(),
            model == wealth_view(buckets@),
            forall|k: int| 0 <= k < j ==> #[trigger] model[k].liquidity_tier != 0,
        decreases buckets@.len() - j,
    {
        if buckets[j].liquidity_tier == 0 {
            assert(model[j as int].liquidity_tier == 0);
            return true;
        }
        j = j + 1;
    }
    false
}

/// Reports whether the list holds an investment-like bucket (tier at least
/// [`INVEST_TIER_MIN`]).
pub fn scan_has_invest(buckets: &Vec<WealthObject>) -> (r: bool)
    ensures
        r == has_invest_bucket(wealth_view(buckets@)),
{
    let ghost model = wealth_view(buckets@);
    let mut j: usize = 0;
    while j < buckets.len()
        invariant
            j <= buckets@.len(),
            model == wealth_view(buckets@),
            forall|k: int| 0 <= k < j ==> #[trigger] model[k].liquidity_tier < INVEST_TIER_MIN,
        decreases buckets@.len() - j,
    {
        if buckets[j].liquidity_tier >= INVEST_TIER_MIN {
            assert(model[j as int].liquidity_tier >= INVEST_TIER_MIN);
            return true;
        }
        j = j + 1;
    }
    false
}

/// Appends a synthesized cash bucket if the working list has no cash-like
/// bucket, and a synthesized investment bucket if it has no
/// investment-like bucket. Idempotent once a bucket of each kind exists.
pub fn ensure_buckets(buckets: &mut Vec<WealthObject>, reference_year: i32)
    ensures
        wealth_view(final(buckets)@) == with_required_buckets(
            wealth_view(old(buckets)@),
            reference_year as int,
        ),
{
    let ghost orig = wealth_view(old(buckets)@);
    let has_cash = scan_has_cash(buckets);
    let has_invest = scan_has_invest(buckets);
    if !has_cash {
        let generated = make_generated_cash(reference_year);
        proof {
            lemma_wealth_view_push(buckets@, generated);
        }
        buckets.push(generated);
    }
    if !has_invest {
        let generated = make_generated_invest(reference_year);
        proof {
            lemma_wealth_view_push(buckets@, generated);
        }
        buckets.push(generated);
    }
}

/// Applies one year of growth to every bucket, adds the cash share to
/// cash-like buckets and the investment share to investment-like buckets,
/// and returns the resulting total of all balances.
pub fn grow_buckets_for_year(buckets: &mut Vec<WealthObject>, to_cash: u64, to_invest: u64) -> (total: u64)
    ensures
        wealth_view(final(buckets)@) == grown_buckets(
            wealth_view(old(buckets)@),
            to_cash as int,
            to_invest as int,
        ),
        total == total_assets_of(
            grown_buckets(wealth_view(old(buckets)@), to_cash as int, to_invest as int),
        ),
{
    let ghost orig = wealth_view(old(buckets)@);
    let ghost target = grown_buckets(orig, to_cash as int, to_invest as int);
    let mut total: u64 = 0;
    let mut j: usize = 0;
    while j < buckets.len()
        invariant
            j <= buckets@.len(),
            buckets@.len() == orig.len(),
            orig == wealth_view(old(buckets)@),
            target == grown_buckets(orig, to_cash as int, to_invest as int),
            forall|k: int| j <= k < orig.len() ==> buckets@[k] == old(buckets)@[k],
            forall|k: int| 0 <= k < j ==> #[trigger] buckets@[k]@ == target[k],
            total == total_assets_of(target.take(j as int)),
        decreases buckets@.len() - j,
    {
        let tier = buckets[j].liquidity_tier;
        let rate = if tier >= INVEST_TIER_MIN {
            INVESTMENT_RETURN_RATE_BP
        } else {
            CASH_RETURN_RATE_BP
        };
        let grown_balance = grow_u64(buckets[j].initial_value, rate);
        let new_balance = if tier == 0 {
            sat_add_u64(grown_balance, to_cash)
        } else if tier >= INVEST_TIER_MIN {
            sat_add_u64(grown_balance, to_invest)
        } else {
            grown_balance
        };
        buckets[j].initial_value = new_balance;
        total = sat_add_u64(total, new_balance);
        proof {
            assert(buckets@[j as int]@ =~= grown_bucket(orig[j as int], to_cash as int, to_invest as int));
            assert(target.take(j + 1).drop_last() =~= target.take(j as int));
            assert(target.take(j + 1).last() == target[j as int]);
        }
        j = j + 1;
    }
    proof {
        assert(target.take(orig.len() as int) =~= target);
        assert(wealth_view(buckets@) =~= target);
    }
    total
}

// ---------------------------------------------------------------------------
// The yearly loop
// ---------------------------------------------------------------------------
/// Copies a list of financial entries.
fn clone_financials(v: &Vec<FinancialEntry>) -> (r: Vec<FinancialEntry>)
    ensures
        r@ == v@,
{
    let mut r: Vec<FinancialEntry> = Vec::new();
    let mut j: usize = 0;
    while j < v.len()
        invariant
            j <= v@.len(),
            r@ == v@.take(j as int),
        decreases v@.len() - j,
    {
        r.push(v[j]);
        proof {
            assert(v@.take(j + 1) =~= v@.take(j as int).push(v@[j as int]));
        }
        j = j + 1;
    }
    proof {
        assert(v@.take(v@.len() as int) =~= v@);
    }
    r
}

/// Copies one wealth bucket.
fn clone_bucket(b: &WealthObject) -> (r: WealthObject)
    ensures
        r@ == b@,
{
    let r = WealthObject {
        id: b.id.clone(),
        name: b.name.clone(),
        initial_value: b.initial_value,
        final_value: b.final_value,
        start_year: b.start_year,
        end_year: b.end_year,
        liquidity_tier: b.liquidity_tier,
        financials: clone_financials(&b.financials),
    };
    proof {
        assert(r@ =~= b@);
    }
    r
}

/// Copies the person's wealth list into the engine's working bucket list.
fn clone_wealth(v: &Vec<WealthObject>) -> (r: Vec<WealthObject>)
    ensures
        wealth_view(r@) == wealth_view(v@),
{
    let mut r: Vec<WealthObject> = Vec::new();
    let mut j: usize = 0;
    while j < v.len()
        invariant
            j <= v@.len(),
            r@.len() == j,
            forall|k: int| 0 <= k < j ==> #[trigger] r@[k]@ == v@[k]@,
        decreases v@.len() - j,
    {
        let copied = clone_bucket(&v[j]);
        r.push(copied);
        j = j + 1;
    }
    proof {
        assert(wealth_view(r@) =~= wealth_view(v@));
    }
    r
}

/// The person's start year, derived from the start date; defaults to the
/// reference year.
pub fn person_start_year_of(p: &Person, reference_year: i32) -> (y: i64)
    ensures
        y == person_start_year(p@, reference_year as int),
{
    match &p.start_date {
        Some(s) => match crate::dates::year_from_date(s.as_str()) {
            Some(parsed) => parsed as i64,
            None => reference_year as i64,
        },
        None => reference_year as i64,
    }
}

/// Runs one simulated year: computes the year's income, expenses and
/// savings, maintains the working bucket list (synthesis, growth,
/// contribution), and returns the year's snapshot. The caller threads the
/// returned `total_expenses` into the next year's `previous_expenses`.
pub fn simulate_year(
    person: &Person,
    reference_year: i32,
    year_index: u32,
    buckets: &mut Vec<WealthObject>,
    previous_expenses: u64,
) -> (snap: Snapshot)
    ensures
        snap@.total_income == income_at(person@.careers, reference_year as int, year_index as nat),
        snap@.total_expenses == (if year_index == 0 {
            income_at(person@.careers, reference_year as int, 0) / 2
        } else {
            grow(previous_expenses as int, INFLATION_RATE_BP as int)
        }),
        snap@.savings == (if snap@.total_income >= snap@.total_expenses {
            snap@.total_income - snap@.total_expenses
        } else {
            0
        }),
        wealth_view(final(buckets)@) == year_step_buckets(
            wealth_view(old(buckets)@),
            reference_year as int,
            snap@.savings,
        ),
        snap@.total_assets == total_assets_of(wealth_view(final(buckets)@)),
        snap@.net_worth == snap@.total_assets,
        snap@.year == reference_year as int + year_index as int,
        snap@.age == reference_year as int - person_start_year(person@, reference_year as int)
            + year_index as int,
{
    let total_income = income_for_year(&person.careers, reference_year, year_index);
    let total_expenses = if year_index == 0 {
        total_income / 2
    } else {
        grow_u64(previous_expenses, INFLATION_RATE_BP)
    };
    let savings = if total_income >= total_expenses {
        total_income - total_expenses
    } else {
        0
    };
    let to_cash = savings / 5;
    let to_invest = savings - to_cash;
    ensure_buckets(buckets, reference_year);
    let total_assets = grow_buckets_for_year(buckets, to_cash, to_invest);
    let age: i64 = reference_year as i64 - person_start_year_of(person, reference_year)
        + year_index as i64;
    Snapshot {
        year: reference_year as i64 + year_index as i64,
        age,
        net_worth: total_assets,
        total_assets,
        total_income,
        total_expenses,
        savings,
    }
}

/// Projects the primary member's finances forward. Produces `years + 1`
/// snapshots, one per calendar year starting at the injected reference
/// year, or no snapshots at all if the member list is empty.
pub fn project(family: &FamilyDescription, reference_year: i32, years: u32) -> (snapshots: Vec<
    Snapshot,
>)
    ensures
        family@.members.len() == 0 ==> snapshots@.len() == 0,
        family@.members.len() > 0 ==> snapshots@.len() == years as int + 1,
        family@.members.len() > 0 ==> forall|k: int|
            0 <= k <= years as int ==> #[trigger] snapshots@[k]@ == snapshot_at(
                family@.members[0],
                reference_year as int,
                k as nat,
            ),
        forall|k: int|
            0 <= k < snapshots@.len() ==> #[trigger] snapshots@[k]@.year == reference_year as int
                + k,
        forall|k: int| 0 <= k < snapshots@.len() ==> #[trigger] snapshots@[k]@.savings >= 0,
{
    if family.members.len() == 0 {
        return Vec::new();
    }
    let person = &family.members[0];
    assert(person@ == family@.members[0]);
    let mut buckets = clone_wealth(&person.wealth);
    let mut previous_expenses: u64 = 0;
    let mut snapshots: Vec<Snapshot> = Vec::new();
    let mut i: u64 = 0;
    while i <= years as u64
        invariant
            i <= years as u64 + 1,
            person@ == family@.members[0],
            snapshots@.len() == i,
            wealth_view(buckets@) == (if i == 0 {
                person@.wealth
            } else {
                buckets_after(person@, reference_year as int, (i - 1) as nat)
            }),
            i > 0 ==> previous_expenses == expenses_at(
                person@.careers,
                reference_year as int,
                (i - 1) as nat,
            ),
            forall|k: int|
                0 <= k < i ==> #[trigger] snapshots@[k]@ == snapshot_at(
                    person@,
                    reference_year as int,
                    k as nat,
                ),
        decreases years as u64 + 1 - i,
    {
        let snap = simulate_year(person, reference_year, i as u32, &mut buckets, previous_expenses);
        proof {
            assert(snap@.savings == savings_at(person@.careers, reference_year as int, i as nat));
            assert(wealth_view(buckets@) == buckets_after(person@, reference_year as int, i as nat));
            assert(snap@ =~= snapshot_at(person@, reference_year as int, i as nat));
        }
        previous_expenses = snap.total_expenses;
        snapshots.push(snap);
        i = i + 1;
    }
    snapshots
}

} // verus!
