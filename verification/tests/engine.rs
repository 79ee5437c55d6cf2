use finsim::engine::{project, simulate_year};
use finsim::input::{Career, FamilyDescription, FinancialEntry, Person, WealthObject};

fn career(start: Option<&str>, end: Option<&str>, monthly_amounts: &[u64]) -> Career {
    Career {
        start_date: start.map(|s| s.to_string()),
        end_date: end.map(|s| s.to_string()),
        financials: monthly_amounts.iter().map(|&a| FinancialEntry { amount: a }).collect(),
    }
}

fn bucket(id: &str, balance: u64, tier: i64) -> WealthObject {
    WealthObject {
        id: id.to_string(),
        name: id.to_string(),
        initial_value: balance,
        final_value: 0,
        start_year: 2024,
        end_year: 2124,
        liquidity_tier: tier,
        financials: Vec::new(),
    }
}

fn one_member_family(start_date: Option<&str>, careers: Vec<Career>, wealth: Vec<WealthObject>) -> FamilyDescription {
    FamilyDescription {
        members: vec![Person {
            start_date: start_date.map(|s| s.to_string()),
            careers,
            wealth,
        }],
    }
}

#[test]
fn example_projection() {
    // One member born 1980, one career active since 2000 with a 5000 monthly
    // entry, no wealth, projected for zero extra years from 2024.
    let family = one_member_family(
        Some("1980-01-01T00:00:00Z"),
        vec![career(Some("2000-01-01T00:00:00Z"), None, &[5000])],
        Vec::new(),
    );
    let snapshots = project(&family, 2024, 0);
    assert_eq!(snapshots.len(), 1);
    let snap = &snapshots[0];
    assert_eq!(snap.year, 2024);
    assert_eq!(snap.age, 44);
    assert_eq!(snap.total_income, 60000);
    assert_eq!(snap.total_expenses, 30000);
    assert_eq!(snap.savings, 30000);
    assert_eq!(snap.total_assets, 30000);
    assert_eq!(snap.net_worth, 30000);
}

#[test]
fn snapshot_count_and_contiguous_years() {
    let family = one_member_family(
        Some("1980-01-01T00:00:00Z"),
        vec![career(Some("2000-01-01T00:00:00Z"), None, &[5000])],
        Vec::new(),
    );
    let snapshots = project(&family, 2024, 3);
    assert_eq!(snapshots.len(), 4);
    for (k, snap) in snapshots.iter().enumerate() {
        assert_eq!(snap.year, 2024 + k as i64);
        assert_eq!(snap.age, 44 + k as i64);
    }
}

#[test]
fn empty_members_empty_output() {
    let family = FamilyDescription { members: Vec::new() };
    let snapshots = project(&family, 2024, 5);
    assert!(snapshots.is_empty());
}

#[test]
fn empty_financials_zero_income_and_expenses() {
    // The only active career has no financial entries; another career with
    // entries ended long before the reference year.
    let family = one_member_family(
        Some("1980-01-01T00:00:00Z"),
        vec![
            career(Some("2000-01-01T00:00:00Z"), None, &[]),
            career(Some("2000-01-01T00:00:00Z"), Some("2010-01-01T00:00:00Z"), &[4000]),
        ],
        Vec::new(),
    );
    let snapshots = project(&family, 2024, 0);
    assert_eq!(snapshots[0].total_income, 0);
    assert_eq!(snapshots[0].total_expenses, 0);
    assert_eq!(snapshots[0].savings, 0);
}

#[test]
fn savings_zero_on_shortfall() {
    // The career ends in the reference year, so expenses keep inflating
    // while income drops to zero; savings stay at zero rather than go
    // negative.
    let family = one_member_family(
        None,
        vec![career(Some("2000-01-01T00:00:00Z"), Some("2024-12-31T00:00:00Z"), &[5000])],
        Vec::new(),
    );
    let snapshots = project(&family, 2024, 2);
    assert_eq!(snapshots[0].savings, 30000);
    assert_eq!(snapshots[1].total_income, 0);
    assert_eq!(snapshots[1].total_expenses, 30900);
    assert_eq!(snapshots[1].savings, 0);
    assert_eq!(snapshots[2].total_expenses, 31827);
    assert_eq!(snapshots[2].savings, 0);
}

#[test]
fn expenses_inflate_independently() {
    let family = one_member_family(
        None,
        vec![career(Some("2000-01-01T00:00:00Z"), None, &[5000])],
        Vec::new(),
    );
    let snapshots = project(&family, 2024, 2);
    assert_eq!(snapshots[0].total_expenses, 30000);
    assert_eq!(snapshots[1].total_expenses, 30900);
    assert_eq!(snapshots[2].total_expenses, 31827);
    // Income compounds at the salary growth rate from the simulation start.
    assert_eq!(snapshots[1].total_income, 61800);
    assert_eq!(snapshots[2].total_income, 63654);
    assert_eq!(snapshots[1].savings, 61800 - 30900);
}

#[test]
fn career_active_only_inside_year_bounds() {
    let family = one_member_family(
        None,
        vec![career(Some("2025-01-01T00:00:00Z"), Some("2026-01-01T00:00:00Z"), &[5000])],
        Vec::new(),
    );
    let snapshots = project(&family, 2024, 3);
    assert_eq!(snapshots[0].total_income, 0);
    // A career starting mid-simulation still gets the cumulative growth
    // factor for its simulation year.
    assert_eq!(snapshots[1].total_income, 61800);
    assert_eq!(snapshots[2].total_income, 63654);
    assert_eq!(snapshots[3].total_income, 0);
}

#[test]
fn missing_dates_use_defaults() {
    // A career without dates is active from the reference year for a
    // century; a person without a start date has age equal to the year
    // index.
    let family = one_member_family(None, vec![career(None, None, &[1000, 2000])], Vec::new());
    let snapshots = project(&family, 2024, 1);
    assert_eq!(snapshots[0].total_income, 36000);
    assert_eq!(snapshots[0].age, 0);
    assert_eq!(snapshots[1].age, 1);
}

#[test]
fn unparseable_dates_use_defaults() {
    let family = one_member_family(
        Some("n/a"),
        vec![career(Some("soon"), None, &[1000])],
        Vec::new(),
    );
    let snapshots = project(&family, 2024, 0);
    assert_eq!(snapshots[0].total_income, 12000);
    assert_eq!(snapshots[0].age, 0);
}

#[test]
fn empty_wealth_generates_both_buckets() {
    // After year zero the working list holds exactly the generated cash
    // bucket with the cash share and the generated investment bucket with
    // the investment share.
    let person = Person {
        start_date: None,
        careers: vec![career(Some("2000-01-01T00:00:00Z"), None, &[5000])],
        wealth: Vec::new(),
    };
    let mut buckets: Vec<WealthObject> = Vec::new();
    let snap = simulate_year(&person, 2024, 0, &mut buckets, 0);
    assert_eq!(snap.savings, 30000);
    assert_eq!(buckets.len(), 2);
    assert_eq!(buckets[0].id, "generated-cash");
    assert_eq!(buckets[0].liquidity_tier, 0);
    assert_eq!(buckets[0].initial_value, 6000);
    assert_eq!(buckets[1].id, "generated-invest");
    assert_eq!(buckets[1].liquidity_tier, 30);
    assert_eq!(buckets[1].initial_value, 24000);
}

#[test]
fn bucket_synthesis_idempotent() {
    // An input that already holds a cash-like and an investment-like bucket
    // never receives generated buckets in any iteration.
    let person = Person {
        start_date: None,
        careers: vec![career(Some("2000-01-01T00:00:00Z"), None, &[5000])],
        wealth: vec![bucket("my-cash", 1000, 0), bucket("my-invest", 2000, 30)],
    };
    let mut buckets = vec![bucket("my-cash", 1000, 0), bucket("my-invest", 2000, 30)];
    let mut previous_expenses = 0;
    for i in 0..4 {
        let snap = simulate_year(&person, 2024, i, &mut buckets, previous_expenses);
        previous_expenses = snap.total_expenses;
        assert_eq!(buckets.len(), 2);
        assert_eq!(buckets[0].id, "my-cash");
        assert_eq!(buckets[1].id, "my-invest");
    }
}

#[test]
fn growth_and_contribution_per_tier() {
    // Cash grows 1% and receives the 20% share; investments grow 7% and
    // receive the 80% share; inert tiers grow 1% and receive nothing.
    let family = one_member_family(
        None,
        vec![career(Some("2000-01-01T00:00:00Z"), None, &[5000])],
        vec![
            bucket("cash", 1000, 0),
            bucket("invest", 2000, 30),
            bucket("inert", 10000, 5),
        ],
    );
    let snapshots = project(&family, 2024, 0);
    // savings 30000: 6000 to cash, 24000 to invest.
    // cash: 1000 * 1.01 + 6000 = 7010
    // invest: 2000 * 1.07 + 24000 = 26140
    // inert: 10000 * 1.01 = 10100
    assert_eq!(snapshots[0].total_assets, 7010 + 26140 + 10100);
    assert_eq!(snapshots[0].net_worth, snapshots[0].total_assets);
}

#[test]
fn inert_bucket_only_grows() {
    let person = Person {
        start_date: None,
        careers: Vec::new(),
        wealth: vec![bucket("cash", 10000, 0), bucket("mid", 10000, 5), bucket("high", 10000, 30)],
    };
    let mut buckets = vec![
        bucket("cash", 10000, 0),
        bucket("mid", 10000, 5),
        bucket("high", 10000, 30),
    ];
    let snap = simulate_year(&person, 2024, 0, &mut buckets, 0);
    assert_eq!(snap.total_income, 0);
    assert_eq!(snap.savings, 0);
    assert_eq!(buckets[0].initial_value, 10100);
    assert_eq!(buckets[1].initial_value, 10100);
    assert_eq!(buckets[2].initial_value, 10700);
}

#[test]
fn only_first_member_is_read() {
    let first = Person {
        start_date: None,
        careers: vec![career(None, None, &[1000])],
        wealth: Vec::new(),
    };
    let second = Person {
        start_date: None,
        careers: vec![career(None, None, &[9000])],
        wealth: Vec::new(),
    };
    let family = FamilyDescription { members: vec![first, second] };
    let snapshots = project(&family, 2024, 0);
    assert_eq!(snapshots[0].total_income, 12000);
}

#[test]
fn input_wealth_not_mutated() {
    // The engine works on a copy of the input wealth list.
    let family = one_member_family(
        None,
        vec![career(None, None, &[5000])],
        vec![bucket("cash", 1000, 0), bucket("invest", 2000, 30)],
    );
    let _ = project(&family, 2024, 2);
    assert_eq!(family.members[0].wealth[0].initial_value, 1000);
    assert_eq!(family.members[0].wealth[1].initial_value, 2000);
}
