//! The typed input and output data model of the projection engine.
//!
//! The input schema is validated once at the caller's boundary and handed to
//! the engine as these plain structures; optional date fields keep their raw
//! string form and are interpreted by the engine with documented per-field
//! defaults. Each structure has a mathematical view (`@`) over which every
//! contract of the engine is stated.

use vstd::prelude::*;

verus! {

/// One income stream of a career: a monthly amount in the caller's smallest
/// currency unit.
#[derive(Clone, Copy, PartialEq, Eq, Structural, Debug)]
pub struct FinancialEntry {
    pub amount: u64,
}

impl View for FinancialEntry {
    type V = int;

    open spec fn view(&self) -> int {
        self.amount as int
    }
}

/// A career: an inclusive range of active calendar years, derived from its
/// date strings, and the income streams it contributes while active.
pub struct Career {
    pub start_date: Option<String>,
    pub end_date: Option<String>,
    pub financials: Vec<FinancialEntry>,
}

/// Mathematical view of a [`Career`].
#[verifier::ext_equal]
pub ghost struct CareerV {
    pub start_date: Option<Seq<char>>,
    pub end_date: Option<Seq<char>>,
    pub financials: Seq<int>,
}

/// Mathematical view of an optional date string.
pub open spec fn opt_date_view(d: Option<String>) -> Option<Seq<char>> {
    match d {
        Some(s) => Some(s@),
        None => None,
    }
}

/// Mathematical view of a sequence of financial entries.
pub open spec fn entries_view(s: Seq<FinancialEntry>) -> Seq<int> {
    Seq::new(s.len(), |k: int| s[k]@)
}

impl View for Career {
    type V = CareerV;

    open spec fn view(&self) -> CareerV {
        CareerV {
            start_date: opt_date_view(self.start_date),
            end_date: opt_date_view(self.end_date),
            financials: entries_view(self.financials@),
        }
    }
}

/// A mutable wealth bucket. `initial_value` is the bucket's current balance:
/// it is re-read and overwritten every simulated year. `final_value`, the
/// year bounds and `financials` are not used by the computation and are
/// carried through unchanged. `liquidity_tier` classifies the bucket: `0` is
/// cash-like, `30` or more is investment-like, anything in between grows at
/// the cash rate but receives no contributions.
pub struct WealthObject {
    pub id: String,
    pub name: String,
    pub initial_value: u64,
    pub final_value: u64,
    pub start_year: i64,
    pub end_year: i64,
    pub liquidity_tier: i64,
    pub financials: Vec<FinancialEntry>,
}

/// Mathematical view of a [`WealthObject`].
#[verifier::ext_equal]
pub ghost struct BucketV {
    pub id: Seq<char>,
    pub name: Seq<char>,
    pub initial_value: int,
    pub final_value: int,
    pub start_year: int,
    pub end_year: int,
    pub liquidity_tier: int,
    pub financials: Seq<int>,
}

impl View for WealthObject {
    type V = BucketV;

    open spec fn view(&self) -> BucketV {
        BucketV {
            id: self.id@,
            name: self.name@,
            initial_value: self.initial_value as int,
            final_value: self.final_value as int,
            start_year: self.start_year as int,
            end_year: self.end_year as int,
            liquidity_tier: self.liquidity_tier as int,
            financials: entries_view(self.financials@),
        }
    }
}

/// A person: a start (birth or reference) date used only for the age
/// calculation, the careers that produce income, and the wealth buckets the
/// simulation starts from.
pub struct Person {
    pub start_date: Option<String>,
    pub careers: Vec<Career>,
    pub wealth: Vec<WealthObject>,
}

/// Mathematical view of a [`Person`].
#[verifier::ext_equal]
pub ghost struct PersonV {
    pub start_date: Option<Seq<char>>,
    pub careers: Seq<CareerV>,
    pub wealth: Seq<BucketV>,
}

/// Mathematical view of a sequence of careers.
pub open spec fn careers_view(s: Seq<Career>) -> Seq<CareerV> {
    Seq::new(s.len(), |k: int| s[k]@)
}

/// Mathematical view of a sequence of wealth buckets.
pub open spec fn wealth_view(s: Seq<WealthObject>) -> Seq<BucketV> {
    Seq::new(s.len(), |k: int| s[k]@)
}

impl View for Person {
    type V = PersonV;

    open spec fn view(&self) -> PersonV {
        PersonV {
            start_date: opt_date_view(self.start_date),
            careers: careers_view(self.careers@),
            wealth: wealth_view(self.wealth@),
        }
    }
}

/// The whole input: an ordered member list of which only the first member,
/// the primary person, is read.
pub struct FamilyDescription {
    pub members: Vec<Person>,
}

/// Mathematical view of a [`FamilyDescription`].
#[verifier::ext_equal]
pub ghost struct FamilyV {
    pub members: Seq<PersonV>,
}

impl View for FamilyDescription {
    type V = FamilyV;

    open spec fn view(&self) -> FamilyV {
        FamilyV { members: Seq::new(self.members@.len(), |k: int| self.members@[k]@) }
    }
}

/// One simulated year's financial summary. `net_worth` and `total_assets`
/// are both the sum of all bucket balances after that year's growth and
/// contribution, and are always equal under the current policy.
#[derive(Clone, Copy, PartialEq, Eq, Structural, Debug)]
pub struct Snapshot {
    pub year: i64,
    pub age: i64,
    pub net_worth: u64,
    pub total_assets: u64,
    pub total_income: u64,
    pub total_expenses: u64,
    pub savings: u64,
}

/// Mathematical view of a [`Snapshot`].
#[verifier::ext_equal]
pub ghost struct SnapshotV {
    pub year: int,
    pub age: int,
    pub net_worth: int,
    pub total_assets: int,
    pub total_income: int,
    pub total_expenses: int,
    pub savings: int,
}

impl View for Snapshot {
    type V = SnapshotV;

    open spec fn view(&self) -> SnapshotV {
        SnapshotV {
            year: self.year as int,
            age: self.age as int,
            net_worth: self.net_worth as int,
            total_assets: self.total_assets as int,
            total_income: self.total_income as int,
            total_expenses: self.total_expenses as int,
            savings: self.savings as int,
        }
    }
}

} // verus!
