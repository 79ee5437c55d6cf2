//! A deterministic, year-by-year personal-finance projection engine.
//!
//! Given a description of a person's career income streams and existing
//! wealth holdings, the engine projects net worth forward for a configurable
//! number of years, applying salary growth, inflation-driven expense
//! escalation, a fixed savings-allocation policy, and differentiated growth
//! rates for liquid vs. invested assets.
//!
//! All money amounts are unsigned integers in the caller's smallest currency
//! unit, and all rates are fixed basis-point constants, so every computation
//! is exact and fully specified; arithmetic that would exceed the `u64`
//! range saturates at `u64::MAX`.

pub mod dates;
pub mod engine;
pub mod input;
pub mod laws;
pub mod money;
