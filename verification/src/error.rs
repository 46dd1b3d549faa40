use vstd::prelude::*;

verus! {

/// Validation and arithmetic errors raised by the pricing rules.
#[derive(Debug, Clone, Copy, PartialEq, Eq, Structural)]
pub enum Error {
    InvalidBaseAmount,
    MissingRegionMultiplier,
    MissingAgeMultiplier,
    MissingCoverageMultiplier,
    Overflow,
    DivideByZero,
    NegativePremiumNotSupported,
    ZeroCoverage,
    ZeroPremium,
    InvalidLedgerWindow,
}

} // verus!
