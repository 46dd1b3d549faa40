use niffyinsure::error::Error;
use niffyinsure::premium_pure::{
    age_multiplier, compute_premium, try_compute_premium, coverage_multiplier, region_multiplier, SCALE,
};
use niffyinsure::types::{AgeBand, CoverageTier, MultiplierTable, RegionTier, RiskInput};
use soroban_sdk::{Env, IntoVal, Symbol, TryFromVal, Val};

fn make_table(env: &Env) -> MultiplierTable {
    let mut table = MultiplierTable::new(env, 2_000, 1);
    table.set_region(RegionTier::Low, 8_500);
    table.set_region(RegionTier::Medium, 10_000);
    table.set_region(RegionTier::High, 13_500);

    table.set_age(AgeBand::Young, 12_500);
    table.set_age(AgeBand::Adult, 10_000);
    table.set_age(AgeBand::Senior, 11_500);

    table.set_coverage(CoverageTier::Basic, 9_000);
    table.set_coverage(CoverageTier::Standard, 10_000);
    table.set_coverage(CoverageTier::Premium, 13_000);
    table
}

#[test]
fn compute_premium_rejects_zero_base() {
    let env = Env::default();
    let table = make_table(&env);
    let input = RiskInput {
        region: RegionTier::Medium,
        age_band: AgeBand::Adult,
        coverage: CoverageTier::Standard,
        safety_score: 0,
    };
    assert_eq!(
        compute_premium(&input, 0, &table),
        Err(Error::InvalidBaseAmount)
    );
}

#[test]
fn compute_premium_baseline_medium_adult_standard_no_safety() {
    // base=10_000, region=1.0, age=1.0, coverage=1.0, safety=0 → 10_000
    let env = Env::default();
    let table = make_table(&env);
    let input = RiskInput {
        region: RegionTier::Medium,
        age_band: AgeBand::Adult,
        coverage: CoverageTier::Standard,
        safety_score: 0,
    };
    let result = compute_premium(&input, 10_000, &table).unwrap();
    assert_eq!(result.total_premium, 10_000);
    assert_eq!(result.config_version, 1);
    assert_eq!(result.steps.len(), 5);
}

#[test]
fn compute_premium_high_risk_increases_premium() {
    let env = Env::default();
    let table = make_table(&env);
    let low_risk = RiskInput {
        region: RegionTier::Low,
        age_band: AgeBand::Adult,
        coverage: CoverageTier::Basic,
        safety_score: 100,
    };
    let high_risk = RiskInput {
        region: RegionTier::High,
        age_band: AgeBand::Senior,
        coverage: CoverageTier::Premium,
        safety_score: 0,
    };
    let low = compute_premium(&low_risk, 10_000, &table)
        .unwrap()
        .total_premium;
    let high = compute_premium(&high_risk, 10_000, &table)
        .unwrap()
        .total_premium;
    assert!(
        high > low,
        "high risk should cost more: high={high}, low={low}"
    );
}

#[test]
fn compute_premium_steps_are_monotonically_labelled() {
    let env = Env::default();
    let table = make_table(&env);
    let input = RiskInput {
        region: RegionTier::Medium,
        age_band: AgeBand::Adult,
        coverage: CoverageTier::Standard,
        safety_score: 50,
    };
    let result = compute_premium(&input, 10_000, &table).unwrap();
    assert_eq!(result.steps[0].component, "region");
    assert_eq!(result.steps[1].component, "age_band");
    assert_eq!(result.steps[2].component, "coverage");
    assert_eq!(result.steps[3].component, "safety_multiplier");
    assert_eq!(result.steps[4].component, "final_rounding");
}

#[test]
fn compute_premium_missing_region_errors() {
    // Build a table with only Medium/High region entries (missing Low)
    let env = Env::default();
    let mut region = soroban_sdk::Map::new(&env);
    region.set(RegionTier::Medium.key(), 10_000i128);
    region.set(RegionTier::High.key(), 13_500i128);
    // Intentionally omit Low

    let mut age = soroban_sdk::Map::new(&env);
    age.set(AgeBand::Young.key(), 12_500i128);
    age.set(AgeBand::Adult.key(), 10_000i128);
    age.set(AgeBand::Senior.key(), 11_500i128);

    let mut coverage = soroban_sdk::Map::new(&env);
    coverage.set(CoverageTier::Basic.key(), 9_000i128);
    coverage.set(CoverageTier::Standard.key(), 10_000i128);
    coverage.set(CoverageTier::Premium.key(), 13_000i128);

    let table = MultiplierTable {
        region,
        age,
        coverage,
        safety_discount: 2_000,
        version: 1,
    };
    let input = RiskInput {
        region: RegionTier::Low,
        age_band: AgeBand::Adult,
        coverage: CoverageTier::Standard,
        safety_score: 0,
    };
    assert_eq!(
        compute_premium(&input, 10_000, &table),
        Err(Error::MissingRegionMultiplier)
    );
}

// ── Further cases ────────────────────────────────────────────────────────────

#[test]
fn compute_premium_exact_stage_values() {
    // High: 10_000 * 13_500 / 10_000 = 13_500
    // Senior: 13_500 * 11_500 / 10_000 = 15_525
    // Premium: 15_525 * 13_000 / 10_000 = 20_182.5 → ceil 20_183
    // safety 50 of 2_000 → factor 9_000: 20_183 * 9_000 / 10_000 = 18_164.7 → floor 18_164
    let env = Env::default();
    let table = make_table(&env);
    let input = RiskInput {
        region: RegionTier::High,
        age_band: AgeBand::Senior,
        coverage: CoverageTier::Premium,
        safety_score: 50,
    };
    let result = compute_premium(&input, 10_000, &table).unwrap();
    let factors: Vec<i128> = result.steps.iter().map(|s| s.factor).collect();
    let premiums: Vec<i128> = result.steps.iter().map(|s| s.premium).collect();
    assert_eq!(factors, vec![13_500, 11_500, 13_000, 9_000, 1]);
    assert_eq!(premiums, vec![13_500, 15_525, 20_183, 18_164, 18_164]);
    assert_eq!(result.total_premium, 18_164);
}

#[test]
fn compute_premium_missing_age_and_coverage_errors() {
    let env = Env::default();
    let mut table = MultiplierTable::new(&env, 2_000, 3);
    table.set_region(RegionTier::Low, 8_500);
    let input = RiskInput {
        region: RegionTier::Low,
        age_band: AgeBand::Young,
        coverage: CoverageTier::Basic,
        safety_score: 0,
    };
    assert_eq!(
        compute_premium(&input, 10_000, &table),
        Err(Error::MissingAgeMultiplier)
    );
    table.set_age(AgeBand::Young, 12_500);
    assert_eq!(
        compute_premium(&input, 10_000, &table),
        Err(Error::MissingCoverageMultiplier)
    );
    table.set_coverage(CoverageTier::Basic, 9_000);
    let result = compute_premium(&input, 10_000, &table).unwrap();
    assert_eq!(result.config_version, 3);
    // 8_500 → 10_625 → 9_562.5 ceil 9_563 → safety factor SCALE
    assert_eq!(result.total_premium, 9_563);
}

#[test]
fn compute_premium_negative_multiplier_and_discount_errors() {
    let env = Env::default();
    let mut table = make_table(&env);
    let input = RiskInput {
        region: RegionTier::Medium,
        age_band: AgeBand::Adult,
        coverage: CoverageTier::Standard,
        safety_score: 10,
    };
    table.safety_discount = -1;
    assert_eq!(
        compute_premium(&input, 10_000, &table),
        Err(Error::NegativePremiumNotSupported)
    );
    table.safety_discount = 2_000;
    table.set_region(RegionTier::Medium, -5);
    assert_eq!(
        compute_premium(&input, 10_000, &table),
        Err(Error::NegativePremiumNotSupported)
    );
    table.set_region(RegionTier::Medium, i128::MAX);
    assert_eq!(
        compute_premium(&input, 10_000, &table),
        Err(Error::Overflow)
    );
    assert_eq!(
        compute_premium(&input, -7, &table),
        Err(Error::InvalidBaseAmount)
    );
}

#[test]
fn table_lookups_give_back_what_was_set() {
    let env = Env::default();
    let mut table = MultiplierTable::new(&env, 0, 0);
    assert_eq!(
        region_multiplier(&table, &RegionTier::High),
        Err(Error::MissingRegionMultiplier)
    );
    table.set_region(RegionTier::High, 13_500);
    table.set_region(RegionTier::High, 14_000);
    table.set_age(AgeBand::Senior, 11_500);
    table.set_coverage(CoverageTier::Premium, 13_000);
    assert_eq!(region_multiplier(&table, &RegionTier::High), Ok(14_000));
    assert_eq!(
        region_multiplier(&table, &RegionTier::Low),
        Err(Error::MissingRegionMultiplier)
    );
    assert_eq!(age_multiplier(&table, &AgeBand::Senior), Ok(11_500));
    assert_eq!(
        age_multiplier(&table, &AgeBand::Adult),
        Err(Error::MissingAgeMultiplier)
    );
    assert_eq!(coverage_multiplier(&table, &CoverageTier::Premium), Ok(13_000));
    assert_eq!(
        coverage_multiplier(&table, &CoverageTier::Basic),
        Err(Error::MissingCoverageMultiplier)
    );
}

#[test]
fn premium_never_decreases_with_base_or_factors() {
    let env = Env::default();
    let table = make_table(&env);
    let input = RiskInput {
        region: RegionTier::Low,
        age_band: AgeBand::Young,
        coverage: CoverageTier::Basic,
        safety_score: 30,
    };
    let mut previous = 0;
    for base in [1i128, 2, 3, 999, 10_000, 10_001, 1_000_000] {
        let total = compute_premium(&input, base, &table).unwrap().total_premium;
        assert!(total >= previous);
        previous = total;
    }
    assert_eq!(SCALE, 10_000);
}

#[test]
fn try_compute_premium_refuses_unreadable_entries() {
    let env = Env::default();
    let table = make_table(&env);
    let input = RiskInput {
        region: RegionTier::Low,
        age_band: AgeBand::Adult,
        coverage: CoverageTier::Standard,
        safety_score: 0,
    };
    // A readable table prices exactly as compute_premium does.
    assert_eq!(
        try_compute_premium(&input, 10_000, &table),
        Some(compute_premium(&input, 10_000, &table))
    );

    // A region map decoded from a host value whose entry under `Low` is a symbol.
    let mut raw: soroban_sdk::Map<u32, Symbol> = soroban_sdk::Map::new(&env);
    raw.set(RegionTier::Low.key(), Symbol::new(&env, "oops"));
    let val: Val = raw.into_val(&env);
    let region = soroban_sdk::Map::<u32, i128>::try_from_val(&env, &val).unwrap();
    let bad = MultiplierTable {
        region,
        age: table.age.clone(),
        coverage: table.coverage.clone(),
        safety_discount: 2_000,
        version: 1,
    };
    assert_eq!(try_compute_premium(&input, 10_000, &bad), None);
    // No map is read when the base is not positive.
    assert_eq!(
        try_compute_premium(&input, 0, &bad),
        Some(Err(Error::InvalidBaseAmount))
    );
    // A tier whose entry is missing is answered without a read of the bad value.
    let medium = RiskInput { region: RegionTier::Medium, ..input };
    assert_eq!(
        try_compute_premium(&medium, 10_000, &bad),
        Some(Err(Error::MissingRegionMultiplier))
    );
}
