//! Pure premium arithmetic: checked integer primitives, ratio scaling with an
//! explicit rounding mode, and the staged premium computation.

use vstd::prelude::*;
use vstd::arithmetic::div_mod::*;
use crate::error::Error;
use crate::types::{
    holds_i128_at, map_get, map_try_get, multiplier_entries, AgeBand, CoverageTier, MultiplierTable, RegionTier, RiskInput,
};

verus! {

/// Fixed-point scale of every multiplier: `10_000` stands for `1.0`.
pub const SCALE: i128 = 10_000;
pub const MIN_MULTIPLIER: i128 = 5_000;
pub const MAX_MULTIPLIER: i128 = 50_000;
pub const MAX_SAFETY_DISCOUNT: i128 = 5_000;
const PERCENT_SCALE: i128 = 100;

/// How a ratio or a rounding step treats a non-zero remainder.
#[derive(Copy, Clone, Debug, PartialEq, Eq, Structural)]
pub enum Rounding {
    Floor,
    Ceil,
}

/// One stage of the premium computation: the factor applied and the running
/// premium after it.
#[derive(Clone, Debug, PartialEq, Eq)]
pub struct PremiumStep {
    pub component: &'static str,
    pub factor: i128,
    pub premium: i128,
}

/// The premium with its five stages, in order.
#[derive(Clone, Debug, PartialEq, Eq)]
pub struct PremiumComputation {
    pub total_premium: i128,
    pub config_version: u32,
    pub steps: [PremiumStep; 5],
}

// ── Mathematical model ───────────────────────────────────────────────────────

pub open spec fn fits_i128(x: int) -> bool {
    i128::MIN <= x <= i128::MAX
}

/// The value `x` as an `i128`, or `Overflow` when it does not fit.
pub open spec fn checked_value(x: int) -> Result<i128, Error> {
    if fits_i128(x) {
        Ok(x as i128)
    } else {
        Err(Error::Overflow)
    }
}

/// Division rounding toward zero, as Rust's `/` on signed integers.
pub open spec fn trunc_div(a: int, b: int) -> int {
    if a == 0 {
        0
    } else if a > 0 && b > 0 {
        a / b
    } else if a < 0 && b < 0 {
        (-a) / (-b)
    } else if a < 0 {
        -((-a) / b)
    } else {
        -(a / (-b))
    }
}

/// `p / d` for `p >= 0`, `d > 0`, rounded as `mode` says.
pub open spec fn rounded_quotient(p: int, d: int, mode: Rounding) -> int {
    match mode {
        Rounding::Floor => p / d,
        Rounding::Ceil => if p % d == 0 { p / d } else { p / d + 1 },
    }
}

/// `amount * numerator / denominator` rounded as `rounding` says, with the
/// errors of `checked_mul_ratio`, checked in the same order.
pub open spec fn mul_ratio(amount: int, numerator: int, denominator: int, rounding: Rounding) -> Result<i128, Error> {
    if amount < 0 || numerator < 0 || denominator < 0 {
        Err(Error::NegativePremiumNotSupported)
    } else if !fits_i128(amount * numerator) {
        Err(Error::Overflow)
    } else if denominator == 0 {
        Err(Error::DivideByZero)
    } else {
        Ok(rounded_quotient(amount * numerator, denominator, rounding) as i128)
    }
}

/// `value` rounded down or up to a multiple of `multiple`, with the errors of
/// `round_to_multiple`, checked in the same order.
pub open spec fn multiple_rounding(value: int, multiple: int, mode: Rounding) -> Result<i128, Error> {
    if multiple == 0 {
        Err(Error::DivideByZero)
    } else if value < 0 || multiple < 0 {
        Err(Error::NegativePremiumNotSupported)
    } else {
        checked_value(rounded_quotient(value, multiple, mode) * multiple)
    }
}

/// `SCALE - floor(score * max_discount / 100)`, with the errors of the ratio.
pub open spec fn safety_factor(safety_score: int, max_discount: int) -> Result<i128, Error> {
    match mul_ratio(safety_score, max_discount, 100, Rounding::Floor) {
        Ok(earned) => checked_value(SCALE - earned),
        Err(e) => Err(e),
    }
}

/// The multiplier held under `key`, or the error `missing` when there is none.
pub open spec fn table_lookup(entries: Map<u32, i128>, key: u32, missing: Error) -> Result<i128, Error> {
    if entries.dom().contains(key) {
        Ok(entries[key])
    } else {
        Err(missing)
    }
}

/// The factors and running premiums of the five pricing stages.
#[derive(Copy, Clone, Debug, PartialEq, Eq, Structural)]
pub struct PremiumStages {
    pub region_factor: i128,
    pub after_region: i128,
    pub age_factor: i128,
    pub after_age: i128,
    pub coverage_factor: i128,
    pub after_coverage: i128,
    pub safety_factor: i128,
    pub after_safety: i128,
    pub total: i128,
}

/// The stages that scale `base` by the four factors: three risk factors each
/// rounded up, then the safety factor rounded down, then a final round up to
/// a whole token unit.
pub open spec fn scaled_stages(
    base: int,
    region_m: i128,
    age_m: i128,
    coverage_m: i128,
    safety_m: i128,
) -> Result<PremiumStages, Error> {
    match mul_ratio(base, region_m as int, SCALE as int, Rounding::Ceil) {
        Err(e) => Err(e),
        Ok(after_region) => match mul_ratio(after_region as int, age_m as int, SCALE as int, Rounding::Ceil) {
            Err(e) => Err(e),
            Ok(after_age) => match mul_ratio(after_age as int, coverage_m as int, SCALE as int, Rounding::Ceil) {
                Err(e) => Err(e),
                Ok(after_coverage) => match mul_ratio(after_coverage as int, safety_m as int, SCALE as int, Rounding::Floor) {
                    Err(e) => Err(e),
                    Ok(after_safety) => match multiple_rounding(after_safety as int, 1, Rounding::Ceil) {
                        Err(e) => Err(e),
                        Ok(total) => Ok(PremiumStages {
                            region_factor: region_m,
                            after_region,
                            age_factor: age_m,
                            after_age,
                            coverage_factor: coverage_m,
                            after_coverage,
                            safety_factor: safety_m,
                            after_safety,
                            total,
                        }),
                    },
                },
            },
        },
    }
}

/// The premium of `input` at `base` against tables holding `region`, `age`
/// and `coverage`, with the errors of `compute_premium`, in its order.
pub open spec fn premium_quote(
    input: RiskInput,
    base: int,
    region: Map<u32, i128>,
    age: Map<u32, i128>,
    coverage: Map<u32, i128>,
    safety_discount: i128,
) -> Result<PremiumStages, Error> {
    if base <= 0 {
        Err(Error::InvalidBaseAmount)
    } else {
        match table_lookup(region, input.region.code(), Error::MissingRegionMultiplier) {
            Err(e) => Err(e),
            Ok(region_m) => match table_lookup(age, input.age_band.code(), Error::MissingAgeMultiplier) {
                Err(e) => Err(e),
                Ok(age_m) => match table_lookup(coverage, input.coverage.code(), Error::MissingCoverageMultiplier) {
                    Err(e) => Err(e),
                    Ok(coverage_m) => match safety_factor(input.safety_score as int, safety_discount as int) {
                        Err(e) => Err(e),
                        Ok(safety_m) => scaled_stages(base, region_m, age_m, coverage_m, safety_m),
                    },
                },
            },
        }
    }
}

/// The premium that `input` and `base` get from `table`.
pub open spec fn table_quote(input: RiskInput, base: int, table: MultiplierTable) -> Result<PremiumStages, Error> {
    premium_quote(
        input,
        base,
        multiplier_entries(table.region),
        multiplier_entries(table.age),
        multiplier_entries(table.coverage),
        table.safety_discount,
    )
}

/// Every map read that `compute_premium` makes for `input` and `base` can be
/// made without panicking: the region entry once the base is positive, the
/// age entry once the region is found, the coverage entry once the age is.
pub open spec fn premium_readable(input: RiskInput, base: int, table: MultiplierTable) -> bool {
    &&& base > 0 ==> holds_i128_at(table.region, input.region.code())
    &&& base > 0 && multiplier_entries(table.region).dom().contains(input.region.code())
        ==> holds_i128_at(table.age, input.age_band.code())
    &&& base > 0 && multiplier_entries(table.region).dom().contains(input.region.code())
        && multiplier_entries(table.age).dom().contains(input.age_band.code())
        ==> holds_i128_at(table.coverage, input.coverage.code())
}

/// `c` reports the stages `q` under the labels `region`, `age_band`,
/// `coverage`, `safety_multiplier` and `final_rounding`, with `version`.
pub open spec fn reports(c: PremiumComputation, q: PremiumStages, version: u32) -> bool {
    &&& c.total_premium == q.total
    &&& c.config_version == version
    &&& c.steps@[0].component@ == "region"@
    &&& c.steps@[0].factor == q.region_factor
    &&& c.steps@[0].premium == q.after_region
    &&& c.steps@[1].component@ == "age_band"@
    &&& c.steps@[1].factor == q.age_factor
    &&& c.steps@[1].premium == q.after_age
    &&& c.steps@[2].component@ == "coverage"@
    &&& c.steps@[2].factor == q.coverage_factor
    &&& c.steps@[2].premium == q.after_coverage
    &&& c.steps@[3].component@ == "safety_multiplier"@
    &&& c.steps@[3].factor == q.safety_factor
    &&& c.steps@[3].premium == q.after_safety
    &&& c.steps@[4].component@ == "final_rounding"@
    &&& c.steps@[4].factor == 1
    &&& c.steps@[4].premium == q.total
}

// ── Lemmas on quotients ──────────────────────────────────────────────────────

/// A rounded quotient of a non-negative value never exceeds the value, and
/// the ceiling exceeds the floor by at most one.
pub proof fn lemma_rounded_quotient_bounds(p: int, d: int)
    requires
        p >= 0,
        d > 0,
    ensures
        0 <= p / d <= p,
        0 <= rounded_quotient(p, d, Rounding::Floor) <= rounded_quotient(p, d, Rounding::Ceil) <= p,
        rounded_quotient(p, d, Rounding::Ceil) <= rounded_quotient(p, d, Rounding::Floor) + 1,
        p % d == 0 ==> rounded_quotient(p, d, Rounding::Ceil) == rounded_quotient(p, d, Rounding::Floor),
        (p / d) * d <= p,
        p < (p / d) * d + d,
        p == (p / d) * d + p % d,
{
    lemma_fundamental_div_mod(p, d);
    lemma_mod_bound(p, d);
    lemma_div_pos_is_pos(p, d);
    lemma_div_nonincreasing(p, d);
    if p % d != 0 {
        lemma_div_decreases(p, d);
    }
    assert((p / d) * d == d * (p / d)) by (nonlinear_arith);
}

/// Truncating division stays within the magnitude of the dividend.
proof fn lemma_trunc_div_fits(a: i128, b: i128)
    requires
        b != 0,
        !(a == i128::MIN && b == -1),
    ensures
        fits_i128(trunc_div(a as int, b as int)),
{
    let x = a as int;
    let d = b as int;
    if x > 0 && d > 0 {
        lemma_rounded_quotient_bounds(x, d);
    } else if x < 0 && d < 0 {
        lemma_rounded_quotient_bounds(-x, -d);
        if d <= -2 {
            lemma_div_is_ordered_by_denominator(-x, 2, -d);
            lemma_fundamental_div_mod(-x, 2);
            lemma_mod_bound(-x, 2);
        }
    } else if x < 0 {
        lemma_rounded_quotient_bounds(-x, d);
    } else if x > 0 {
        lemma_rounded_quotient_bounds(x, -d);
    }
}

// ── Laws ─────────────────────────────────────────────────────────────────────

/// Rounding a ratio up gives the rounded-down value, or one more when the
/// division is not exact; both bracket the exact ratio.
pub proof fn lemma_ratio_rounding_gap(amount: int, numerator: int, denominator: int)
    requires
        amount >= 0,
        numerator >= 0,
        denominator > 0,
        fits_i128(amount * numerator),
    ensures
        mul_ratio(amount, numerator, denominator, Rounding::Floor) is Ok,
        mul_ratio(amount, numerator, denominator, Rounding::Ceil) is Ok,
        ({
            let lo = mul_ratio(amount, numerator, denominator, Rounding::Floor)->Ok_0 as int;
            let hi = mul_ratio(amount, numerator, denominator, Rounding::Ceil)->Ok_0 as int;
            &&& lo * denominator <= amount * numerator
            &&& amount * numerator <= hi * denominator
            &&& lo <= hi <= lo + 1
            &&& ((amount * numerator) % denominator == 0 <==> lo == hi)
        }),
{
    let p = amount * numerator;
    assert(p >= 0) by (nonlinear_arith)
        requires amount >= 0, numerator >= 0, p == amount * numerator;
    lemma_rounded_quotient_bounds(p, denominator);
    let q = p / denominator;
    assert((q + 1) * denominator == q * denominator + denominator) by (nonlinear_arith);
}

/// A ratio never decreases when its amount or its numerator grows.
pub proof fn lemma_ratio_monotone(a1: int, n1: int, a2: int, n2: int, denominator: int, rounding: Rounding)
    requires
        0 <= a1 <= a2,
        0 <= n1 <= n2,
        denominator > 0,
        fits_i128(a2 * n2),
    ensures
        mul_ratio(a1, n1, denominator, rounding) is Ok,
        mul_ratio(a2, n2, denominator, rounding) is Ok,
        mul_ratio(a1, n1, denominator, rounding)->Ok_0 <= mul_ratio(a2, n2, denominator, rounding)->Ok_0,
{
    let p1 = a1 * n1;
    let p2 = a2 * n2;
    assert(0 <= p1 <= p2) by (nonlinear_arith)
        requires 0 <= a1 <= a2, 0 <= n1 <= n2, p1 == a1 * n1, p2 == a2 * n2;
    lemma_rounded_quotient_bounds(p1, denominator);
    lemma_rounded_quotient_bounds(p2, denominator);
    lemma_div_is_ordered(p1, p2, denominator);
    if p1 / denominator == p2 / denominator && p1 % denominator != 0 {
        // p2 = q * d + r2 with r2 >= r1 > 0
        assert(p2 % denominator != 0);
    }
}

/// Rounding to a multiple gives a multiple of it; rounding down stays at or
/// below the value and within one multiple of it, rounding up at or above.
pub proof fn lemma_round_to_multiple_brackets(value: int, multiple: int)
    requires
        value >= 0,
        multiple > 0,
        fits_i128(value),
    ensures
        multiple_rounding(value, multiple, Rounding::Floor) is Ok,
        ({
            let lo = multiple_rounding(value, multiple, Rounding::Floor)->Ok_0 as int;
            &&& lo % multiple == 0
            &&& lo <= value < lo + multiple
        }),
        multiple_rounding(value, multiple, Rounding::Ceil) is Ok ==> ({
            let hi = multiple_rounding(value, multiple, Rounding::Ceil)->Ok_0 as int;
            &&& hi % multiple == 0
            &&& value <= hi < value + multiple
        }),
        value % multiple == 0 ==> multiple_rounding(value, multiple, Rounding::Ceil) == Ok::<i128, Error>(value as i128),
{
    lemma_rounded_quotient_bounds(value, multiple);
    let q = value / multiple;
    lemma_mod_multiples_basic(q, multiple);
    lemma_mod_multiples_basic(q + 1, multiple);
    assert((q + 1) * multiple == q * multiple + multiple) by (nonlinear_arith);
    assert(q * multiple == multiple * q) by (nonlinear_arith);
    assert((q + 1) * multiple == multiple * (q + 1)) by (nonlinear_arith);
}

/// With a discount cap `d` (`0 <= d`, `100 * d` within range) and a score of
/// at most 100, the safety factor lies between `SCALE - d` and `SCALE`; a
/// score of zero earns no discount and a higher score never raises the factor.
pub proof fn lemma_safety_factor_range(score1: int, score2: int, d: int)
    requires
        0 <= score1 <= score2 <= 100,
        0 <= d,
        fits_i128(100 * d),
    ensures
        safety_factor(score1, d) is Ok,
        safety_factor(score2, d) is Ok,
        SCALE - d <= safety_factor(score2, d)->Ok_0 <= safety_factor(score1, d)->Ok_0 <= SCALE,
        safety_factor(0, d) == Ok::<i128, Error>(SCALE),
{
    assert(score2 * d <= 100 * d) by (nonlinear_arith)
        requires 0 <= score2 <= 100, 0 <= d;
    lemma_ratio_monotone(score1, d, score2, d, 100, Rounding::Floor);
    lemma_ratio_monotone(score2, d, 100, d, 100, Rounding::Floor);
    lemma_ratio_monotone(0, d, score1, d, 100, Rounding::Floor);
    assert((100 * d) / 100 == d) by {
        lemma_div_multiples_vanish(d, 100);
    }
    assert(0 * d == 0);
}

/// Stage by stage, the premium never decreases when the base or any factor
/// grows: if the larger inputs are priced, so are the smaller, at most as high.
pub proof fn lemma_stages_monotone(
    base1: int, region1: i128, age1: i128, coverage1: i128, safety1: i128,
    base2: int, region2: i128, age2: i128, coverage2: i128, safety2: i128,
)
    requires
        0 <= base1 <= base2,
        0 <= region1 <= region2,
        0 <= age1 <= age2,
        0 <= coverage1 <= coverage2,
        0 <= safety1 <= safety2,
        scaled_stages(base2, region2, age2, coverage2, safety2) is Ok,
    ensures
        scaled_stages(base1, region1, age1, coverage1, safety1) is Ok,
        scaled_stages(base1, region1, age1, coverage1, safety1)->Ok_0.total
            <= scaled_stages(base2, region2, age2, coverage2, safety2)->Ok_0.total,
{
    let s2 = scaled_stages(base2, region2, age2, coverage2, safety2)->Ok_0;
    lemma_ratio_monotone(base1, region1 as int, base2, region2 as int, SCALE as int, Rounding::Ceil);
    let r1 = mul_ratio(base1, region1 as int, SCALE as int, Rounding::Ceil)->Ok_0;
    lemma_ratio_monotone(r1 as int, age1 as int, s2.after_region as int, age2 as int, SCALE as int, Rounding::Ceil);
    let g1 = mul_ratio(r1 as int, age1 as int, SCALE as int, Rounding::Ceil)->Ok_0;
    lemma_ratio_monotone(g1 as int, coverage1 as int, s2.after_age as int, coverage2 as int, SCALE as int, Rounding::Ceil);
    let c1 = mul_ratio(g1 as int, coverage1 as int, SCALE as int, Rounding::Ceil)->Ok_0;
    lemma_ratio_monotone(c1 as int, safety1 as int, s2.after_coverage as int, safety2 as int, SCALE as int, Rounding::Floor);
    let f1 = mul_ratio(c1 as int, safety1 as int, SCALE as int, Rounding::Floor)->Ok_0;
    lemma_final_rounding_keeps(f1 as int);
    lemma_final_rounding_keeps(s2.after_safety as int);
}

/// Rounding a non-negative premium up to a whole unit leaves it unchanged.
pub proof fn lemma_final_rounding_keeps(v: int)
    requires
        0 <= v,
        fits_i128(v),
    ensures
        multiple_rounding(v, 1, Rounding::Ceil) == Ok::<i128, Error>(v as i128),
{
    lemma_rounded_quotient_bounds(v, 1);
    lemma_div_basics(v);
    lemma_small_mod(0, 1);
    lemma_mod_multiples_basic(v, 1);
}

/// Whatever the table, a computed premium is never negative, equals the
/// premium after the safety stage, and is reported with every stage.
pub proof fn lemma_quote_total_is_after_safety(
    base: int, region_m: i128, age_m: i128, coverage_m: i128, safety_m: i128,
)
    requires
        scaled_stages(base, region_m, age_m, coverage_m, safety_m) is Ok,
    ensures
        ({
            let q = scaled_stages(base, region_m, age_m, coverage_m, safety_m)->Ok_0;
            &&& q.total == q.after_safety
            &&& 0 <= q.total
            &&& q.region_factor == region_m
            &&& q.age_factor == age_m
            &&& q.coverage_factor == coverage_m
            &&& q.safety_factor == safety_m
        }),
{
    let q = scaled_stages(base, region_m, age_m, coverage_m, safety_m)->Ok_0;
    assert(q.after_safety >= 0) by {
        let p = q.after_coverage as int * safety_m as int;
        assert(p >= 0) by (nonlinear_arith)
            requires q.after_coverage >= 0, safety_m >= 0, p == q.after_coverage as int * safety_m as int;
        lemma_rounded_quotient_bounds(p, SCALE as int);
    }
    lemma_final_rounding_keeps(q.after_safety as int);
}

/// Of two priced risks, the one with no larger base, no larger region, age
/// and coverage multipliers and no lower safety score costs no more.
pub proof fn lemma_lower_risk_costs_no_more(
    input1: RiskInput,
    base1: int,
    input2: RiskInput,
    base2: int,
    region: Map<u32, i128>,
    age: Map<u32, i128>,
    coverage: Map<u32, i128>,
    safety_discount: i128,
)
    requires
        base1 <= base2,
        premium_quote(input1, base1, region, age, coverage, safety_discount) is Ok,
        premium_quote(input2, base2, region, age, coverage, safety_discount) is Ok,
        region[input1.region.code()] <= region[input2.region.code()],
        age[input1.age_band.code()] <= age[input2.age_band.code()],
        coverage[input1.coverage.code()] <= coverage[input2.coverage.code()],
        input1.safety_score >= input2.safety_score,
    ensures
        premium_quote(input1, base1, region, age, coverage, safety_discount)->Ok_0.total
            <= premium_quote(input2, base2, region, age, coverage, safety_discount)->Ok_0.total,
{
    let d = safety_discount as int;
    let s1 = input1.safety_score as int;
    let s2 = input2.safety_score as int;
    lemma_ratio_monotone(s2, d, s1, d, 100, Rounding::Floor);
    let f1 = safety_factor(s1, d)->Ok_0;
    let f2 = safety_factor(s2, d)->Ok_0;
    assert(f1 <= f2);
    let r1 = region[input1.region.code()];
    let a1 = age[input1.age_band.code()];
    let c1 = coverage[input1.coverage.code()];
    let st1 = scaled_stages(base1, r1, a1, c1, f1);
    assert(st1 is Ok);
    // every factor of a priced risk is non-negative, or its ratio would fail
    assert(r1 >= 0);
    let ar = mul_ratio(base1, r1 as int, SCALE as int, Rounding::Ceil)->Ok_0;
    assert(a1 >= 0);
    let aa = mul_ratio(ar as int, a1 as int, SCALE as int, Rounding::Ceil)->Ok_0;
    assert(c1 >= 0);
    let ac = mul_ratio(aa as int, c1 as int, SCALE as int, Rounding::Ceil)->Ok_0;
    assert(f1 >= 0);
    lemma_stages_monotone(
        base1, r1, a1, c1, f1,
        base2, region[input2.region.code()], age[input2.age_band.code()], coverage[input2.coverage.code()], f2,
    );
}

/// What a multiplier set under a key is what a lookup of that key gives;
/// lookups of other keys are unchanged.
pub proof fn lemma_lookup_after_set(entries: Map<u32, i128>, key: u32, value: i128, other: u32, missing: Error)
    ensures
        table_lookup(entries.insert(key, value), key, missing) == Ok::<i128, Error>(value),
        other != key ==> table_lookup(entries.insert(key, value), other, missing) == table_lookup(entries, other, missing),
{
}

/// Distinct tiers, bands and levels are stored under distinct keys, so that
/// setting the multiplier of one never changes the lookup of another: each
/// is priced with the multiplier set for it.
pub proof fn lemma_tier_keys_distinct(
    r1: RegionTier, r2: RegionTier,
    a1: AgeBand, a2: AgeBand,
    c1: CoverageTier, c2: CoverageTier,
    entries: Map<u32, i128>,
    value: i128,
    missing: Error,
)
    ensures
        r1 != r2 ==> r1.code() != r2.code(),
        a1 != a2 ==> a1.code() != a2.code(),
        c1 != c2 ==> c1.code() != c2.code(),
        a1 != a2 ==> table_lookup(entries.insert(a2.code(), value), a1.code(), missing)
            == table_lookup(entries, a1.code(), missing),
        r1 != r2 ==> table_lookup(entries.insert(r2.code(), value), r1.code(), missing)
            == table_lookup(entries, r1.code(), missing),
        c1 != c2 ==> table_lookup(entries.insert(c2.code(), value), c1.code(), missing)
            == table_lookup(entries, c1.code(), missing),
{
}

/// A checked value is the exact integer when it fits in `i128`, and
/// `Overflow` exactly when it does not.
pub proof fn lemma_checked_value_exact(x: int)
    ensures
        i128::MIN <= x <= i128::MAX ==> checked_value(x) is Ok && checked_value(x)->Ok_0 as int == x,
        !(i128::MIN <= x <= i128::MAX) ==> checked_value(x) == Err::<i128, Error>(Error::Overflow),
{
}

/// Truncating division: the quotient times the divisor leaves a remainder
/// smaller than the divisor in size and of the dividend's sign.
pub proof fn lemma_trunc_div_remainder(a: int, b: int)
    requires
        b != 0,
    ensures
        a >= 0 ==> 0 <= a - trunc_div(a, b) * b && a - trunc_div(a, b) * b < (if b > 0 { b } else { -b }),
        a < 0 ==> 0 <= trunc_div(a, b) * b - a && trunc_div(a, b) * b - a < (if b > 0 { b } else { -b }),
{
    let q = trunc_div(a, b);
    if a == 0 {
    } else if a > 0 && b > 0 {
        lemma_rounded_quotient_bounds(a, b);
        assert(q * b == (a / b) * b);
    } else if a < 0 && b < 0 {
        lemma_rounded_quotient_bounds(-a, -b);
        assert(q * b == ((-a) / (-b)) * (-b) * (-1)) by (nonlinear_arith)
            requires q == (-a) / (-b);
    } else if a < 0 {
        lemma_rounded_quotient_bounds(-a, b);
        assert(q * b == -(((-a) / b) * b)) by (nonlinear_arith)
            requires q == -((-a) / b);
    } else {
        lemma_rounded_quotient_bounds(a, -b);
        assert(q * b == (a / (-b)) * (-b)) by (nonlinear_arith)
            requires q == -(a / (-b));
    }
}

/// A ratio rounded down is the largest integer whose multiple of the
/// denominator stays within the product; rounded up, the smallest whose
/// multiple reaches it.
pub proof fn lemma_ratio_exact_bounds(amount: int, numerator: int, denominator: int)
    requires
        amount >= 0,
        numerator >= 0,
        denominator > 0,
        fits_i128(amount * numerator),
    ensures
        mul_ratio(amount, numerator, denominator, Rounding::Floor) is Ok,
        mul_ratio(amount, numerator, denominator, Rounding::Ceil) is Ok,
        ({
            let lo = mul_ratio(amount, numerator, denominator, Rounding::Floor)->Ok_0 as int;
            let hi = mul_ratio(amount, numerator, denominator, Rounding::Ceil)->Ok_0 as int;
            &&& lo * denominator <= amount * numerator < lo * denominator + denominator
            &&& hi * denominator - denominator < amount * numerator <= hi * denominator
        }),
{
    let p = amount * numerator;
    assert(p >= 0) by (nonlinear_arith)
        requires amount >= 0, numerator >= 0, p == amount * numerator;
    lemma_rounded_quotient_bounds(p, denominator);
    let q = p / denominator;
    assert((q + 1) * denominator == q * denominator + denominator) by (nonlinear_arith);
}

/// The errors of a ratio: negative operands first, then an overflowing
/// product, then a zero denominator.
pub proof fn lemma_ratio_errors(amount: int, numerator: int, denominator: int, rounding: Rounding)
    ensures
        amount < 0 || numerator < 0 || denominator < 0 ==> mul_ratio(amount, numerator, denominator, rounding)
            == Err::<i128, Error>(Error::NegativePremiumNotSupported),
        amount >= 0 && numerator >= 0 && denominator >= 0 && amount * numerator > i128::MAX
            ==> mul_ratio(amount, numerator, denominator, rounding) == Err::<i128, Error>(Error::Overflow),
        amount >= 0 && numerator >= 0 && denominator == 0 && amount * numerator <= i128::MAX
            ==> mul_ratio(amount, numerator, denominator, rounding) == Err::<i128, Error>(Error::DivideByZero),
{
    if amount >= 0 && numerator >= 0 {
        assert(amount * numerator >= 0) by (nonlinear_arith)
            requires amount >= 0, numerator >= 0;
    }
}

/// The safety factor in plain arithmetic: for a non-negative cap `d` whose
/// product with the score fits, it is `SCALE - floor(score * d / 100)`; so
/// any earned discount lowers it below `SCALE`. A negative cap is refused,
/// and so is a product that overflows.
pub proof fn lemma_safety_factor_formula(score: int, d: int)
    requires
        score >= 0,
    ensures
        d >= 0 && score * d <= i128::MAX ==> safety_factor(score, d) is Ok
            && safety_factor(score, d)->Ok_0 as int == 10_000 - (score * d) / 100,
        d >= 0 && score * d <= i128::MAX && score * d >= 100 ==> safety_factor(score, d)->Ok_0 < 10_000,
        d < 0 ==> safety_factor(score, d) == Err::<i128, Error>(Error::NegativePremiumNotSupported),
        d >= 0 && score * d > i128::MAX ==> safety_factor(score, d) == Err::<i128, Error>(Error::Overflow),
{
    if d >= 0 {
        let p = score * d;
        assert(p >= 0) by (nonlinear_arith)
            requires score >= 0, d >= 0, p == score * d;
        if p <= i128::MAX {
            lemma_rounded_quotient_bounds(p, 100);
            if p >= 100 {
                lemma_div_is_ordered(100, p, 100);
                lemma_div_basics(100);
            }
        }
    }
}

/// The premium in plain terms: a non-positive base is refused first; then a
/// missing region, age or coverage multiplier, in that order; a priced risk
/// uses exactly the table's multipliers for its region, age band and
/// coverage level and the safety factor `SCALE - floor(score * cap / 100)`;
/// its first three stages are the products rounded up, the safety stage is
/// rounded down, and the total is the premium after the safety stage.
pub proof fn lemma_quote_in_plain_terms(
    input: RiskInput,
    base: int,
    region: Map<u32, i128>,
    age: Map<u32, i128>,
    coverage: Map<u32, i128>,
    safety_discount: i128,
)
    ensures
        base <= 0 ==> premium_quote(input, base, region, age, coverage, safety_discount)
            == Err::<PremiumStages, Error>(Error::InvalidBaseAmount),
        base > 0 && !region.dom().contains(input.region.code()) ==> premium_quote(
            input, base, region, age, coverage, safety_discount,
        ) == Err::<PremiumStages, Error>(Error::MissingRegionMultiplier),
        base > 0 && region.dom().contains(input.region.code()) && !age.dom().contains(input.age_band.code())
            ==> premium_quote(input, base, region, age, coverage, safety_discount)
            == Err::<PremiumStages, Error>(Error::MissingAgeMultiplier),
        base > 0 && region.dom().contains(input.region.code()) && age.dom().contains(input.age_band.code())
            && !coverage.dom().contains(input.coverage.code()) ==> premium_quote(
            input, base, region, age, coverage, safety_discount,
        ) == Err::<PremiumStages, Error>(Error::MissingCoverageMultiplier),
        premium_quote(input, base, region, age, coverage, safety_discount) is Ok ==> ({
            let q = premium_quote(input, base, region, age, coverage, safety_discount)->Ok_0;
            let s = SCALE as int;
            &&& base > 0
            &&& region.dom().contains(input.region.code()) && q.region_factor == region[input.region.code()]
            &&& age.dom().contains(input.age_band.code()) && q.age_factor == age[input.age_band.code()]
            &&& coverage.dom().contains(input.coverage.code()) && q.coverage_factor == coverage[input.coverage.code()]
            &&& q.safety_factor as int == s - (input.safety_score * safety_discount) / 100
            &&& q.after_region * s - s < base * q.region_factor <= q.after_region * s
            &&& q.after_age * s - s < q.after_region * q.age_factor <= q.after_age * s
            &&& q.after_coverage * s - s < q.after_age * q.coverage_factor <= q.after_coverage * s
            &&& q.after_safety * s <= q.after_coverage * q.safety_factor < q.after_safety * s + s
            &&& q.total == q.after_safety
        }),
{
    let s = SCALE as int;
    if premium_quote(input, base, region, age, coverage, safety_discount) is Ok {
        let q = premium_quote(input, base, region, age, coverage, safety_discount)->Ok_0;
        let rm = region[input.region.code()];
        let am = age[input.age_band.code()];
        let cm = coverage[input.coverage.code()];
        let sm = safety_factor(input.safety_score as int, safety_discount as int)->Ok_0;
        lemma_safety_factor_formula(input.safety_score as int, safety_discount as int);
        lemma_ratio_exact_bounds(base, rm as int, s);
        let ar = mul_ratio(base, rm as int, s, Rounding::Ceil)->Ok_0;
        lemma_ratio_exact_bounds(ar as int, am as int, s);
        let aa = mul_ratio(ar as int, am as int, s, Rounding::Ceil)->Ok_0;
        lemma_ratio_exact_bounds(aa as int, cm as int, s);
        let ac = mul_ratio(aa as int, cm as int, s, Rounding::Ceil)->Ok_0;
        lemma_ratio_exact_bounds(ac as int, sm as int, s);
        lemma_quote_total_is_after_safety(base, rm, am, cm, sm);
    }
}

/// The errors of rounding to a multiple: a zero multiple first, then a
/// negative operand, then a rounded-up value beyond the `i128` range.
pub proof fn lemma_round_to_multiple_errors(value: int, multiple: int, mode: Rounding)
    ensures
        multiple == 0 ==> multiple_rounding(value, multiple, mode) == Err::<i128, Error>(Error::DivideByZero),
        multiple != 0 && (value < 0 || multiple < 0) ==> multiple_rounding(value, multiple, mode)
            == Err::<i128, Error>(Error::NegativePremiumNotSupported),
        multiple > 0 && 0 <= value <= i128::MAX && mode == Rounding::Floor
            ==> multiple_rounding(value, multiple, mode) is Ok,
        multiple > 0 && 0 <= value <= i128::MAX - multiple + 1 ==> multiple_rounding(value, multiple, mode) is Ok,
{
    if multiple > 0 && 0 <= value {
        lemma_rounded_quotient_bounds(value, multiple);
        let q = value / multiple;
        assert((q + 1) * multiple == q * multiple + multiple) by (nonlinear_arith);
    }
}

/// One risk stage rounded up with a multiplier of at most `MAX_MULTIPLIER`
/// grows an amount at most five-fold, plus one.
proof fn lemma_stage_growth(x: int, m: int)
    requires
        0 <= x <= 100_000_000_000_000_000_000_000_000_000_000,
        0 <= m <= MAX_MULTIPLIER,
    ensures
        mul_ratio(x, m, SCALE as int, Rounding::Ceil) is Ok,
        mul_ratio(x, m, SCALE as int, Rounding::Ceil)->Ok_0 <= 5 * x + 1,
{
    assert(0 <= x * m <= x * 50_000) by (nonlinear_arith)
        requires 0 <= x, 0 <= m <= 50_000;
    lemma_ratio_exact_bounds(x, m, SCALE as int);
    let hi = mul_ratio(x, m, SCALE as int, Rounding::Ceil)->Ok_0 as int;
    assert(hi <= 5 * x + 1) by (nonlinear_arith)
        requires hi * 10_000 - 10_000 < x * m, x * m <= x * 50_000;
}

/// Within the multiplier limits, every risk is priced: with a base of at most
/// `10^30`, multipliers between zero and `MAX_MULTIPLIER`, a non-negative
/// discount cap and a safety score earning at most the whole scale, no stage
/// overflows and the premium is computed.
pub proof fn lemma_quote_succeeds_within_limits(
    input: RiskInput,
    base: int,
    region: Map<u32, i128>,
    age: Map<u32, i128>,
    coverage: Map<u32, i128>,
    safety_discount: i128,
)
    requires
        0 < base <= 1_000_000_000_000_000_000_000_000_000_000,
        region.dom().contains(input.region.code()),
        age.dom().contains(input.age_band.code()),
        coverage.dom().contains(input.coverage.code()),
        0 <= region[input.region.code()] <= MAX_MULTIPLIER,
        0 <= age[input.age_band.code()] <= MAX_MULTIPLIER,
        0 <= coverage[input.coverage.code()] <= MAX_MULTIPLIER,
        0 <= safety_discount,
        input.safety_score * safety_discount <= 1_000_000,
    ensures
        premium_quote(input, base, region, age, coverage, safety_discount) is Ok,
{
    let s = SCALE as int;
    let rm = region[input.region.code()];
    let am = age[input.age_band.code()];
    let cm = coverage[input.coverage.code()];
    lemma_safety_factor_formula(input.safety_score as int, safety_discount as int);
    let sm = safety_factor(input.safety_score as int, safety_discount as int)->Ok_0;
    assert(0 <= sm <= 10_000) by {
        let p = input.safety_score * safety_discount;
        assert(p >= 0) by (nonlinear_arith)
            requires input.safety_score >= 0, safety_discount >= 0, p == input.safety_score * safety_discount;
        lemma_rounded_quotient_bounds(p, 100);
        lemma_div_is_ordered(p, 1_000_000, 100);
    }
    lemma_stage_growth(base, rm as int);
    let ar = mul_ratio(base, rm as int, s, Rounding::Ceil)->Ok_0;
    lemma_stage_growth(ar as int, am as int);
    let aa = mul_ratio(ar as int, am as int, s, Rounding::Ceil)->Ok_0;
    lemma_stage_growth(aa as int, cm as int);
    let ac = mul_ratio(aa as int, cm as int, s, Rounding::Ceil)->Ok_0;
    assert(0 <= ac * sm <= ac * 10_000) by (nonlinear_arith)
        requires 0 <= ac, 0 <= sm <= 10_000;
    lemma_ratio_exact_bounds(ac as int, sm as int, s);
    let af = mul_ratio(ac as int, sm as int, s, Rounding::Floor)->Ok_0;
    lemma_final_rounding_keeps(af as int);
}

// ── Arithmetic primitives ────────────────────────────────────────────────────

pub fn checked_mul(a: i128, b: i128) -> (r: Result<i128, Error>)
    ensures
        r == checked_value(a * b),
{
    match a.checked_mul(b) {
        Some(v) => Ok(v),
        None => Err(Error::Overflow),
    }
}

pub fn checked_add(a: i128, b: i128) -> (r: Result<i128, Error>)
    ensures
        r == checked_value(a + b),
{
    match a.checked_add(b) {
        Some(v) => Ok(v),
        None => Err(Error::Overflow),
    }
}

pub fn checked_sub(a: i128, b: i128) -> (r: Result<i128, Error>)
    ensures
        r == checked_value(a - b),
{
    match a.checked_sub(b) {
        Some(v) => Ok(v),
        None => Err(Error::Overflow),
    }
}

/// Division rounding toward zero; `DivideByZero` when `b == 0`.
pub fn checked_div(a: i128, b: i128) -> (r: Result<i128, Error>)
    requires
        !(a == i128::MIN && b == -1),
    ensures
        b == 0 ==> r == Err::<i128, Error>(Error::DivideByZero),
        b != 0 ==> r == Ok::<i128, Error>(trunc_div(a as int, b as int) as i128),
{
    if b == 0 {
        return Err(Error::DivideByZero);
    }
    proof {
        lemma_trunc_div_fits(a, b);
    }
    match a.checked_div(b) {
        Some(q) => Ok(q),
        None => Err(Error::Overflow),
    }
}

/// Rounds a non-negative `value` down or up to a multiple of `multiple`.
pub fn round_to_multiple(value: i128, multiple: i128, mode: Rounding) -> (r: Result<i128, Error>)
    ensures
        r == multiple_rounding(value as int, multiple as int, mode),
{
    if multiple == 0 {
        return Err(Error::DivideByZero);
    }
    if value < 0 || multiple < 0 {
        return Err(Error::NegativePremiumNotSupported);
    }
    proof {
        lemma_rounded_quotient_bounds(value as int, multiple as int);
    }
    let quotient = checked_div(value, multiple)?;
    let rounded_down = checked_mul(quotient, multiple)?;
    let remainder = value % multiple;
    match mode {
        Rounding::Floor => Ok(rounded_down),
        Rounding::Ceil => {
            if remainder == 0 {
                Ok(rounded_down)
            } else {
                proof {
                    let q = value as int / multiple as int;
                    assert((q + 1) * multiple == q * multiple + multiple) by (nonlinear_arith);
                }
                checked_add(rounded_down, multiple)
            }
        }
    }
}

/// `amount * numerator / denominator` for non-negative operands, rounded as
/// `rounding` says.
pub fn checked_mul_ratio(
    amount: i128,
    numerator: i128,
    denominator: i128,
    rounding: Rounding,
) -> (r: Result<i128, Error>)
    ensures
        r == mul_ratio(amount as int, numerator as int, denominator as int, rounding),
{
    if amount < 0 || numerator < 0 || denominator < 0 {
        return Err(Error::NegativePremiumNotSupported);
    }
    assert(amount * numerator >= 0) by (nonlinear_arith)
        requires amount >= 0, numerator >= 0;
    let product = checked_mul(amount, numerator)?;
    let quotient = checked_div(product, denominator)?;
    proof {
        lemma_rounded_quotient_bounds(product as int, denominator as int);
    }
    let remainder = product % denominator;
    match rounding {
        Rounding::Floor => Ok(quotient),
        Rounding::Ceil => {
            if remainder == 0 {
                Ok(quotient)
            } else {
                checked_add(quotient, 1)
            }
        }
    }
}

// ── Core computation ─────────────────────────────────────────────────────────

/// Computes the full premium for `input` against `table`.
///
/// Stages (each rounds explicitly, so that the result can be reproduced
/// bit for bit off-chain):
/// 1. base × region risk, rounded up,
/// 2. × age-band risk, rounded up,
/// 3. × coverage level, rounded up,
/// 4. × safety discount, rounded down,
/// 5. rounded up to a whole token unit.
pub fn compute_premium(
    input: &RiskInput,
    base_amount: i128,
    table: &MultiplierTable,
) -> (r: Result<PremiumComputation, Error>)
    requires
        premium_readable(*input, base_amount as int, *table),
    ensures
        match table_quote(*input, base_amount as int, *table) {
            Ok(q) => r is Ok && reports(r->Ok_0, q, table.version),
            Err(e) => r == Err::<PremiumComputation, Error>(e),
        },
{
    if base_amount <= 0 {
        return Err(Error::InvalidBaseAmount);
    }

    let region_m = region_multiplier(table, &input.region)?;
    let age_m = age_multiplier(table, &input.age_band)?;
    let coverage_m = coverage_multiplier(table, &input.coverage)?;
    let safety_m = safety_multiplier(input.safety_score, table.safety_discount)?;

    let after_region = checked_mul_ratio(base_amount, region_m, SCALE, Rounding::Ceil)?;
    let after_age = checked_mul_ratio(after_region, age_m, SCALE, Rounding::Ceil)?;
    let after_coverage = checked_mul_ratio(after_age, coverage_m, SCALE, Rounding::Ceil)?;
    let after_safety = checked_mul_ratio(after_coverage, safety_m, SCALE, Rounding::Floor)?;
    let final_premium = round_to_multiple(after_safety, 1, Rounding::Ceil)?;

    let result = PremiumComputation {
        total_premium: final_premium,
        config_version: table.version,
        steps: [
            PremiumStep { component: "region", factor: region_m, premium: after_region },
            PremiumStep { component: "age_band", factor: age_m, premium: after_age },
            PremiumStep { component: "coverage", factor: coverage_m, premium: after_coverage },
            PremiumStep { component: "safety_multiplier", factor: safety_m, premium: after_safety },
            PremiumStep { component: "final_rounding", factor: 1, premium: final_premium },
        ],
    };
    proof {
        reveal_strlit("region");
        reveal_strlit("age_band");
        reveal_strlit("coverage");
        reveal_strlit("safety_multiplier");
        reveal_strlit("final_rounding");
    }
    Ok(result)
}

/// Computes the premium as [`compute_premium`] does, for any table: `None`
/// when a map value that the computation reads is not an `i128` (where
/// `compute_premium` would panic), else the premium or its error.
pub fn try_compute_premium(
    input: &RiskInput,
    base_amount: i128,
    table: &MultiplierTable,
) -> (r: Option<Result<PremiumComputation, Error>>)
    ensures
        r is None <==> !premium_readable(*input, base_amount as int, *table),
        r is Some ==> match table_quote(*input, base_amount as int, *table) {
            Ok(q) => r->0 is Ok && reports(r->0->Ok_0, q, table.version),
            Err(e) => r->0 == Err::<PremiumComputation, Error>(e),
        },
{
    if base_amount > 0 {
        match map_try_get(&table.region, input.region.key()) {
            None => return None,
            Some(None) => {},
            Some(Some(_)) => {
                match map_try_get(&table.age, input.age_band.key()) {
                    None => return None,
                    Some(None) => {},
                    Some(Some(_)) => {
                        if map_try_get(&table.coverage, input.coverage.key()).is_none() {
                            return None;
                        }
                    },
                }
            },
        }
    }
    Some(compute_premium(input, base_amount, table))
}

// ── Multiplier helpers ───────────────────────────────────────────────────────

/// The region multiplier of `tier`; `MissingRegionMultiplier` when the table
/// has none.
pub fn region_multiplier(table: &MultiplierTable, tier: &RegionTier) -> (r: Result<i128, Error>)
    requires
        holds_i128_at(table.region, tier.code()),
    ensures
        r == table_lookup(multiplier_entries(table.region), tier.code(), Error::MissingRegionMultiplier),
{
    match map_get(&table.region, tier.key()) {
        Some(m) => Ok(m),
        None => Err(Error::MissingRegionMultiplier),
    }
}

/// The age multiplier of `band`; `MissingAgeMultiplier` when the table has none.
pub fn age_multiplier(table: &MultiplierTable, band: &AgeBand) -> (r: Result<i128, Error>)
    requires
        holds_i128_at(table.age, band.code()),
    ensures
        r == table_lookup(multiplier_entries(table.age), band.code(), Error::MissingAgeMultiplier),
{
    match map_get(&table.age, band.key()) {
        Some(m) => Ok(m),
        None => Err(Error::MissingAgeMultiplier),
    }
}

/// The coverage multiplier of `level`; `MissingCoverageMultiplier` when the
/// table has none.
pub fn coverage_multiplier(table: &MultiplierTable, level: &CoverageTier) -> (r: Result<i128, Error>)
    requires
        holds_i128_at(table.coverage, level.code()),
    ensures
        r == table_lookup(multiplier_entries(table.coverage), level.code(), Error::MissingCoverageMultiplier),
{
    match map_get(&table.coverage, level.key()) {
        Some(m) => Ok(m),
        None => Err(Error::MissingCoverageMultiplier),
    }
}

/// Safety multiplier: `SCALE - floor(score * max_discount / 100)`.
pub fn safety_multiplier(safety_score: u32, max_discount: i128) -> (r: Result<i128, Error>)
    ensures
        r == safety_factor(safety_score as int, max_discount as int),
        max_discount >= 0 && safety_score * max_discount <= i128::MAX ==> r is Ok
            && r->Ok_0 as int == 10_000 - (safety_score * max_discount) / 100,
{
    proof {
        lemma_safety_factor_formula(safety_score as int, max_discount as int);
    }
    let score = safety_score as i128;
    let earned = checked_mul_ratio(score, max_discount, PERCENT_SCALE, Rounding::Floor)?;
    checked_sub(SCALE, earned)
}

} // verus!
