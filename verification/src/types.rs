//! Risk inputs and the multiplier table that prices them.
//!
//! The table keeps its three multiplier maps in `soroban_sdk::Map`, keyed by
//! the `u32` code of each tier. What a map holds is named by
//! [`multiplier_entries`]; the wrappers below state what `new`, `set` and
//! `get` do to it.

use vstd::prelude::*;

verus! {

/// `soroban_sdk::Env`, carried through opaquely.
#[verifier::external_type_specification]
#[verifier::external_body]
pub struct ExEnv(soroban_sdk::Env);

/// `soroban_sdk::Map`, whose contents are known only through
/// [`multiplier_entries`].
#[verifier::external_type_specification]
#[verifier::external_body]
#[verifier::reject_recursive_types(K)]
#[verifier::reject_recursive_types(V)]
pub struct ExMap<K, V>(soroban_sdk::Map<K, V>);

/// A map from tier codes to multipliers.
pub type MultiplierMap = soroban_sdk::Map<u32, i128>;

/// The key-value pairs that a multiplier map holds.
pub uninterp spec fn multiplier_entries(m: soroban_sdk::Map<u32, i128>) -> Map<u32, i128>;

/// Whether the value that the map holds under `key`, if any, converts to an
/// `i128`. A value stored with the typed `set` always does; a map decoded
/// from an untyped host value may hold one that does not, and `get` of that
/// key panics.
pub uninterp spec fn holds_i128_at(m: soroban_sdk::Map<u32, i128>, key: u32) -> bool;

/// Every key of the map can be read without panicking.
pub open spec fn readable(m: soroban_sdk::Map<u32, i128>) -> bool {
    forall|k: u32| #[trigger] holds_i128_at(m, k)
}

/// What a read of `key` gives when it does not panic.
pub open spec fn entry_at(m: soroban_sdk::Map<u32, i128>, key: u32) -> Option<i128> {
    if multiplier_entries(m).dom().contains(key) {
        Some(multiplier_entries(m)[key])
    } else {
        None
    }
}

/// `soroban_sdk::Map::new`: an empty map, whose values are trivially `i128`.
#[verifier::external_body]
fn map_new(env: &soroban_sdk::Env) -> (created: MultiplierMap)
    ensures
        multiplier_entries(created).dom() == Set::<u32>::empty(),
        forall|k: u32| #[trigger] holds_i128_at(created, k),
{
    soroban_sdk::Map::new(env)
}

/// `soroban_sdk::Map::set`: stores `value` under `key`, replacing any value
/// held there; the other pairs stay as they were.
#[verifier::external_body]
fn map_set(m: &mut soroban_sdk::Map<u32, i128>, key: u32, value: i128)
    ensures
        multiplier_entries(*final(m)) == multiplier_entries(*old(m)).insert(key, value),
        holds_i128_at(*final(m), key),
        forall|k: u32| k != key ==> #[trigger] holds_i128_at(*final(m), k) == holds_i128_at(*old(m), k),
{
    m.set(key, value)
}

/// `soroban_sdk::Map::get`: the value held under `key`, or `None` when the
/// map holds no value there.
#[verifier::external_body]
pub(crate) fn map_get(m: &soroban_sdk::Map<u32, i128>, key: u32) -> (r: Option<i128>)
    requires
        holds_i128_at(*m, key),
    ensures
        r == entry_at(*m, key),
{
    m.get(key)
}

/// `soroban_sdk::Map::try_get`: `None` when the value held under `key` does
/// not convert to an `i128` (the conversion error), else what `get` gives.
#[verifier::external_body]
pub(crate) fn map_try_get(m: &soroban_sdk::Map<u32, i128>, key: u32) -> (r: Option<Option<i128>>)
    ensures
        r is Some <==> holds_i128_at(*m, key),
        r is Some ==> r->0 == entry_at(*m, key),
{
    match m.try_get(key) {
        Ok(v) => Some(v),
        Err(_) => None,
    }
}

/// Regional risk tier.
#[derive(Copy, Clone, Debug, PartialEq, Eq, Structural)]
pub enum RegionTier {
    Low,
    Medium,
    High,
}

/// Age band of the insured.
#[derive(Copy, Clone, Debug, PartialEq, Eq, Structural)]
pub enum AgeBand {
    Young,
    Adult,
    Senior,
}

/// Level of coverage bought.
#[derive(Copy, Clone, Debug, PartialEq, Eq, Structural)]
pub enum CoverageTier {
    Basic,
    Standard,
    Premium,
}

impl RegionTier {
    pub open spec fn code(self) -> u32 {
        match self {
            RegionTier::Low => 0,
            RegionTier::Medium => 1,
            RegionTier::High => 2,
        }
    }

    /// The key under which the table stores this tier's multiplier.
    pub fn key(&self) -> (k: u32)
        ensures
            k == self.code(),
    {
        match self {
            RegionTier::Low => 0,
            RegionTier::Medium => 1,
            RegionTier::High => 2,
        }
    }
}

impl AgeBand {
    pub open spec fn code(self) -> u32 {
        match self {
            AgeBand::Young => 0,
            AgeBand::Adult => 1,
            AgeBand::Senior => 2,
        }
    }

    /// The key under which the table stores this band's multiplier.
    pub fn key(&self) -> (k: u32)
        ensures
            k == self.code(),
    {
        match self {
            AgeBand::Young => 0,
            AgeBand::Adult => 1,
            AgeBand::Senior => 2,
        }
    }
}

impl CoverageTier {
    pub open spec fn code(self) -> u32 {
        match self {
            CoverageTier::Basic => 0,
            CoverageTier::Standard => 1,
            CoverageTier::Premium => 2,
        }
    }

    /// The key under which the table stores this level's multiplier.
    pub fn key(&self) -> (k: u32)
        ensures
            k == self.code(),
    {
        match self {
            CoverageTier::Basic => 0,
            CoverageTier::Standard => 1,
            CoverageTier::Premium => 2,
        }
    }
}

/// What is known of the insured risk.
#[derive(Copy, Clone, Debug, PartialEq, Eq, Structural)]
pub struct RiskInput {
    pub region: RegionTier,
    pub age_band: AgeBand,
    pub coverage: CoverageTier,
    pub safety_score: u32,
}

/// Multipliers (scaled by `SCALE`) per region, age band and coverage level,
/// the maximum safety discount, and the version of this configuration.
pub struct MultiplierTable {
    pub region: soroban_sdk::Map<u32, i128>,
    pub age: soroban_sdk::Map<u32, i128>,
    pub coverage: soroban_sdk::Map<u32, i128>,
    pub safety_discount: i128,
    pub version: u32,
}

impl MultiplierTable {
    /// Every key of all three maps can be read without panicking.
    pub open spec fn well_typed(&self) -> bool {
        &&& readable(self.region)
        &&& readable(self.age)
        &&& readable(self.coverage)
    }

    /// A table with no multipliers yet.
    pub fn new(env: &soroban_sdk::Env, safety_discount: i128, version: u32) -> (t: Self)
        ensures
            t.well_typed(),
            multiplier_entries(t.region).dom() == Set::<u32>::empty(),
            multiplier_entries(t.age).dom() == Set::<u32>::empty(),
            multiplier_entries(t.coverage).dom() == Set::<u32>::empty(),
            t.safety_discount == safety_discount,
            t.version == version,
    {
        MultiplierTable {
            region: map_new(env),
            age: map_new(env),
            coverage: map_new(env),
            safety_discount,
            version,
        }
    }

    /// Sets the multiplier of a region tier.
    pub fn set_region(&mut self, tier: RegionTier, multiplier: i128)
        ensures
            multiplier_entries(final(self).region) == multiplier_entries(old(self).region).insert(tier.code(), multiplier),
            multiplier_entries(final(self).age) == multiplier_entries(old(self).age),
            multiplier_entries(final(self).coverage) == multiplier_entries(old(self).coverage),
            final(self).age == old(self).age,
            final(self).coverage == old(self).coverage,
            final(self).safety_discount == old(self).safety_discount,
            final(self).version == old(self).version,
            old(self).well_typed() ==> final(self).well_typed(),
    {
        let key = tier.key();
        map_set(&mut self.region, key, multiplier);
    }

    /// Sets the multiplier of an age band.
    pub fn set_age(&mut self, band: AgeBand, multiplier: i128)
        ensures
            multiplier_entries(final(self).age) == multiplier_entries(old(self).age).insert(band.code(), multiplier),
            multiplier_entries(final(self).region) == multiplier_entries(old(self).region),
            multiplier_entries(final(self).coverage) == multiplier_entries(old(self).coverage),
            final(self).region == old(self).region,
            final(self).coverage == old(self).coverage,
            final(self).safety_discount == old(self).safety_discount,
            final(self).version == old(self).version,
            old(self).well_typed() ==> final(self).well_typed(),
    {
        let key = band.key();
        map_set(&mut self.age, key, multiplier);
    }

    /// Sets the multiplier of a coverage level.
    pub fn set_coverage(&mut self, level: CoverageTier, multiplier: i128)
        ensures
            multiplier_entries(final(self).coverage) == multiplier_entries(old(self).coverage).insert(level.code(), multiplier),
            multiplier_entries(final(self).region) == multiplier_entries(old(self).region),
            multiplier_entries(final(self).age) == multiplier_entries(old(self).age),
            final(self).region == old(self).region,
            final(self).age == old(self).age,
            final(self).safety_discount == old(self).safety_discount,
            final(self).version == old(self).version,
            old(self).well_typed() ==> final(self).well_typed(),
    {
        let key = level.key();
        map_set(&mut self.coverage, key, multiplier);
    }
}

} // verus!
