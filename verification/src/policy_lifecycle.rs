//! Policy bind / terminate / lapse rules.
//!
//! Each operation of the contract reads a policy and the holder's counters
//! from storage, decides, then writes and publishes. The deciding part stands
//! here: it takes what was read and returns what is to be written and
//! published, or the error the contract answers with.

use vstd::prelude::*;
use crate::error::Error;
use crate::types::RegionTier;

verus! {

/// `soroban_sdk::Address`, known to Verus only as an opaque value.
#[verifier::external_type_specification]
#[verifier::external_body]
pub struct ExAddress(soroban_sdk::Address);

/// `<soroban_sdk::Address as Clone>::clone`, which the copies of records and
/// events call. It copies the handle and the environment it belongs to; no
/// clause is given, so nothing proved here rests on what the copy holds.
pub assume_specification[<soroban_sdk::Address as Clone>::clone](a: &soroban_sdk::Address) -> soroban_sdk::Address;

/// What `<soroban_sdk::Address as PartialEq>::eq` answers for two address
/// handles: whether the host finds them naming the same account or contract.
pub uninterp spec fn address_eq(a: soroban_sdk::Address, b: soroban_sdk::Address) -> bool;

/// `<soroban_sdk::Address as PartialEq>::eq`: the host compares the two
/// addresses by content (`obj_cmp`). A handle always names the same address
/// as itself.
#[verifier::external_body]
fn same_address(a: &soroban_sdk::Address, b: &soroban_sdk::Address) -> (r: bool)
    ensures
        r == address_eq(*a, *b),
        *a == *b ==> r,
{
    a == b
}

/// Errors of the policy lifecycle; `code` gives each its contract error number.
#[derive(Copy, Clone, Debug, PartialEq, Eq, Structural)]
pub enum PolicyError {
    PolicyNotFound,
    Unauthorized,
    AlreadyInactive,
    OpenClaimsMustFinalize,
    InvalidCoverage,
    InvalidPremium,
    InvalidTermLedgers,
    LedgerOverflow,
    InvalidTerminationReason,
    HolderMismatch,
    /// Permissionless `process_expired`: ledger is before `end_ledger + grace_period_ledgers`.
    PolicyLapseNotReached,
}

impl PolicyError {
    pub open spec fn error_number(self) -> u32 {
        match self {
            PolicyError::PolicyNotFound => 1,
            PolicyError::Unauthorized => 2,
            PolicyError::AlreadyInactive => 3,
            PolicyError::OpenClaimsMustFinalize => 4,
            PolicyError::InvalidCoverage => 5,
            PolicyError::InvalidPremium => 6,
            PolicyError::InvalidTermLedgers => 7,
            PolicyError::LedgerOverflow => 8,
            PolicyError::InvalidTerminationReason => 9,
            PolicyError::HolderMismatch => 10,
            PolicyError::PolicyLapseNotReached => 11,
        }
    }

    /// The number under which the contract reports this error.
    pub fn code(&self) -> (n: u32)
        ensures
            n == self.error_number(),
    {
        match self {
            PolicyError::PolicyNotFound => 1,
            PolicyError::Unauthorized => 2,
            PolicyError::AlreadyInactive => 3,
            PolicyError::OpenClaimsMustFinalize => 4,
            PolicyError::InvalidCoverage => 5,
            PolicyError::InvalidPremium => 6,
            PolicyError::InvalidTermLedgers => 7,
            PolicyError::LedgerOverflow => 8,
            PolicyError::InvalidTerminationReason => 9,
            PolicyError::HolderMismatch => 10,
            PolicyError::PolicyLapseNotReached => 11,
        }
    }
}

/// Why a policy stopped being active.
#[derive(Copy, Clone, Debug, PartialEq, Eq, Structural)]
pub enum TerminationReason {
    /// The policy has not been terminated (the contract's `None`).
    NotTerminated,
    VoluntaryCancellation,
    LapsedNonPayment,
    UnderwritingVoid,
    FraudOrMisrepresentation,
    RegulatoryAction,
    AdminOverride,
    ExcessiveRejections,
}

pub open spec fn reason_code(reason: TerminationReason) -> u32 {
    match reason {
        TerminationReason::NotTerminated => 0,
        TerminationReason::VoluntaryCancellation => 1,
        TerminationReason::LapsedNonPayment => 2,
        TerminationReason::UnderwritingVoid => 3,
        TerminationReason::FraudOrMisrepresentation => 4,
        TerminationReason::RegulatoryAction => 5,
        TerminationReason::AdminOverride => 6,
        TerminationReason::ExcessiveRejections => 7,
    }
}

/// The number that events carry for a termination reason.
pub fn termination_reason_tag(reason: TerminationReason) -> (tag: u32)
    ensures
        tag == reason_code(reason),
{
    match reason {
        TerminationReason::NotTerminated => 0,
        TerminationReason::VoluntaryCancellation => 1,
        TerminationReason::LapsedNonPayment => 2,
        TerminationReason::UnderwritingVoid => 3,
        TerminationReason::FraudOrMisrepresentation => 4,
        TerminationReason::RegulatoryAction => 5,
        TerminationReason::AdminOverride => 6,
        // 7 = ExcessiveRejections: set by the claims engine on rejection, not
        // by this termination flow; listed so that every reason has a tag.
        TerminationReason::ExcessiveRejections => 7,
    }
}

/// A stored policy: who holds it, what it covers, and its lifecycle state.
/// `policy_type` is the contract's product line code.
#[derive(Clone, Debug, PartialEq, Eq)]
pub struct PolicyRecord {
    pub holder: soroban_sdk::Address,
    pub policy_id: u32,
    pub policy_type: u32,
    pub region: RegionTier,
    pub premium: i128,
    pub coverage: i128,
    pub is_active: bool,
    pub start_ledger: u32,
    pub end_ledger: u32,
    pub asset: soroban_sdk::Address,
    pub deductible: Option<i128>,
    pub beneficiary: Option<soroban_sdk::Address>,
    pub terminated_at_ledger: u32,
    pub termination_reason: TerminationReason,
    pub terminated_by_admin: bool,
    pub strike_count: u32,
}

/// The event published when a holder or the admin terminates a policy.
#[derive(Clone, Debug, PartialEq, Eq)]
pub struct PolicyTerminated {
    pub holder: soroban_sdk::Address,
    pub policy_id: u32,
    pub reason_code: u32,
    pub terminated_by_admin: u32,
    pub open_claim_bypass: u32,
    pub open_claims: u32,
    pub at_ledger: u32,
}

/// What binding a new policy writes.
#[derive(Clone, Debug, PartialEq, Eq)]
pub struct BindingPlan {
    /// The policy as it is stored.
    pub policy: PolicyRecord,
    /// The holder's number of active policies afterwards.
    pub active_policies: u32,
    /// Whether the holder is (kept) in the voter registry.
    pub register_voter: bool,
}

/// What a successful termination writes and publishes.
#[derive(Clone, Debug, PartialEq, Eq)]
pub struct TerminationPlan {
    /// The policy as it is stored afterwards.
    pub policy: PolicyRecord,
    /// The holder's number of active policies afterwards.
    pub active_policies: u32,
    /// Whether the holder leaves the voter registry.
    pub drop_voter: bool,
    pub event: PolicyTerminated,
}

/// What a lapse writes (the expiry event is the contract's own).
#[derive(Clone, Debug, PartialEq, Eq)]
pub struct LapsePlan {
    pub policy: PolicyRecord,
    pub active_policies: u32,
    pub drop_voter: bool,
}

// ── Model ────────────────────────────────────────────────────────────────────

/// The holder's active count after one more policy is bound; it stops at the
/// largest `u32`.
pub open spec fn bound(active_policies: u32) -> u32 {
    if active_policies == u32::MAX { u32::MAX } else { (active_policies + 1) as u32 }
}

/// The holder's active count after one policy stops; it never goes below zero.
pub open spec fn released(active_policies: u32) -> u32 {
    if active_policies == 0 { 0 } else { (active_policies - 1) as u32 }
}

/// The voter registry agrees with the active count: a holder is a voter
/// exactly while it holds an active policy.
pub open spec fn registry_consistent(active_policies: u32, is_voter: bool) -> bool {
    is_voter == (active_policies > 0)
}

/// `p` once stopped at ledger `now` for `reason`, by the admin or not.
pub open spec fn stopped(p: PolicyRecord, now: u32, reason: TerminationReason, by_admin: bool) -> PolicyRecord {
    PolicyRecord {
        is_active: false,
        terminated_at_ledger: now,
        termination_reason: reason,
        terminated_by_admin: by_admin,
        ..p
    }
}

/// The error that a termination request meets first, if any.
pub open spec fn termination_refusal(
    stored: Option<PolicyRecord>,
    holder_matches: bool,
    reason: TerminationReason,
    by_admin: bool,
    allow_open_claim_bypass: bool,
    open_claims: u32,
) -> Option<PolicyError> {
    if reason == TerminationReason::NotTerminated {
        Some(PolicyError::InvalidTerminationReason)
    } else if stored is None {
        Some(PolicyError::PolicyNotFound)
    } else if !holder_matches {
        Some(PolicyError::HolderMismatch)
    } else if !stored->0.is_active {
        Some(PolicyError::AlreadyInactive)
    } else if open_claims > 0 && (!by_admin || !allow_open_claim_bypass) {
        Some(PolicyError::OpenClaimsMustFinalize)
    } else {
        None
    }
}

/// `r` is the answer to a termination request: the first refusal, or the
/// stopped policy, the released count, the voter decision and the event.
pub open spec fn termination_outcome(
    r: Result<TerminationPlan, PolicyError>,
    holder: soroban_sdk::Address,
    policy_id: u32,
    stored: Option<PolicyRecord>,
    holder_matches: bool,
    reason: TerminationReason,
    by_admin: bool,
    allow_open_claim_bypass: bool,
    open_claims: u32,
    active_policies: u32,
    now: u32,
) -> bool {
    match termination_refusal(stored, holder_matches, reason, by_admin, allow_open_claim_bypass, open_claims) {
        Some(e) => r is Err && r->Err_0 == e,
        None => r is Ok && {
            let plan = r->Ok_0;
            &&& plan.policy == stopped(stored->0, now, reason, by_admin)
            &&& plan.active_policies == released(active_policies)
            &&& plan.drop_voter == (plan.active_policies == 0)
            &&& plan.event.holder == holder
            &&& plan.event.policy_id == policy_id
            &&& plan.event.reason_code == reason_code(reason)
            &&& plan.event.terminated_by_admin == (if by_admin { 1u32 } else { 0u32 })
            &&& plan.event.open_claim_bypass
                == (if allow_open_claim_bypass && open_claims > 0 { 1u32 } else { 0u32 })
            &&& plan.event.open_claims == open_claims
            &&& plan.event.at_ledger == now
        },
    }
}

/// The answer to a lapse request: `PolicyNotFound`; nothing to do for an
/// inactive policy; `LedgerOverflow` or `PolicyLapseNotReached` before
/// `end_ledger + grace_period_ledgers`; `OpenClaimsMustFinalize` while a
/// claim is open; else the lapse.
pub open spec fn lapse_outcome(
    stored: Option<PolicyRecord>,
    open_claims: u32,
    grace_period_ledgers: u32,
    active_policies: u32,
    now: u32,
) -> Result<Option<LapsePlan>, PolicyError> {
    match stored {
        None => Err(PolicyError::PolicyNotFound),
        Some(p) => if !p.is_active {
            Ok(None)
        } else if p.end_ledger + grace_period_ledgers > u32::MAX {
            Err(PolicyError::LedgerOverflow)
        } else if now < p.end_ledger + grace_period_ledgers {
            Err(PolicyError::PolicyLapseNotReached)
        } else if open_claims > 0 {
            Err(PolicyError::OpenClaimsMustFinalize)
        } else {
            Ok(Some(LapsePlan {
                policy: stopped(p, now, TerminationReason::LapsedNonPayment, false),
                active_policies: released(active_policies),
                drop_voter: released(active_policies) == 0,
            }))
        },
    }
}

// ── Laws ─────────────────────────────────────────────────────────────────────

/// Distinct termination reasons carry distinct tags, all at most 7, and only
/// "not terminated" carries 0.
pub proof fn lemma_reason_tags_distinct(a: TerminationReason, b: TerminationReason)
    ensures
        reason_code(a) == reason_code(b) <==> a == b,
        reason_code(a) <= 7,
        reason_code(a) == 0 <==> a == TerminationReason::NotTerminated,
{
}

/// Termination reasons carry the tags that events publish: 0 for "not
/// terminated", then 1 to 7 in the order voluntary cancellation, lapse for
/// non-payment, underwriting void, fraud or misrepresentation, regulatory
/// action, admin override, excessive rejections.
pub proof fn lemma_reason_tag_table()
    ensures
        reason_code(TerminationReason::NotTerminated) == 0,
        reason_code(TerminationReason::VoluntaryCancellation) == 1,
        reason_code(TerminationReason::LapsedNonPayment) == 2,
        reason_code(TerminationReason::UnderwritingVoid) == 3,
        reason_code(TerminationReason::FraudOrMisrepresentation) == 4,
        reason_code(TerminationReason::RegulatoryAction) == 5,
        reason_code(TerminationReason::AdminOverride) == 6,
        reason_code(TerminationReason::ExcessiveRejections) == 7,
{
}

/// The contract reports its errors under the numbers 1 to 11, in the order
/// not found, unauthorized, already inactive, open claims, invalid coverage,
/// invalid premium, invalid term, ledger overflow, invalid reason, holder
/// mismatch, lapse not reached.
pub proof fn lemma_error_number_table()
    ensures
        PolicyError::PolicyNotFound.error_number() == 1,
        PolicyError::Unauthorized.error_number() == 2,
        PolicyError::AlreadyInactive.error_number() == 3,
        PolicyError::OpenClaimsMustFinalize.error_number() == 4,
        PolicyError::InvalidCoverage.error_number() == 5,
        PolicyError::InvalidPremium.error_number() == 6,
        PolicyError::InvalidTermLedgers.error_number() == 7,
        PolicyError::LedgerOverflow.error_number() == 8,
        PolicyError::InvalidTerminationReason.error_number() == 9,
        PolicyError::HolderMismatch.error_number() == 10,
        PolicyError::PolicyLapseNotReached.error_number() == 11,
{
}

/// Distinct errors are reported under distinct numbers, from 1 to 11.
pub proof fn lemma_error_numbers_distinct(a: PolicyError, b: PolicyError)
    ensures
        a.error_number() == b.error_number() <==> a == b,
        1 <= a.error_number() <= 11,
{
}

/// A policy that has been terminated cannot be terminated again: a second
/// request, by anyone and for any reason, is refused, and with a real reason
/// and the right holder it is refused as already inactive.
pub proof fn lemma_no_double_termination(
    p: PolicyRecord,
    now: u32,
    reason: TerminationReason,
    by_admin: bool,
    holder_matches2: bool,
    reason2: TerminationReason,
    by_admin2: bool,
    allow2: bool,
    open2: u32,
)
    ensures
        termination_refusal(Some(stopped(p, now, reason, by_admin)), holder_matches2, reason2, by_admin2, allow2, open2) is Some,
        reason2 != TerminationReason::NotTerminated && holder_matches2 ==> termination_refusal(
            Some(stopped(p, now, reason, by_admin)),
            holder_matches2,
            reason2,
            by_admin2,
            allow2,
            open2,
        ) == Some(PolicyError::AlreadyInactive),
{
}

/// While a claim is open on a policy, its holder cannot terminate it.
pub proof fn lemma_open_claims_block_holder(
    stored: Option<PolicyRecord>,
    holder_matches: bool,
    reason: TerminationReason,
    allow_open_claim_bypass: bool,
    open_claims: u32,
)
    requires
        open_claims > 0,
    ensures
        termination_refusal(stored, holder_matches, reason, false, allow_open_claim_bypass, open_claims) is Some,
{
}

/// The admin may terminate an active policy of the right holder for a real
/// reason whatever claims are open, when explicitly allowed to bypass them;
/// without the flag, an open claim blocks the admin too.
pub proof fn lemma_admin_bypass(p: PolicyRecord, reason: TerminationReason, open_claims: u32)
    requires
        p.is_active,
        reason != TerminationReason::NotTerminated,
    ensures
        termination_refusal(Some(p), true, reason, true, true, open_claims) is None,
        open_claims > 0 ==> termination_refusal(Some(p), true, reason, true, false, open_claims)
            == Some(PolicyError::OpenClaimsMustFinalize),
{
}

/// Lapsing is idempotent: once a policy has lapsed, or has been terminated by
/// its holder or the admin, a lapse request leaves it as it is, whatever the
/// ledger, grace period, counts and claims.
pub proof fn lemma_lapse_is_idempotent(
    p: PolicyRecord,
    open_claims: u32,
    grace_period_ledgers: u32,
    active_policies: u32,
    now: u32,
    reason: TerminationReason,
    by_admin: bool,
    open_claims2: u32,
    grace2: u32,
    active2: u32,
    now2: u32,
)
    ensures
        lapse_outcome(Some(p), open_claims, grace_period_ledgers, active_policies, now) matches Ok(Some(plan))
            ==> lapse_outcome(Some(plan.policy), open_claims2, grace2, active2, now2) == Ok::<Option<LapsePlan>, PolicyError>(None),
        lapse_outcome(Some(stopped(p, now, reason, by_admin)), open_claims2, grace2, active2, now2)
            == Ok::<Option<LapsePlan>, PolicyError>(None),
{
}

/// A policy with an open claim does not lapse: once its lapse ledger is
/// reached the request is refused and nothing is written (before that, it is
/// refused as not yet due).
pub proof fn lemma_open_claims_block_lapse(
    p: PolicyRecord,
    open_claims: u32,
    grace_period_ledgers: u32,
    active_policies: u32,
    now: u32,
)
    requires
        p.is_active,
        open_claims > 0,
        p.end_ledger + grace_period_ledgers <= u32::MAX,
        now >= p.end_ledger + grace_period_ledgers,
    ensures
        lapse_outcome(Some(p), open_claims, grace_period_ledgers, active_policies, now)
            == Err::<Option<LapsePlan>, PolicyError>(PolicyError::OpenClaimsMustFinalize),
{
}

/// A holder is a voter exactly while it holds an active policy: binding
/// registers it with one more active policy, and a termination or lapse
/// drops it exactly when its last active policy stops.
pub proof fn lemma_voter_registry_tracks_active_policies(active_policies: u32, is_voter: bool)
    requires
        registry_consistent(active_policies, is_voter),
    ensures
        registry_consistent(bound(active_policies), true),
        registry_consistent(released(active_policies), is_voter && !(released(active_policies) == 0)),
        active_policies >= 1 ==> ((released(active_policies) == 0) <==> active_policies == 1),
{
}

/// Binding counts exactly one more active policy (the count only stops at
/// the largest `u32`), and a termination or lapse exactly one fewer (it only
/// stops at zero).
pub proof fn lemma_counts_move_by_one(active_policies: u32)
    ensures
        active_policies < u32::MAX ==> bound(active_policies) == active_policies + 1,
        active_policies == u32::MAX ==> bound(active_policies) == active_policies,
        active_policies >= 1 ==> released(active_policies) == active_policies - 1,
        active_policies == 0 ==> released(active_policies) == 0,
{
}

/// Stopping a policy marks it inactive at `now` for `reason`, records who
/// stopped it, and leaves everything else of it as it was.
pub proof fn lemma_stopped_fields(p: PolicyRecord, now: u32, reason: TerminationReason, by_admin: bool)
    ensures
        ({
            let q = stopped(p, now, reason, by_admin);
            &&& !q.is_active
            &&& q.terminated_at_ledger == now
            &&& q.termination_reason == reason
            &&& q.terminated_by_admin == by_admin
            &&& q.holder == p.holder
            &&& q.policy_id == p.policy_id
            &&& q.policy_type == p.policy_type
            &&& q.region == p.region
            &&& q.premium == p.premium
            &&& q.coverage == p.coverage
            &&& q.start_ledger == p.start_ledger
            &&& q.end_ledger == p.end_ledger
            &&& q.asset == p.asset
            &&& q.deductible == p.deductible
            &&& q.beneficiary == p.beneficiary
            &&& q.strike_count == p.strike_count
        }),
{
}

/// When a termination is accepted, and what it then does: it is accepted
/// exactly for a real reason, a stored active policy of the right holder, and
/// either no open claim or an admin who asked for the bypass. It then stops
/// the policy, counts one active policy fewer, drops the voter exactly when
/// none is left, and publishes the key, the reason's tag, who terminated,
/// whether claims were bypassed and how many were open.
pub proof fn lemma_termination_answer(
    r: Result<TerminationPlan, PolicyError>,
    holder: soroban_sdk::Address,
    policy_id: u32,
    stored: Option<PolicyRecord>,
    holder_matches: bool,
    reason: TerminationReason,
    by_admin: bool,
    allow_open_claim_bypass: bool,
    open_claims: u32,
    active_policies: u32,
    now: u32,
)
    requires
        termination_outcome(
            r, holder, policy_id, stored, holder_matches, reason, by_admin, allow_open_claim_bypass,
            open_claims, active_policies, now,
        ),
    ensures
        r is Ok <==> (reason != TerminationReason::NotTerminated && stored is Some && holder_matches
            && stored->0.is_active && (open_claims == 0 || (by_admin && allow_open_claim_bypass))),
        reason == TerminationReason::NotTerminated ==> r == Err::<TerminationPlan, PolicyError>(
            PolicyError::InvalidTerminationReason,
        ),
        reason != TerminationReason::NotTerminated && stored is None
            ==> r == Err::<TerminationPlan, PolicyError>(PolicyError::PolicyNotFound),
        reason != TerminationReason::NotTerminated && stored is Some && !holder_matches
            ==> r == Err::<TerminationPlan, PolicyError>(PolicyError::HolderMismatch),
        reason != TerminationReason::NotTerminated && stored is Some && holder_matches && !stored->0.is_active
            ==> r == Err::<TerminationPlan, PolicyError>(PolicyError::AlreadyInactive),
        reason != TerminationReason::NotTerminated && stored is Some && holder_matches && stored->0.is_active
            && open_claims > 0 && !(by_admin && allow_open_claim_bypass)
            ==> r == Err::<TerminationPlan, PolicyError>(PolicyError::OpenClaimsMustFinalize),
        r is Ok ==> ({
            let plan = r->Ok_0;
            let p = stored->0;
            &&& !plan.policy.is_active
            &&& plan.policy.terminated_at_ledger == now
            &&& plan.policy.termination_reason == reason
            &&& plan.policy.terminated_by_admin == by_admin
            &&& plan.policy.holder == p.holder
            &&& plan.policy.policy_id == p.policy_id
            &&& plan.policy.end_ledger == p.end_ledger
            &&& plan.policy.coverage == p.coverage
            &&& plan.policy.premium == p.premium
            &&& (active_policies >= 1 ==> plan.active_policies == active_policies - 1)
            &&& (active_policies == 0 ==> plan.active_policies == 0)
            &&& (plan.drop_voter <==> plan.active_policies == 0)
            &&& plan.event.holder == holder
            &&& plan.event.policy_id == policy_id
            &&& 1 <= plan.event.reason_code <= 7
            &&& (plan.event.terminated_by_admin == 1 <==> by_admin)
            &&& plan.event.terminated_by_admin <= 1
            &&& (plan.event.open_claim_bypass == 1 <==> (open_claims > 0 && allow_open_claim_bypass))
            &&& plan.event.open_claim_bypass <= 1
            &&& plan.event.open_claims == open_claims
            &&& plan.event.at_ledger == now
        }),
{
    if r is Ok {
        lemma_stopped_fields(stored->0, now, reason, by_admin);
    }
}

/// With no claim open, a real reason and an active policy of the right
/// holder, a termination is accepted whoever asks and whatever the bypass flag.
pub proof fn lemma_no_open_claim_termination_accepted(
    p: PolicyRecord,
    reason: TerminationReason,
    by_admin: bool,
    allow_open_claim_bypass: bool,
)
    requires
        p.is_active,
        reason != TerminationReason::NotTerminated,
    ensures
        termination_refusal(Some(p), true, reason, by_admin, allow_open_claim_bypass, 0) is None,
{
}

/// When a lapse request lapses a policy, and what it then does: exactly for a
/// stored active policy whose lapse ledger `end_ledger + grace` fits and is
/// reached, with no claim open. It then stops the policy at `now` as lapsed
/// for non-payment (not by the admin), counts one active policy fewer, and
/// drops the voter exactly when none is left.
pub proof fn lemma_lapse_answer(
    stored: Option<PolicyRecord>,
    open_claims: u32,
    grace_period_ledgers: u32,
    active_policies: u32,
    now: u32,
)
    ensures
        ({
            let r = lapse_outcome(stored, open_claims, grace_period_ledgers, active_policies, now);
            &&& (r matches Ok(Some(_))) <==> (stored is Some && stored->0.is_active
                && stored->0.end_ledger + grace_period_ledgers <= u32::MAX
                && now >= stored->0.end_ledger + grace_period_ledgers && open_claims == 0)
            &&& (r == Ok::<Option<LapsePlan>, PolicyError>(None) <==> (stored is Some && !stored->0.is_active))
            &&& (stored is None ==> r == Err::<Option<LapsePlan>, PolicyError>(PolicyError::PolicyNotFound))
            &&& (stored is Some && stored->0.is_active && stored->0.end_ledger + grace_period_ledgers > u32::MAX
                ==> r == Err::<Option<LapsePlan>, PolicyError>(PolicyError::LedgerOverflow))
            &&& (stored is Some && stored->0.is_active && stored->0.end_ledger + grace_period_ledgers <= u32::MAX
                && now < stored->0.end_ledger + grace_period_ledgers
                ==> r == Err::<Option<LapsePlan>, PolicyError>(PolicyError::PolicyLapseNotReached))
            &&& (r matches Ok(Some(plan)) ==> {
                &&& !plan.policy.is_active
                &&& plan.policy.terminated_at_ledger == now
                &&& plan.policy.termination_reason == TerminationReason::LapsedNonPayment
                &&& !plan.policy.terminated_by_admin
                &&& plan.policy.holder == stored->0.holder
                &&& plan.policy.policy_id == stored->0.policy_id
                &&& plan.policy.end_ledger == stored->0.end_ledger
                &&& (active_policies >= 1 ==> plan.active_policies == active_policies - 1)
                &&& (active_policies == 0 ==> plan.active_policies == 0)
                &&& (plan.drop_voter <==> plan.active_policies == 0)
            })
        }),
{
}

// ── Rules ────────────────────────────────────────────────────────────────────

/// Checks the terms of a new policy bound at ledger `now` and returns its
/// last ledger, `now + term_ledgers`.
pub fn check_new_policy_terms(coverage: i128, premium: i128, term_ledgers: u32, now: u32) -> (r: Result<u32, PolicyError>)
    ensures
        coverage <= 0 ==> r == Err::<u32, PolicyError>(PolicyError::InvalidCoverage),
        coverage > 0 && premium <= 0 ==> r == Err::<u32, PolicyError>(PolicyError::InvalidPremium),
        coverage > 0 && premium > 0 && term_ledgers == 0
            ==> r == Err::<u32, PolicyError>(PolicyError::InvalidTermLedgers),
        coverage > 0 && premium > 0 && term_ledgers > 0 && now + term_ledgers > u32::MAX
            ==> r == Err::<u32, PolicyError>(PolicyError::LedgerOverflow),
        coverage > 0 && premium > 0 && term_ledgers > 0 && now + term_ledgers <= u32::MAX
            ==> r == Ok::<u32, PolicyError>((now + term_ledgers) as u32),
{
    if coverage <= 0 {
        return Err(PolicyError::InvalidCoverage);
    }
    if premium <= 0 {
        return Err(PolicyError::InvalidPremium);
    }
    if term_ledgers == 0 {
        return Err(PolicyError::InvalidTermLedgers);
    }
    match now.checked_add(term_ledgers) {
        Some(end_ledger) => Ok(end_ledger),
        None => Err(PolicyError::LedgerOverflow),
    }
}

/// Binds a policy at ledger `now` until `end_ledger`: the stored record is
/// active, never terminated, without strikes, deductible or beneficiary, and
/// the holder gains an active policy and a voter slot.
pub fn plan_binding(
    holder: soroban_sdk::Address,
    policy_id: u32,
    policy_type: u32,
    region: RegionTier,
    coverage: i128,
    premium: i128,
    now: u32,
    end_ledger: u32,
    asset: soroban_sdk::Address,
    active_policies: u32,
) -> (b: BindingPlan)
    ensures
        b.policy == (PolicyRecord {
            holder,
            policy_id,
            policy_type,
            region,
            premium,
            coverage,
            is_active: true,
            start_ledger: now,
            end_ledger,
            asset,
            deductible: None,
            beneficiary: None,
            terminated_at_ledger: 0,
            termination_reason: TerminationReason::NotTerminated,
            terminated_by_admin: false,
            strike_count: 0,
        }),
        b.active_policies == bound(active_policies),
        active_policies < u32::MAX ==> b.active_policies == active_policies + 1,
        b.register_voter,
{
    let policy = PolicyRecord {
        holder,
        policy_id,
        policy_type,
        region,
        premium,
        coverage,
        is_active: true,
        start_ledger: now,
        end_ledger,
        asset,
        deductible: None,
        beneficiary: None,
        terminated_at_ledger: 0,
        termination_reason: TerminationReason::NotTerminated,
        terminated_by_admin: false,
        strike_count: 0,
    };
    let active = if active_policies == u32::MAX { u32::MAX } else { active_policies + 1 };
    BindingPlan { policy, active_policies: active, register_voter: true }
}

/// How a failed check of a new policy is answered.
pub fn policy_error_from_validation(e: Error) -> (r: PolicyError)
    ensures
        r == (match e {
            Error::ZeroCoverage => PolicyError::InvalidCoverage,
            Error::ZeroPremium => PolicyError::InvalidPremium,
            Error::InvalidLedgerWindow => PolicyError::InvalidTermLedgers,
            _ => PolicyError::InvalidCoverage,
        }),
{
    match e {
        Error::ZeroCoverage => PolicyError::InvalidCoverage,
        Error::ZeroPremium => PolicyError::InvalidPremium,
        Error::InvalidLedgerWindow => PolicyError::InvalidTermLedgers,
        _ => PolicyError::InvalidCoverage,
    }
}

/// Decides a termination, by the holder (`by_admin == false`) or by the
/// admin, of the policy `stored` under the key `(holder, policy_id)` at
/// ledger `now`, given whether the stored policy names `holder`.
///
/// `open_claims` is the number of claims still open on the policy and
/// `active_policies` the holder's number of active policies. A holder
/// termination is refused while a claim is open; an admin termination is too
/// unless `allow_open_claim_bypass` is set, and the event then carries the
/// bypass flag.
pub fn plan_termination(
    holder: soroban_sdk::Address,
    policy_id: u32,
    stored: Option<PolicyRecord>,
    holder_matches: bool,
    reason: TerminationReason,
    by_admin: bool,
    allow_open_claim_bypass: bool,
    open_claims: u32,
    active_policies: u32,
    now: u32,
) -> (r: Result<TerminationPlan, PolicyError>)
    ensures
        termination_outcome(
            r, holder, policy_id, stored, holder_matches, reason, by_admin, allow_open_claim_bypass,
            open_claims, active_policies, now,
        ),
        r is Ok <==> (reason != TerminationReason::NotTerminated && stored is Some && holder_matches
            && stored->0.is_active && (open_claims == 0 || (by_admin && allow_open_claim_bypass))),
        r is Ok ==> (active_policies >= 1 ==> r->Ok_0.active_policies == active_policies - 1),
{
    if reason == TerminationReason::NotTerminated {
        return Err(PolicyError::InvalidTerminationReason);
    }
    let mut policy = match stored {
        Some(p) => p,
        None => return Err(PolicyError::PolicyNotFound),
    };
    if !holder_matches {
        return Err(PolicyError::HolderMismatch);
    }
    if !policy.is_active {
        return Err(PolicyError::AlreadyInactive);
    }
    if open_claims > 0 && (!by_admin || !allow_open_claim_bypass) {
        return Err(PolicyError::OpenClaimsMustFinalize);
    }

    policy.is_active = false;
    policy.terminated_at_ledger = now;
    policy.termination_reason = reason;
    policy.terminated_by_admin = by_admin;

    let remaining = if active_policies == 0 { 0 } else { active_policies - 1 };
    let event = PolicyTerminated {
        holder,
        policy_id,
        reason_code: termination_reason_tag(reason),
        terminated_by_admin: if by_admin { 1 } else { 0 },
        open_claim_bypass: if allow_open_claim_bypass && open_claims > 0 { 1 } else { 0 },
        open_claims,
        at_ledger: now,
    };
    Ok(TerminationPlan { policy, active_policies: remaining, drop_voter: remaining == 0, event })
}

/// Decides a termination as [`plan_termination`] does, asking the host
/// whether the holder named by the stored policy is `holder`.
pub fn decide_termination(
    holder: soroban_sdk::Address,
    policy_id: u32,
    stored: Option<PolicyRecord>,
    reason: TerminationReason,
    by_admin: bool,
    allow_open_claim_bypass: bool,
    open_claims: u32,
    active_policies: u32,
    now: u32,
) -> (r: Result<TerminationPlan, PolicyError>)
    ensures
        termination_outcome(
            r, holder, policy_id, stored, stored is None || address_eq(stored->0.holder, holder),
            reason, by_admin, allow_open_claim_bypass, open_claims, active_policies, now,
        ),
{
    let holder_matches = match &stored {
        Some(p) => same_address(&p.holder, &holder),
        None => true,
    };
    plan_termination(
        holder,
        policy_id,
        stored,
        holder_matches,
        reason,
        by_admin,
        allow_open_claim_bypass,
        open_claims,
        active_policies,
        now,
    )
}

/// Admits `caller` to the admin operations only when the host finds it to be
/// the configured `admin`; `Unauthorized` otherwise.
pub fn authorize_admin(caller: &soroban_sdk::Address, admin: &soroban_sdk::Address) -> (r: Result<(), PolicyError>)
    ensures
        address_eq(*caller, *admin) ==> r == Ok::<(), PolicyError>(()),
        !address_eq(*caller, *admin) ==> r == Err::<(), PolicyError>(PolicyError::Unauthorized),
{
    if same_address(caller, admin) {
        Ok(())
    } else {
        Err(PolicyError::Unauthorized)
    }
}

/// Decides the permissionless lapse of the policy `stored` at ledger `now`,
/// with `open_claims` claims open on it.
///
/// A policy lapses once `now >= end_ledger + grace_period_ledgers`, and only
/// if no claim is open on it. An inactive policy is left as it is: `Ok(None)`,
/// nothing to write or publish.
pub fn plan_lapse(
    stored: Option<PolicyRecord>,
    open_claims: u32,
    grace_period_ledgers: u32,
    active_policies: u32,
    now: u32,
) -> (r: Result<Option<LapsePlan>, PolicyError>)
    ensures
        r == lapse_outcome(stored, open_claims, grace_period_ledgers, active_policies, now),
        r matches Ok(Some(plan)) ==> (active_policies >= 1 ==> plan.active_policies == active_policies - 1)
            && (plan.drop_voter <==> plan.active_policies == 0),
{
    let mut policy = match stored {
        Some(p) => p,
        None => return Err(PolicyError::PolicyNotFound),
    };
    if !policy.is_active {
        return Ok(None);
    }
    let lapse_ledger = match policy.end_ledger.checked_add(grace_period_ledgers) {
        Some(l) => l,
        None => return Err(PolicyError::LedgerOverflow),
    };
    if now < lapse_ledger {
        return Err(PolicyError::PolicyLapseNotReached);
    }
    if open_claims > 0 {
        return Err(PolicyError::OpenClaimsMustFinalize);
    }

    policy.is_active = false;
    policy.terminated_at_ledger = now;
    policy.termination_reason = TerminationReason::LapsedNonPayment;
    policy.terminated_by_admin = false;

    let remaining = if active_policies == 0 { 0 } else { active_policies - 1 };
    Ok(Some(LapsePlan { policy, active_policies: remaining, drop_voter: remaining == 0 }))
}

} // verus!
