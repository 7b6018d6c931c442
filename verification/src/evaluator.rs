//! Pure safety-first verdict derivation.
//!
//! Lookup and policy evaluation produce the axes in [`EvaluationInput`]. This
//! module combines them without performing I/O or inferring missing policy.

use vstd::prelude::*;

use crate::types::{
    CandidateStatus, Claim, ClaimStatus, EligibilityStatus, LabelPolicyStatus, NamespaceState,
    OfferingState, PublicAccess, RootState, SyntaxStatus, Verdict,
};

verus! {

/// Decision-critical inputs after normalization, topology, and policy evaluation.
#[derive(Debug, Clone, Copy, PartialEq, Eq)]
pub struct EvaluationInput {
    /// Result of protocol-level IDNA and DNS syntax validation.
    pub syntax: SyntaxStatus,
    /// Relationship between the input and its registration boundary.
    pub candidate_status: CandidateStatus,
    /// Current state of the root namespace.
    pub root_state: Claim<RootState>,
    /// Whether the candidate is within a standards-defined special-use namespace.
    pub namespace_state: Claim<NamespaceState>,
    /// Current state of the registration offering.
    pub offering_state: Claim<OfferingState>,
    /// Who may use the registration product.
    pub public_access: Claim<PublicAccess>,
    /// Result of applying typed registrant eligibility.
    pub eligibility: EligibilityStatus,
    /// Result of applying registry-specific label policy.
    pub label_policy: LabelPolicyStatus,
}

/// An offering state that rules out a new allocation.
pub open spec fn offering_refuses(s: OfferingState) -> bool {
    s != OfferingState::Accepting
}

/// An access class that makes registrant eligibility decision-critical.
pub open spec fn gated_access(a: PublicAccess) -> bool {
    a == PublicAccess::Conditional || a == PublicAccess::ControlledGroup
}

/// A verified fact, or a protocol or shape failure, that rules the candidate out.
pub open spec fn hard_failure(input: EvaluationInput) -> bool {
    ||| input.syntax == SyntaxStatus::Invalid
    ||| input.candidate_status == CandidateStatus::BareSuffix
    ||| input.candidate_status == CandidateStatus::Subdomain
    ||| input.root_state.verified_spec() == Some(RootState::Absent)
    ||| input.root_state.verified_spec() == Some(RootState::SpecialUse)
    ||| input.namespace_state.verified_spec() == Some(NamespaceState::SpecialUse)
    ||| (input.offering_state.verified_spec() matches Some(s) && offering_refuses(s))
    ||| input.public_access.verified_spec() == Some(PublicAccess::Unavailable)
    ||| input.label_policy == LabelPolicyStatus::Fail
    ||| (input.public_access.verified_spec() matches Some(a) && gated_access(a)
        && input.eligibility == EligibilityStatus::Unsatisfied)
}

/// Every decision-critical axis other than eligibility is verified and passes.
pub open spec fn static_checks_pass(input: EvaluationInput) -> bool {
    &&& input.candidate_status == CandidateStatus::RegistrableDomain
    &&& input.root_state.verified_spec() == Some(RootState::Delegated)
    &&& input.namespace_state.verified_spec() == Some(NamespaceState::Ordinary)
    &&& input.offering_state.verified_spec() == Some(OfferingState::Accepting)
    &&& input.public_access.verified_spec() is Some
    &&& input.label_policy == LabelPolicyStatus::Pass
}

/// The verdict that the decision axes determine.
///
/// A hard failure wins; otherwise a candidate whose static checks are not all
/// verified is indeterminate; otherwise an open product is plausible and a
/// gated product is conditional when eligibility is required or satisfied.
pub open spec fn verdict_for(input: EvaluationInput) -> Verdict {
    if hard_failure(input) {
        Verdict::Impossible
    } else if !static_checks_pass(input) {
        Verdict::Indeterminate
    } else if input.public_access.verified_spec() == Some(PublicAccess::Open) {
        Verdict::Plausible
    } else if input.eligibility == EligibilityStatus::Required || input.eligibility
        == EligibilityStatus::Satisfied {
        Verdict::Conditional
    } else {
        Verdict::Indeterminate
    }
}

/// Returns a copied claim value only when its evidence state is verified.
pub fn verified_value<T: Copy>(claim: Claim<T>) -> (r: Option<T>)
    ensures
        r == claim.verified_spec(),
{
    match claim.status {
        ClaimStatus::Verified => claim.value,
        _ => None,
    }
}

/// Derives a verdict using hard-failure, unresolved-fact, then success precedence.
///
/// A verified hard failure always wins, even when another axis is unresolved.
/// Stale and conflicting last-known values never authorize either a positive or
/// negative policy result. Eligibility is decision-critical only for products
/// whose verified access class is conditional or controlled-group.
pub fn derive_verdict(input: &EvaluationInput) -> (r: Verdict)
    ensures
        r == verdict_for(*input),
{
    if input.syntax == SyntaxStatus::Invalid {
        return Verdict::Impossible;
    }
    if input.candidate_status == CandidateStatus::BareSuffix || input.candidate_status
        == CandidateStatus::Subdomain {
        return Verdict::Impossible;
    }

    let root_state = verified_value(input.root_state);
    let namespace_state = verified_value(input.namespace_state);
    let offering_state = verified_value(input.offering_state);
    let public_access = verified_value(input.public_access);

    match root_state {
        Some(RootState::Absent) | Some(RootState::SpecialUse) => {
            return Verdict::Impossible;
        },
        _ => {},
    }
    match namespace_state {
        Some(NamespaceState::SpecialUse) => {
            return Verdict::Impossible;
        },
        _ => {},
    }
    match offering_state {
        Some(OfferingState::Paused) | Some(OfferingState::RenewalOnly) | Some(
            OfferingState::NotLaunched,
        ) | Some(OfferingState::Closed) => {
            return Verdict::Impossible;
        },
        _ => {},
    }
    match public_access {
        Some(PublicAccess::Unavailable) => {
            return Verdict::Impossible;
        },
        _ => {},
    }
    if input.label_policy == LabelPolicyStatus::Fail {
        return Verdict::Impossible;
    }
    let gated = match public_access {
        Some(PublicAccess::Conditional) | Some(PublicAccess::ControlledGroup) => true,
        _ => false,
    };
    if gated && input.eligibility == EligibilityStatus::Unsatisfied {
        return Verdict::Impossible;
    }

    let root_delegated = match root_state {
        Some(RootState::Delegated) => true,
        _ => false,
    };
    let namespace_ordinary = match namespace_state {
        Some(NamespaceState::Ordinary) => true,
        _ => false,
    };
    let accepting = match offering_state {
        Some(OfferingState::Accepting) => true,
        _ => false,
    };
    if input.candidate_status != CandidateStatus::RegistrableDomain || !root_delegated
        || !namespace_ordinary || !accepting || public_access.is_none() || input.label_policy
        != LabelPolicyStatus::Pass {
        return Verdict::Indeterminate;
    }

    match public_access {
        Some(PublicAccess::Open) => Verdict::Plausible,
        Some(PublicAccess::Conditional) | Some(PublicAccess::ControlledGroup) => {
            match input.eligibility {
                EligibilityStatus::Required | EligibilityStatus::Satisfied => Verdict::Conditional,
                EligibilityStatus::Unsatisfied => Verdict::Impossible,
                EligibilityStatus::Unknown | EligibilityStatus::NotApplicable => {
                    Verdict::Indeterminate
                },
            }
        },
        _ => Verdict::Impossible,
    }
}

/// Two claims with the same verified value carry the same decision weight.
pub open spec fn same_verified<T>(a: Claim<T>, b: Claim<T>) -> bool {
    a.verified_spec() == b.verified_spec()
}

/// A verified hard failure decides the verdict whatever the other axes say:
/// the result is `Impossible`.
pub proof fn law_hard_failure_dominates(input: EvaluationInput)
    requires
        hard_failure(input),
    ensures
        verdict_for(input) == Verdict::Impossible,
{
}

/// Only verified values matter: replacing any claim by another with the same
/// verified value (for example a stale or conflicting claim by an unknown one)
/// never changes the verdict, so unverified last-known values authorize
/// neither a positive nor a negative result.
pub proof fn law_only_verified_values_decide(a: EvaluationInput, b: EvaluationInput)
    requires
        a.syntax == b.syntax,
        a.candidate_status == b.candidate_status,
        same_verified(a.root_state, b.root_state),
        same_verified(a.namespace_state, b.namespace_state),
        same_verified(a.offering_state, b.offering_state),
        same_verified(a.public_access, b.public_access),
        a.eligibility == b.eligibility,
        a.label_policy == b.label_policy,
    ensures
        verdict_for(a) == verdict_for(b),
{
}

/// A positive verdict (`Plausible` or `Conditional`) needs a valid registrable
/// candidate whose root, namespace, offering, and access claims are all
/// verified and whose label policy passes; in particular no unknown, stale, or
/// conflicting critical claim can yield one.
pub proof fn law_positive_verdict_needs_verified_facts(input: EvaluationInput)
    requires
        verdict_for(input) == Verdict::Plausible || verdict_for(input) == Verdict::Conditional,
    ensures
        input.syntax == SyntaxStatus::Valid,
        input.candidate_status == CandidateStatus::RegistrableDomain,
        input.root_state.status == ClaimStatus::Verified,
        input.root_state.value == Some(RootState::Delegated),
        input.namespace_state.status == ClaimStatus::Verified,
        input.namespace_state.value == Some(NamespaceState::Ordinary),
        input.offering_state.status == ClaimStatus::Verified,
        input.offering_state.value == Some(OfferingState::Accepting),
        input.public_access.status == ClaimStatus::Verified,
        input.label_policy == LabelPolicyStatus::Pass,
{
}

/// `Plausible` is reserved for a verified open product, and `Conditional` for a
/// verified gated product whose eligibility is required or satisfied.
pub proof fn law_plausible_and_conditional_by_access(input: EvaluationInput)
    ensures
        verdict_for(input) == Verdict::Plausible ==> input.public_access.verified_spec() == Some(
            PublicAccess::Open,
        ),
        verdict_for(input) == Verdict::Conditional ==> (input.public_access.verified_spec()
            matches Some(a) && gated_access(a)) && (input.eligibility == EligibilityStatus::Required
            || input.eligibility == EligibilityStatus::Satisfied),
{
}

/// Eligibility is decision-critical only for gated access: for a product
/// whose access is not verified as conditional or controlled-group, the
/// eligibility status never changes the verdict.
pub proof fn law_eligibility_only_matters_when_gated(a: EvaluationInput, b: EvaluationInput)
    requires
        !(a.public_access.verified_spec() matches Some(x) && gated_access(x)),
        a.syntax == b.syntax,
        a.candidate_status == b.candidate_status,
        a.root_state == b.root_state,
        a.namespace_state == b.namespace_state,
        a.offering_state == b.offering_state,
        a.public_access == b.public_access,
        a.label_policy == b.label_policy,
    ensures
        verdict_for(a) == verdict_for(b),
{
}

} // verus!
