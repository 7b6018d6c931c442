//! Structured, human-readable findings that explain an assessment.

use vstd::prelude::*;

use crate::eligibility::finding_view;
use crate::evaluator::offering_refuses;
use crate::types::{
    CandidateStatus, Claim, ClaimStatus, EligibilityStatus, Finding, FindingCode,
    LabelPolicyStatus, NamespaceState, OfferingState, PublicAccess, RootState,
};

verus! {

/// A list of findings as code and message pairs.
pub open spec fn findings_view(v: Seq<Finding>) -> Seq<(FindingCode, Seq<char>)> {
    v.map_values(|f: Finding| finding_view(f))
}

/// Appends one finding.
fn push_finding(findings: &mut Vec<Finding>, code: FindingCode, message: String)
    ensures
        findings_view(final(findings)@) == findings_view(old(findings)@).push((code, message@)),
{
    let ghost before = findings@;
    findings.push(Finding { code, message });
    proof {
        assert(findings_view(findings@) =~= findings_view(before).push((code, message@)));
    }
}

/// Concatenates three pieces of text.
fn concat3(a: &str, b: &str, c: &str) -> (r: String)
    ensures
        r@ == a@ + b@ + c@,
{
    let mut s = a.to_owned();
    s.append(b);
    s.append(c);
    s
}

/// The finding for a candidate that is not itself a registrable domain.
pub open spec fn candidate_findings(
    status: CandidateStatus,
    boundary_suffix: Seq<char>,
    registrable_domain: Option<Seq<char>>,
) -> Seq<(FindingCode, Seq<char>)> {
    match status {
        CandidateStatus::BareSuffix => seq![
            (
                FindingCode::BareSuffix,
                "'"@ + boundary_suffix + "' is a suffix, not a registrable domain"@,
            ),
        ],
        CandidateStatus::Subdomain => seq![
            (
                FindingCode::Subdomain,
                "input is below registrable domain '"@ + match registrable_domain {
                    Some(r) => r,
                    None => Seq::empty(),
                } + "'"@,
            ),
        ],
        _ => Seq::empty(),
    }
}

/// Adds a structural finding for non-registrable candidate shapes.
pub fn append_candidate_finding(
    status: CandidateStatus,
    boundary_suffix: &str,
    registrable_domain: Option<&str>,
    findings: &mut Vec<Finding>,
)
    ensures
        findings_view(final(findings)@) == findings_view(old(findings)@) + candidate_findings(
            status,
            boundary_suffix@,
            crate::types::opt_str_view(registrable_domain),
        ),
{
    let ghost before = findings_view(findings@);
    match status {
        CandidateStatus::BareSuffix => {
            let m = concat3("'", boundary_suffix, "' is a suffix, not a registrable domain");
            push_finding(findings, FindingCode::BareSuffix, m);
        },
        CandidateStatus::Subdomain => {
            let r = match registrable_domain {
                Some(r) => r,
                None => "",
            };
            proof {
                assert(r@ == match crate::types::opt_str_view(registrable_domain) {
                    Some(x) => x,
                    None => Seq::<char>::empty(),
                }) by {
                    reveal_strlit("");
                }
            }
            let m = concat3("input is below registrable domain '", r, "'");
            push_finding(findings, FindingCode::Subdomain, m);
        },
        _ => {},
    }
    proof {
        assert(findings_view(findings@) =~= before + candidate_findings(
            status,
            boundary_suffix@,
            crate::types::opt_str_view(registrable_domain),
        ));
    }
}

/// The finding for a root verified absent from the current-root list.
pub open spec fn root_findings(root: Seq<char>, claim: Claim<RootState>) -> Seq<
    (FindingCode, Seq<char>),
> {
    if claim.verified_spec() == Some(RootState::Absent) {
        seq![
            (
                FindingCode::RootAbsent,
                "root label '"@ + root + "' is absent from the pinned IANA root list"@,
            ),
        ]
    } else {
        Seq::empty()
    }
}

/// Adds a finding for an absent root.
pub fn append_root_finding(root: &str, claim: Claim<RootState>, findings: &mut Vec<Finding>)
    ensures
        findings_view(final(findings)@) == findings_view(old(findings)@) + root_findings(
            root@,
            claim,
        ),
{
    let ghost before = findings_view(findings@);
    if let (ClaimStatus::Verified, Some(RootState::Absent)) = (claim.status, claim.value) {
        let m = concat3("root label '", root, "' is absent from the pinned IANA root list");
        push_finding(findings, FindingCode::RootAbsent, m);
    }
    proof {
        assert(findings_view(findings@) =~= before + root_findings(root@, claim));
    }
}

/// The finding for a candidate at or below a special-use name.
pub open spec fn namespace_findings(claim: Claim<NamespaceState>) -> Seq<(FindingCode, Seq<char>)> {
    if claim.verified_spec() == Some(NamespaceState::SpecialUse) {
        seq![
            (
                FindingCode::SpecialUseNamespace,
                "candidate is at or below an IANA special-use name"@,
            ),
        ]
    } else {
        Seq::empty()
    }
}

/// Adds a finding for a standards-defined special-use namespace.
pub fn append_namespace_finding(claim: Claim<NamespaceState>, findings: &mut Vec<Finding>)
    ensures
        findings_view(final(findings)@) == findings_view(old(findings)@) + namespace_findings(
            claim,
        ),
{
    let ghost before = findings_view(findings@);
    if let (ClaimStatus::Verified, Some(NamespaceState::SpecialUse)) = (claim.status, claim.value) {
        push_finding(
            findings,
            FindingCode::SpecialUseNamespace,
            "candidate is at or below an IANA special-use name".to_owned(),
        );
    }
    proof {
        assert(findings_view(findings@) =~= before + namespace_findings(claim));
    }
}

/// The finding for a candidate without a researched product, unless it is in
/// a special-use namespace.
pub open spec fn no_product_findings(
    has_product: bool,
    namespace: Claim<NamespaceState>,
    suffix: Seq<char>,
) -> Seq<(FindingCode, Seq<char>)> {
    if !has_product && namespace.verified_spec() != Some(NamespaceState::SpecialUse) {
        seq![
            (
                FindingCode::NoRegistrationProduct,
                "no researched registration product is assigned to '"@ + suffix + "'"@,
            ),
        ]
    } else {
        Seq::empty()
    }
}

/// Adds a finding when no registration product covers an ordinary name.
pub fn append_no_product_finding(
    has_product: bool,
    namespace: Claim<NamespaceState>,
    suffix: &str,
    findings: &mut Vec<Finding>,
)
    ensures
        findings_view(final(findings)@) == findings_view(old(findings)@) + no_product_findings(
            has_product,
            namespace,
            suffix@,
        ),
{
    let ghost before = findings_view(findings@);
    let special = match (namespace.status, namespace.value) {
        (ClaimStatus::Verified, Some(NamespaceState::SpecialUse)) => true,
        _ => false,
    };
    if !has_product && !special {
        let m = concat3("no researched registration product is assigned to '", suffix, "'");
        push_finding(findings, FindingCode::NoRegistrationProduct, m);
    }
    proof {
        assert(findings_view(findings@) =~= before + no_product_findings(
            has_product,
            namespace,
            suffix@,
        ));
    }
}

/// The finding for one decision fact that is not verified.
pub open spec fn claim_findings(axis: Seq<char>, status: ClaimStatus) -> Seq<
    (FindingCode, Seq<char>),
> {
    match status {
        ClaimStatus::Verified => Seq::empty(),
        ClaimStatus::Unknown => seq![(FindingCode::ClaimUnknown, axis + " is unknown"@)],
        ClaimStatus::Stale => seq![(FindingCode::ClaimStale, axis + " is stale"@)],
        ClaimStatus::Conflicting => seq![
            (FindingCode::ClaimConflicting, axis + " is conflicting"@),
        ],
    }
}

/// Adds a stable finding when one decision fact is not verified.
pub fn append_claim_findings(axis: &str, status: ClaimStatus, findings: &mut Vec<Finding>)
    ensures
        findings_view(final(findings)@) == findings_view(old(findings)@) + claim_findings(
            axis@,
            status,
        ),
{
    let ghost before = findings_view(findings@);
    match status {
        ClaimStatus::Verified => {},
        ClaimStatus::Unknown => {
            let m = concat3(axis, " is ", "unknown");
            proof {
                assert(" is "@ + "unknown"@ == " is unknown"@) by {
                    reveal_strlit(" is ");
                    reveal_strlit("unknown");
                    reveal_strlit(" is unknown");
                }
                assert(m@ == axis@ + " is unknown"@);
            }
            push_finding(findings, FindingCode::ClaimUnknown, m);
        },
        ClaimStatus::Stale => {
            let m = concat3(axis, " is ", "stale");
            proof {
                assert(" is "@ + "stale"@ == " is stale"@) by {
                    reveal_strlit(" is ");
                    reveal_strlit("stale");
                    reveal_strlit(" is stale");
                }
                assert(m@ == axis@ + " is stale"@);
            }
            push_finding(findings, FindingCode::ClaimStale, m);
        },
        ClaimStatus::Conflicting => {
            let m = concat3(axis, " is ", "conflicting");
            proof {
                assert(" is "@ + "conflicting"@ == " is conflicting"@) by {
                    reveal_strlit(" is ");
                    reveal_strlit("conflicting");
                    reveal_strlit(" is conflicting");
                }
                assert(m@ == axis@ + " is conflicting"@);
            }
            push_finding(findings, FindingCode::ClaimConflicting, m);
        },
    }
    proof {
        assert(findings_view(findings@) =~= before + claim_findings(axis@, status));
    }
}

/// The findings for concrete offering, access, eligibility, and label outcomes.
pub open spec fn policy_findings(
    has_product: bool,
    offering: Claim<OfferingState>,
    access: Claim<PublicAccess>,
    eligibility: EligibilityStatus,
    label: LabelPolicyStatus,
) -> Seq<(FindingCode, Seq<char>)> {
    let offering_part = match offering.verified_spec() {
        Some(s) => if offering_refuses(s) {
            seq![
                (
                    FindingCode::OfferingNotAccepting,
                    "registration product is not accepting new allocations"@,
                ),
            ]
        } else {
            Seq::empty()
        },
        None => Seq::empty(),
    };
    let access_part = if access.verified_spec() == Some(PublicAccess::Unavailable) {
        seq![(FindingCode::PublicAccessUnavailable, "registration is unavailable to the public"@)]
    } else {
        Seq::empty()
    };
    let eligibility_part = match eligibility {
        EligibilityStatus::Required => seq![
            (
                FindingCode::EligibilityRequired,
                "registrant eligibility and/or approval is required"@,
            ),
        ],
        EligibilityStatus::Unsatisfied => seq![
            (FindingCode::EligibilityFailed, "supplied registrant facts do not satisfy eligibility"@),
        ],
        EligibilityStatus::Unknown => if has_product {
            seq![
                (
                    FindingCode::EligibilityUnknown,
                    "eligibility could not be decided from current facts"@,
                ),
            ]
        } else {
            Seq::empty()
        },
        _ => Seq::empty(),
    };
    let label_part = match label {
        LabelPolicyStatus::Fail => seq![
            (FindingCode::LabelPolicyFailed, "a verified registry label rule fails"@),
        ],
        LabelPolicyStatus::Pass => Seq::empty(),
        _ => seq![
            (FindingCode::LabelPolicyIncomplete, "registry-specific label policy is incomplete"@),
        ],
    };
    offering_part + access_part + eligibility_part + label_part
}

/// Adds findings for concrete offering, access, eligibility, and label outcomes.
pub fn append_policy_findings(
    has_product: bool,
    offering: Claim<OfferingState>,
    access: Claim<PublicAccess>,
    eligibility: EligibilityStatus,
    label: LabelPolicyStatus,
    findings: &mut Vec<Finding>,
)
    ensures
        findings_view(final(findings)@) == findings_view(old(findings)@) + policy_findings(
            has_product,
            offering,
            access,
            eligibility,
            label,
        ),
{
    let ghost before = findings_view(findings@);
    let refuses = match (offering.status, offering.value) {
        (ClaimStatus::Verified, Some(OfferingState::Accepting)) => false,
        (ClaimStatus::Verified, Some(_)) => true,
        _ => false,
    };
    if refuses {
        push_finding(
            findings,
            FindingCode::OfferingNotAccepting,
            "registration product is not accepting new allocations".to_owned(),
        );
    }
    let ghost after_offering = findings_view(findings@);
    let unavailable = match (access.status, access.value) {
        (ClaimStatus::Verified, Some(PublicAccess::Unavailable)) => true,
        _ => false,
    };
    if unavailable {
        push_finding(
            findings,
            FindingCode::PublicAccessUnavailable,
            "registration is unavailable to the public".to_owned(),
        );
    }
    let ghost after_access = findings_view(findings@);
    match eligibility {
        EligibilityStatus::Required => {
            push_finding(
                findings,
                FindingCode::EligibilityRequired,
                "registrant eligibility and/or approval is required".to_owned(),
            );
        },
        EligibilityStatus::Unsatisfied => {
            push_finding(
                findings,
                FindingCode::EligibilityFailed,
                "supplied registrant facts do not satisfy eligibility".to_owned(),
            );
        },
        EligibilityStatus::Unknown => {
            if has_product {
                push_finding(
                    findings,
                    FindingCode::EligibilityUnknown,
                    "eligibility could not be decided from current facts".to_owned(),
                );
            }
        },
        _ => {},
    }
    let ghost after_eligibility = findings_view(findings@);
    match label {
        LabelPolicyStatus::Fail => {
            push_finding(
                findings,
                FindingCode::LabelPolicyFailed,
                "a verified registry label rule fails".to_owned(),
            );
        },
        LabelPolicyStatus::Pass => {},
        _ => {
            push_finding(
                findings,
                FindingCode::LabelPolicyIncomplete,
                "registry-specific label policy is incomplete".to_owned(),
            );
        },
    }
    proof {
        let p = policy_findings(has_product, offering, access, eligibility, label);
        assert(findings_view(findings@) =~= before + p);
    }
}

} // verus!
