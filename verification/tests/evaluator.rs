use tldhax::{
    derive_verdict, CandidateStatus, Claim, ClaimStatus, EligibilityStatus, EvaluationInput,
    LabelPolicyStatus, NamespaceState, OfferingState, PublicAccess, RootState, SyntaxStatus,
    Verdict,
};

const EVIDENCE: &[&str] = &["fixture"];

fn verified<T>(value: T) -> Claim<T> {
    Claim::verified(value, EVIDENCE)
}

fn open_input() -> EvaluationInput {
    EvaluationInput {
        syntax: SyntaxStatus::Valid,
        candidate_status: CandidateStatus::RegistrableDomain,
        root_state: verified(RootState::Delegated),
        namespace_state: verified(NamespaceState::Ordinary),
        offering_state: verified(OfferingState::Accepting),
        public_access: verified(PublicAccess::Open),
        eligibility: EligibilityStatus::NotApplicable,
        label_policy: LabelPolicyStatus::Pass,
    }
}

#[test]
fn fully_verified_open_product_is_plausible() {
    assert_eq!(derive_verdict(&open_input()), Verdict::Plausible);
}

#[test]
fn gated_products_are_conditional() {
    for access in [PublicAccess::Conditional, PublicAccess::ControlledGroup] {
        for eligibility in [EligibilityStatus::Required, EligibilityStatus::Satisfied] {
            let input = EvaluationInput {
                public_access: verified(access),
                eligibility,
                ..open_input()
            };
            assert_eq!(derive_verdict(&input), Verdict::Conditional);
        }
    }
}

#[test]
fn protocol_and_candidate_shape_failures_are_impossible() {
    let invalid = EvaluationInput {
        syntax: SyntaxStatus::Invalid,
        ..open_input()
    };
    assert_eq!(derive_verdict(&invalid), Verdict::Impossible);

    for candidate_status in [CandidateStatus::BareSuffix, CandidateStatus::Subdomain] {
        let input = EvaluationInput {
            candidate_status,
            ..open_input()
        };
        assert_eq!(derive_verdict(&input), Verdict::Impossible);
    }
}

#[test]
fn every_verified_offering_failure_is_impossible() {
    for state in [
        OfferingState::Paused,
        OfferingState::RenewalOnly,
        OfferingState::NotLaunched,
        OfferingState::Closed,
    ] {
        let input = EvaluationInput {
            offering_state: verified(state),
            root_state: Claim::unknown(),
            ..open_input()
        };
        assert_eq!(derive_verdict(&input), Verdict::Impossible);
    }
}

#[test]
fn hard_policy_failure_dominates_unknown_axes() {
    let unavailable = EvaluationInput {
        root_state: Claim::unknown(),
        offering_state: Claim::unknown(),
        public_access: verified(PublicAccess::Unavailable),
        label_policy: LabelPolicyStatus::Unknown,
        ..open_input()
    };
    assert_eq!(derive_verdict(&unavailable), Verdict::Impossible);

    let label_failure = EvaluationInput {
        root_state: Claim::unknown(),
        offering_state: Claim::unknown(),
        public_access: Claim::unknown(),
        label_policy: LabelPolicyStatus::Fail,
        ..open_input()
    };
    assert_eq!(derive_verdict(&label_failure), Verdict::Impossible);
}

#[test]
fn absent_and_special_use_roots_are_impossible() {
    for state in [RootState::Absent, RootState::SpecialUse] {
        let input = EvaluationInput {
            root_state: verified(state),
            ..open_input()
        };
        assert_eq!(derive_verdict(&input), Verdict::Impossible);
    }
}

#[test]
fn special_use_namespace_is_impossible_without_product_policy() {
    let input = EvaluationInput {
        namespace_state: verified(NamespaceState::SpecialUse),
        offering_state: Claim::unknown(),
        public_access: Claim::unknown(),
        ..open_input()
    };
    assert_eq!(derive_verdict(&input), Verdict::Impossible);
}

#[test]
fn failed_conditional_eligibility_is_impossible() {
    let input = EvaluationInput {
        public_access: verified(PublicAccess::Conditional),
        eligibility: EligibilityStatus::Unsatisfied,
        ..open_input()
    };
    assert_eq!(derive_verdict(&input), Verdict::Impossible);
}

#[test]
fn unresolved_critical_axes_are_indeterminate() {
    let cases = [
        EvaluationInput {
            candidate_status: CandidateStatus::Unresolved,
            ..open_input()
        },
        EvaluationInput {
            root_state: Claim::unknown(),
            ..open_input()
        },
        EvaluationInput {
            namespace_state: Claim::stale(NamespaceState::Ordinary, EVIDENCE),
            ..open_input()
        },
        EvaluationInput {
            offering_state: Claim::stale(OfferingState::Accepting, EVIDENCE),
            ..open_input()
        },
        EvaluationInput {
            public_access: Claim::conflicting(EVIDENCE),
            ..open_input()
        },
        EvaluationInput {
            label_policy: LabelPolicyStatus::Partial,
            ..open_input()
        },
        EvaluationInput {
            label_policy: LabelPolicyStatus::Unknown,
            ..open_input()
        },
    ];

    for input in cases {
        assert_eq!(derive_verdict(&input), Verdict::Indeterminate);
    }
}

#[test]
fn stale_negative_claim_does_not_authorize_impossible() {
    let input = EvaluationInput {
        public_access: Claim::stale(PublicAccess::Unavailable, EVIDENCE),
        ..open_input()
    };
    assert_eq!(derive_verdict(&input), Verdict::Indeterminate);
}

#[test]
fn eligibility_is_critical_only_for_gated_access() {
    let open = EvaluationInput {
        eligibility: EligibilityStatus::Unknown,
        ..open_input()
    };
    assert_eq!(derive_verdict(&open), Verdict::Plausible);

    let conditional = EvaluationInput {
        public_access: verified(PublicAccess::Conditional),
        eligibility: EligibilityStatus::Unknown,
        ..open_input()
    };
    assert_eq!(derive_verdict(&conditional), Verdict::Indeterminate);
}

#[test]
fn verified_claim_without_value_is_indeterminate() {
    let input = EvaluationInput {
        public_access: Claim {
            status: ClaimStatus::Verified,
            value: None,
            evidence: EVIDENCE,
        },
        ..open_input()
    };
    assert_eq!(derive_verdict(&input), Verdict::Indeterminate);
}

#[test]
fn verdict_names_and_exit_codes_are_stable() {
    assert_eq!(Verdict::Plausible.as_str(), "plausible");
    assert_eq!(Verdict::Conditional.as_str(), "conditional");
    assert_eq!(Verdict::Impossible.as_str(), "impossible");
    assert_eq!(Verdict::Indeterminate.as_str(), "indeterminate");
    assert_eq!(Verdict::Plausible.exit_code(), 0);
    assert_eq!(Verdict::Impossible.exit_code(), 1);
    assert_eq!(Verdict::Indeterminate.exit_code(), 2);
    assert_eq!(Verdict::Conditional.exit_code(), 3);
}

#[test]
fn claim_constructors_keep_their_parts() {
    let verified_claim = Claim::verified(RootState::Delegated, EVIDENCE);
    assert_eq!(verified_claim.status, ClaimStatus::Verified);
    assert_eq!(verified_claim.verified_value(), Some(&RootState::Delegated));
    let stale = Claim::stale(RootState::Delegated, EVIDENCE);
    assert_eq!(stale.value, Some(RootState::Delegated));
    assert_eq!(stale.verified_value(), None);
    let conflicting = Claim::<RootState>::conflicting(EVIDENCE);
    assert_eq!(conflicting.status, ClaimStatus::Conflicting);
    assert_eq!(conflicting.value, None);
    assert_eq!(conflicting.evidence, EVIDENCE);
    let unknown = Claim::<RootState>::unknown();
    assert_eq!(unknown.status, ClaimStatus::Unknown);
    assert!(unknown.evidence.is_empty());
}
