use tldhax::catalog::{Catalog, ProductSelector, SpecialUseName};
use tldhax::topology::PslRules;
use tldhax::{
    ApplicationChannel, CandidateStatus, Claim, ClaimStatus, EligibilityExpression,
    EligibilityKind, EligibilityRequirement, EligibilityStatus, FindingCode, IdnSupport,
    LabelPolicy, LabelPolicyStatus, LengthConstraint, LengthUnit, OfferingState, PslSection,
    PublicAccess, RegistrantContext, RegistrationProduct, Registry, ReservedDisposition,
    ReservedLabel, RootState, RootTld, SuffixRole, SuffixRule, SuffixRuleKind, Verdict,
};

const EV: &[&str] = &["fixture"];

fn complete_policy() -> LabelPolicy {
    LabelPolicy {
        id: "fixture-policy",
        completeness: ClaimStatus::Verified,
        completeness_evidence: &["fixture-policy"],
        length: Some(LengthConstraint { minimum: 1, maximum: 63, unit: LengthUnit::ALabelOctets }),
        length_evidence: &["fixture-length"],
        idn_support: Claim::verified(IdnSupport::Unsupported, &["fixture-idn"]),
        idn_profile: None,
        reserved_status: ClaimStatus::Verified,
        reserved_set_evidence: &["fixture-reserved"],
        reserved_labels: &[
            ReservedLabel {
                label: "nic",
                disposition: ReservedDisposition::Prohibited,
                evidence: &["fixture-nic"],
            },
            ReservedLabel {
                label: "gold",
                disposition: ReservedDisposition::Premium,
                evidence: &["fixture-gold"],
            },
        ],
    }
}

fn product(
    id: &'static str,
    offering_state: Claim<OfferingState>,
    public_access: Claim<PublicAccess>,
    eligibility: Option<EligibilityExpression>,
) -> RegistrationProduct {
    RegistrationProduct {
        id,
        operator_id: "fixture-operator",
        offering_state,
        public_access,
        application_channel: Claim::verified(ApplicationChannel::Registrar, EV),
        eligibility,
        label_policy: Some(complete_policy()),
        designations: &[],
    }
}

fn fixture_registry() -> Registry {
    let requirement = EligibilityExpression::Requirement(EligibilityRequirement {
        id: "member",
        kind: EligibilityKind::CommunityMembership,
        value: "fixture-community",
        explanation: "The registrant must belong to the fixture community.",
        evidence: &["fixture-membership"],
    });
    let products = vec![
        product(
            "open",
            Claim::verified(OfferingState::Accepting, EV),
            Claim::verified(PublicAccess::Open, EV),
            None,
        ),
        product(
            "paused",
            Claim::verified(OfferingState::Paused, EV),
            Claim::verified(PublicAccess::Open, EV),
            None,
        ),
        product(
            "stale",
            Claim::stale(OfferingState::Accepting, EV),
            Claim::conflicting(EV),
            None,
        ),
        product(
            "gated-without-expression",
            Claim::verified(OfferingState::Accepting, EV),
            Claim::verified(PublicAccess::Conditional, EV),
            None,
        ),
        product(
            "gated",
            Claim::verified(OfferingState::Accepting, EV),
            Claim::verified(PublicAccess::Conditional, EV),
            Some(EligibilityExpression::Any(vec![requirement])),
        ),
    ];
    let selector = |suffix: &'static str, product_id: &'static str| ProductSelector {
        suffix,
        product_id,
    };
    let catalog = Catalog {
        evidence: Vec::new(),
        roots: vec![RootTld {
            ascii_label: "tld",
            unicode_label: None,
            raw_iana_type: Some("generic"),
            family: None,
            state: Claim::verified(RootState::Delegated, &["fixture-root"]),
            operator_ids: &[],
            designations: &[],
        }],
        psl: PslRules {
            exact: vec![SuffixRule {
                labels: "tld",
                kind: SuffixRuleKind::Exact,
                section: PslSection::Icann,
                role: SuffixRole::RegistryBoundary,
                evidence: "fixture-psl",
            }],
            wildcard: Vec::new(),
            exception: Vec::new(),
        },
        special_use: vec![SpecialUseName { name: "reserved.tld" }],
        profiles: Vec::new(),
        products,
        product_by_suffix: vec![
            selector("a.tld", "open"),
            selector("b.tld", "paused"),
            selector("c.tld", "stale"),
            selector("d.tld", "gated-without-expression"),
            selector("e.tld", "gated"),
            selector("f.tld", "missing-product"),
        ],
        product_one_label_below: Vec::new(),
    };
    Registry { catalog }
}

#[test]
fn verified_open_accepting_product_with_passing_label_is_plausible() {
    let result = fixture_registry().assess("x.a.tld");
    assert_eq!(result.candidate_status, CandidateStatus::RegistrableDomain);
    assert_eq!(result.label_policy, LabelPolicyStatus::Pass);
    assert_eq!(result.eligibility, EligibilityStatus::NotApplicable);
    assert_eq!(result.verdict, Verdict::Plausible);
    assert!(result.findings.is_empty());
    assert_eq!(
        result.evidence,
        vec![
            "fixture",
            "fixture-gold",
            "fixture-idn",
            "fixture-length",
            "fixture-nic",
            "fixture-policy",
            "fixture-psl",
            "fixture-reserved",
            "fixture-root",
            "iana_special_use",
        ]
    );
}

#[test]
fn label_rules_fail_or_defer_as_verified() {
    let registry = fixture_registry();
    let reserved = registry.assess("nic.a.tld");
    assert_eq!(reserved.label_policy, LabelPolicyStatus::Fail);
    assert_eq!(reserved.verdict, Verdict::Impossible);
    assert!(reserved.findings.iter().any(|f| f.code == FindingCode::LabelPolicyFailed
        && f.message == "a verified registry label rule fails"));

    let premium = registry.assess("GOLD.a.tld");
    assert_eq!(premium.label_policy, LabelPolicyStatus::Partial);
    assert_eq!(premium.verdict, Verdict::Indeterminate);
    assert!(premium.findings.iter().any(|f| f.code == FindingCode::LabelPolicyIncomplete));

    let idn = registry.assess("bücher.a.tld");
    assert_eq!(idn.ascii_domain.as_deref(), Some("xn--bcher-kva.a.tld"));
    assert_eq!(idn.label_policy, LabelPolicyStatus::Fail);
    assert_eq!(idn.verdict, Verdict::Impossible);
}

#[test]
fn refused_offering_is_impossible_with_its_finding() {
    let result = fixture_registry().assess("x.b.tld");
    assert_eq!(result.verdict, Verdict::Impossible);
    assert_eq!(result.findings.len(), 1);
    assert_eq!(result.findings[0].code, FindingCode::OfferingNotAccepting);
    assert_eq!(
        result.findings[0].message,
        "registration product is not accepting new allocations"
    );
}

#[test]
fn stale_and_conflicting_claims_are_reported_and_undecided() {
    let result = fixture_registry().assess("x.c.tld");
    assert_eq!(result.verdict, Verdict::Indeterminate);
    let codes: Vec<FindingCode> = result.findings.iter().map(|f| f.code).collect();
    assert_eq!(
        codes,
        vec![
            FindingCode::ClaimStale,
            FindingCode::ClaimConflicting,
            FindingCode::EligibilityUnknown,
        ]
    );
    assert_eq!(result.findings[0].message, "offering state is stale");
    assert_eq!(result.findings[1].message, "public access is conflicting");
    assert_eq!(result.eligibility, EligibilityStatus::Unknown);
}

#[test]
fn gated_product_without_expression_leaves_eligibility_unknown() {
    let result = fixture_registry().assess("x.d.tld");
    assert_eq!(result.eligibility, EligibilityStatus::Unknown);
    assert_eq!(result.verdict, Verdict::Indeterminate);
    assert_eq!(result.findings.len(), 1);
    assert_eq!(result.findings[0].code, FindingCode::EligibilityUnknown);
    assert_eq!(
        result.findings[0].message,
        "eligibility could not be decided from current facts"
    );
}

#[test]
fn gated_product_is_conditional_until_facts_decide_it() {
    let registry = fixture_registry();
    let required = registry.assess("x.e.tld");
    assert_eq!(required.eligibility, EligibilityStatus::Required);
    assert_eq!(required.verdict, Verdict::Conditional);

    let mut member = RegistrantContext::default();
    member.satisfied_requirements.insert("member".to_owned());
    let satisfied = registry.assess_for("x.e.tld", &member);
    assert_eq!(satisfied.eligibility, EligibilityStatus::Satisfied);
    assert_eq!(satisfied.verdict, Verdict::Conditional);

    let mut outsider = RegistrantContext::default();
    outsider.unsatisfied_requirements.insert("member".to_owned());
    let unsatisfied = registry.assess_for("x.e.tld", &outsider);
    assert_eq!(unsatisfied.eligibility, EligibilityStatus::Unsatisfied);
    assert_eq!(unsatisfied.verdict, Verdict::Impossible);

    let mut both = RegistrantContext::default();
    both.satisfied_requirements.insert("member".to_owned());
    both.unsatisfied_requirements.insert("member".to_owned());
    let undecided = registry.assess_for("x.e.tld", &both);
    assert_eq!(undecided.eligibility, EligibilityStatus::Unknown);
    assert_eq!(undecided.verdict, Verdict::Indeterminate);
}

#[test]
fn selector_naming_a_missing_product_selects_nothing() {
    let result = fixture_registry().assess("x.f.tld");
    assert_eq!(result.product_id, None);
    assert_eq!(result.candidate_status, CandidateStatus::Subdomain);
    assert_eq!(result.registrable_domain.as_deref(), Some("f.tld"));
    assert!(result
        .findings
        .iter()
        .any(|f| f.code == FindingCode::NoRegistrationProduct
            && f.message == "no researched registration product is assigned to 'tld'"));
}

#[test]
fn special_use_subtree_of_a_delegated_root_is_impossible() {
    let result = fixture_registry().assess("deep.reserved.tld");
    assert_eq!(result.root_state.verified_value(), Some(&RootState::Delegated));
    assert_eq!(result.verdict, Verdict::Impossible);
}

#[test]
fn fixture_statistics_count_every_dimension() {
    let registry = fixture_registry();
    let stats = registry.stats();
    assert_eq!(stats.products, 5);
    assert_eq!(stats.selectors.total(), 6);
    assert_eq!(stats.offering_state.by_product.verified, 4);
    assert_eq!(stats.offering_state.by_product.stale, 1);
    assert_eq!(stats.public_access.by_product.conflicting, 1);
    assert_eq!(stats.offering_state.by_selector.total(), 5);
    assert_eq!(stats.eligibility.by_product.verified, 3);
    assert_eq!(stats.eligibility.by_product.unknown, 1);
    assert_eq!(stats.eligibility.by_product.conflicting, 1);
    assert_eq!(stats.idn_policy.by_product.verified, 5);
    assert_eq!(stats.reserved_labels.by_product.verified, 5);
    assert_eq!(stats.topology.icann, 1);
    assert_eq!(stats.roots.current, 1);
}
