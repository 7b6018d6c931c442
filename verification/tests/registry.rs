use tldhax::catalog::ProductSelector;
use tldhax::label_policy::evaluate_label_policy;
use tldhax::selection::select_product_assignment;
use tldhax::{
    CandidateStatus, Claim, ClaimStatus, Designation, EligibilityRequirementOutcome,
    EligibilityStatus, FindingCode, IdnProfile, IdnSupport, LabelPolicy, LabelPolicyStatus,
    NamespaceState, PslSection, PublicAccess, RegistrantContext, Registry, RootState,
    SuffixRole, SuffixRule, SuffixRuleKind, SyntaxStatus, Verdict,
};

fn test_idn_policy() -> LabelPolicy {
    LabelPolicy {
        id: "test-idn-policy",
        completeness: ClaimStatus::Verified,
        completeness_evidence: &["test-policy-evidence"],
        length: None,
        length_evidence: &[],
        idn_support: Claim::verified(IdnSupport::Supported, &["test-idn-evidence"]),
        idn_profile: Some(IdnProfile {
            id: "test-idn-profile",
            version: "1",
            evidence: &["test-idn-evidence"],
        }),
        reserved_status: ClaimStatus::Verified,
        reserved_set_evidence: &["test-reserved-evidence"],
        reserved_labels: &[],
    }
}

fn selectors(entries: &[(&'static str, &'static str)]) -> Vec<ProductSelector> {
    entries
        .iter()
        .map(|&(suffix, product_id)| ProductSelector { suffix, product_id })
        .collect()
}

fn exceptions(entries: &[&'static str]) -> Vec<SuffixRule> {
    entries
        .iter()
        .map(|&labels| SuffixRule {
            labels,
            kind: SuffixRuleKind::Exception,
            section: PslSection::Icann,
            role: SuffixRole::RegistryBoundary,
            evidence: "psl",
        })
        .collect()
}

#[test]
fn bootstrap_topology_is_not_an_open_policy_claim() {
    let result = Registry::new().assess("ordinary-candidate.com");
    assert_eq!(result.verdict, Verdict::Indeterminate);
    assert_eq!(result.public_access.status, ClaimStatus::Unknown);
}

#[test]
fn infrastructure_and_special_use_names_are_impossible() {
    let registry = Registry::new();
    for name in ["example.arpa", "example.test", "example.invalid"] {
        assert_eq!(registry.assess(name).verdict, Verdict::Impossible, "{name}");
    }
}

#[test]
fn special_use_is_an_independent_decision_axis() {
    let result = Registry::new().assess("candidate.local");
    assert_eq!(
        result.namespace_state.verified_value(),
        Some(&NamespaceState::SpecialUse)
    );
    assert_eq!(result.offering_state.status, ClaimStatus::Unknown);
    assert_eq!(result.public_access.status, ClaimStatus::Unknown);
    assert_eq!(result.verdict, Verdict::Impossible);
    assert!(result.evidence.contains(&"iana_special_use"));
}

#[test]
fn de_is_verified_open_without_a_residency_gate() {
    let result = Registry::new().assess("max.de");
    assert_eq!(result.product_suffix.as_deref(), Some("de"));
    assert_eq!(result.registrable_domain.as_deref(), Some("max.de"));
    assert_eq!(
        result.public_access.verified_value(),
        Some(&PublicAccess::Open)
    );
    assert_eq!(result.verdict, Verdict::Indeterminate);
}

#[test]
fn eligibility_namespaces_are_not_reported_open() {
    let registry = Registry::new();
    for name in ["example.gov", "example.bank", "example.gov.uk"] {
        let result = registry.assess(name);
        assert_eq!(
            result.public_access.verified_value(),
            Some(&PublicAccess::Conditional),
            "{name}"
        );
        assert_ne!(result.verdict, Verdict::Plausible, "{name}");
    }

    let edu = registry.assess("example.edu");
    assert_eq!(edu.product_id, Some("edu-institutions"));
    assert_eq!(edu.public_access.status, ClaimStatus::Unknown);
    assert_eq!(edu.verdict, Verdict::Indeterminate);
}

#[test]
fn eligibility_requirements_are_discoverable_with_individual_outcomes() {
    let registry = Registry::new();
    let without_context = registry.assess("candidate.gov");
    assert_eq!(without_context.eligibility_requirements.len(), 2);
    assert_eq!(
        without_context.eligibility_requirements[0].id,
        "us-government-organization"
    );
    assert!(without_context
        .eligibility_requirements
        .iter()
        .all(|value| value.outcome == EligibilityRequirementOutcome::Unknown));

    let mut context = RegistrantContext::default();
    context
        .satisfied_requirements
        .insert("us-government-organization".to_string());
    context
        .unsatisfied_requirements
        .insert("dotgov-senior-official-approval".to_string());
    let with_context = registry.assess_for("candidate.gov", &context);
    assert_eq!(with_context.eligibility, EligibilityStatus::Unsatisfied);
    assert_eq!(
        with_context.eligibility_requirements[0].outcome,
        EligibilityRequirementOutcome::Satisfied
    );
    assert_eq!(
        with_context.eligibility_requirements[1].outcome,
        EligibilityRequirementOutcome::Unsatisfied
    );
    assert!(!with_context.eligibility_requirements[0]
        .explanation
        .is_empty());
    assert!(!with_context.eligibility_requirements[0].evidence.is_empty());
}

#[test]
fn unknown_eligibility_ids_do_not_activate_requirement_evaluation() {
    let registry = Registry::new();
    let mut context = RegistrantContext::default();
    context.satisfied_requirements.insert("typo".to_string());

    let result = registry.assess_for("candidate.bank", &context);
    assert_eq!(result.eligibility, EligibilityStatus::Required);
    assert!(result
        .eligibility_requirements
        .iter()
        .all(|requirement| requirement.outcome == EligibilityRequirementOutcome::Unknown));
    assert!(result.findings.iter().any(|finding| {
        finding.code == FindingCode::UnknownEligibilityRequirement
            && finding.message.contains("'typo'")
    }));
    assert!(result
        .findings
        .iter()
        .any(|finding| finding.code == FindingCode::EligibilityRequired));
}

#[test]
fn relevant_eligibility_ids_are_evaluated_while_unknown_ids_are_reported() {
    let registry = Registry::new();
    let mut context = RegistrantContext::default();
    context
        .satisfied_requirements
        .insert("bank-regulated-entity".to_string());
    context
        .unsatisfied_requirements
        .insert("another-product-requirement".to_string());

    let result = registry.assess_for("candidate.bank", &context);
    assert_eq!(result.eligibility, EligibilityStatus::Satisfied);
    assert_eq!(
        result.eligibility_requirements[0].outcome,
        EligibilityRequirementOutcome::Satisfied
    );
    assert!(result.findings.iter().any(|finding| {
        finding.code == FindingCode::UnknownEligibilityRequirement
            && finding.message.contains("'another-product-requirement'")
    }));
}

#[test]
fn compiled_catalog_records_are_available_by_stable_id() {
    let registry = Registry::new();
    assert_eq!(
        registry.root_tld(".信息.").map(|value| value.ascii_label),
        Some("xn--vuq861b")
    );
    assert_eq!(
        registry
            .registration_product(" de-direct ")
            .map(|value| value.id),
        Some("de-direct")
    );
    assert_eq!(
        registry
            .policy_profile("denic-open-v1")
            .map(|value| value.id),
        Some("denic-open-v1")
    );
}

#[test]
fn idn_suffix_lookup_is_canonical() {
    let registry = Registry::new();
    let unicode = registry.suffix_info("信息").expect("Unicode root");
    let ascii = registry
        .suffix_info("xn--vuq861b")
        .expect("canonical A-label root");
    assert_eq!(unicode.canonical_suffix, "xn--vuq861b");
    assert_eq!(unicode.canonical_suffix, ascii.canonical_suffix);
    assert_eq!(
        unicode.root_state.verified_value(),
        Some(&RootState::Delegated)
    );
}

#[test]
fn idn_profile_metadata_cannot_authorize_a_label() {
    let policy = test_idn_policy();
    assert_eq!(
        evaluate_label_policy(
            Some(&policy),
            Some("xn--fa-hia.de"),
            Some("de"),
            "xn--fa-hia.de",
        ),
        LabelPolicyStatus::Partial
    );
    assert_eq!(
        evaluate_label_policy(Some(&policy), Some("ascii.de"), Some("de"), "ascii.de"),
        LabelPolicyStatus::Pass
    );
}

#[test]
fn suffix_info_unions_root_and_product_designations() {
    let info = Registry::new()
        .suffix_info("xn--5su34j936bgsg")
        .expect("active IDN brand root");
    assert!(info.designations.contains(&Designation::BrandSpec13));
    assert!(info.designations.contains(&Designation::IdnTld));
}

#[test]
fn wildcard_and_exception_rules_are_reachable() {
    let registry = Registry::new();
    let wildcard = registry.assess("bar.foo.ck");
    let wildcard_suffix = wildcard.suffix.expect("wildcard suffix");
    assert_eq!(wildcard_suffix.suffix, "foo.ck");
    assert_eq!(wildcard_suffix.rule_kind, SuffixRuleKind::Wildcard);
    assert_eq!(wildcard_suffix.evidence, Some("psl"));
    assert!(wildcard.evidence.contains(&"psl"));

    let exception = registry.assess("foo.www.ck");
    let exception_suffix = exception.suffix.expect("exception suffix");
    assert_eq!(exception_suffix.suffix, "ck");
    assert_eq!(exception_suffix.rule_kind, SuffixRuleKind::Exception);
}

#[test]
fn private_suffixes_keep_their_non_registry_role() {
    let result = Registry::new().assess("alice.github.io");
    let suffix = result.suffix.expect("private suffix");
    assert_eq!(suffix.section, Some(PslSection::Private));
    assert_eq!(result.public_access.status, ClaimStatus::Unknown);
}

#[test]
fn bare_suffix_and_subdomain_are_impossible() {
    let registry = Registry::new();
    let bare = registry.assess("co.uk");
    assert_eq!(bare.candidate_status, CandidateStatus::BareSuffix);
    assert_eq!(bare.verdict, Verdict::Impossible);

    let subdomain = registry.assess("www.example.com");
    assert_eq!(subdomain.candidate_status, CandidateStatus::Subdomain);
    assert_eq!(subdomain.verdict, Verdict::Impossible);
}

#[test]
fn unknown_root_is_verified_absent() {
    let result = Registry::new().assess("example.not-a-real-root");
    assert_eq!(result.root_state.verified_value(), Some(&RootState::Absent));
    assert_eq!(result.verdict, Verdict::Impossible);
}

#[test]
fn mapped_terminal_dot_is_normalized_after_idna() {
    let registry = Registry::new();
    let ascii = registry.assess("ordinary-candidate.com.");
    let unicode_separator = registry.assess("ordinary-candidate.com。");
    assert_eq!(unicode_separator.syntax, ascii.syntax);
    assert_eq!(unicode_separator.ascii_domain, ascii.ascii_domain);
    assert_eq!(unicode_separator.verdict, ascii.verdict);
}

#[test]
fn empty_registrant_context_behaves_like_absent_context() {
    let registry = Registry::new();
    let without_context = registry.assess("candidate.bank");
    let empty_context = registry.assess_for("candidate.bank", &RegistrantContext::default());
    assert_eq!(empty_context.eligibility, without_context.eligibility);
    assert_eq!(empty_context.verdict, without_context.verdict);
}

#[test]
fn product_selectors_use_most_specific_boundary_and_exact_tiebreak() {
    let exact_root = selectors(&[("test", "root")]);
    let one_below = selectors(&[("test", "family")]);
    let no_exceptions = exceptions(&[]);
    let family =
        select_product_assignment("candidate.city.test", &exact_root, &one_below, &no_exceptions)
            .expect("one-label-below selector");
    assert_eq!(family.product_id, "family");
    assert_eq!(family.suffix, "city.test");
    assert_eq!(family.candidate_status, CandidateStatus::RegistrableDomain);

    let exact_specific = selectors(&[("city.test", "specific"), ("test", "root")]);
    let exact = select_product_assignment(
        "candidate.city.test",
        &exact_specific,
        &one_below,
        &no_exceptions,
    )
    .expect("specific exact selector");
    assert_eq!(exact.product_id, "specific");
    assert_eq!(exact.suffix, "city.test");

    let subdomain = select_product_assignment(
        "deep.candidate.city.test",
        &exact_root,
        &one_below,
        &no_exceptions,
    )
    .expect("family selector below a deeper candidate");
    assert_eq!(subdomain.suffix, "city.test");
    assert_eq!(subdomain.candidate_status, CandidateStatus::Subdomain);

    let exception = select_product_assignment(
        "candidate.city.test",
        &exact_root,
        &one_below,
        &exceptions(&["city.test"]),
    );
    assert_eq!(exception.expect("root fallback").product_id, "root");
}

#[test]
fn reserved_r_ldh_candidate_is_invalid() {
    let result = Registry::new().assess("ab--cd.de");
    assert_eq!(result.syntax, SyntaxStatus::Invalid);
    assert_eq!(result.verdict, Verdict::Impossible);
}

#[test]
fn statistics_use_explicit_and_consistent_denominators() {
    let registry = Registry::new();
    let catalog = &registry.catalog;
    let stats = registry.stats();
    assert_eq!(stats.roots.total(), catalog.roots.len());
    assert!(stats.roots.current > 0);
    assert!(stats.roots.special_use > 0);
    assert_eq!(
        stats.topology.total(),
        catalog.psl.exact.len() + catalog.psl.wildcard.len() + catalog.psl.exception.len()
    );
    assert!(stats.topology.icann > 0);
    assert!(stats.topology.private > 0);
    assert_eq!(
        stats.selectors.total(),
        catalog.product_by_suffix.len() + catalog.product_one_label_below.len()
    );

    for coverage in [
        stats.offering_state,
        stats.public_access,
        stats.eligibility,
        stats.label_policy,
        stats.idn_policy,
        stats.reserved_labels,
    ] {
        assert_eq!(coverage.by_product.total(), catalog.products.len());
        assert_eq!(coverage.by_selector.total(), stats.selectors.total());
    }
}
