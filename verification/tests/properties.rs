use tldhax::names;
use tldhax::selection::{registration_domain_for, select_product_assignment};
use tldhax::{
    CandidateStatus, ClaimCounts, ClaimStatus, EligibilityRequirementOutcome, EligibilityStatus,
    FindingCode, NamespaceState, RegistrantContext, Registry, RequirementSet, RootCounts,
    RootState, SelectorCounts, SyntaxStatus, TopologyCounts, Verdict,
};

#[test]
fn standards_reserved_name_is_impossible_while_its_root_stays_delegated() {
    let registry = Registry::new();
    let reserved = registry.assess("example.com");
    assert_eq!(reserved.verdict, Verdict::Impossible);
    assert_eq!(reserved.offering_state.value, None);
    assert_eq!(
        reserved.namespace_state.verified_value(),
        Some(&NamespaceState::SpecialUse)
    );
    assert_eq!(reserved.root_state.verified_value(), Some(&RootState::Delegated));
    assert!(reserved
        .findings
        .iter()
        .any(|f| f.code == FindingCode::SpecialUseNamespace
            && f.message == "candidate is at or below an IANA special-use name"));
}

#[test]
fn topology_and_product_boundaries_are_reported_separately() {
    let registry = Registry::new();
    let suffix = registry.suffix_info("service.gov.uk").expect("known suffix");
    assert_eq!(suffix.topology.suffix, "service.gov.uk");
    assert_eq!(suffix.product_suffix.as_deref(), Some("gov.uk"));
    assert_eq!(suffix.canonical_suffix, "gov.uk");
    assert_eq!(suffix.product_id, Some("govuk"));
    let gov_uk = registry.suffix_info("gov.uk").expect("known suffix");
    assert_eq!(gov_uk.canonical_suffix, "gov.uk");
    assert_eq!(gov_uk.display_suffix, None);
}

#[test]
fn satisfied_facts_for_a_gated_product_are_evaluated() {
    let registry = Registry::new();
    let mut context = RegistrantContext::default();
    context
        .satisfied_requirements
        .insert("govuk-public-sector".to_owned());
    context
        .satisfied_requirements
        .insert("govuk-name-approval".to_owned());
    let assessment = registry.assess_for("service.gov.uk", &context);
    assert_eq!(assessment.candidate_status, CandidateStatus::RegistrableDomain);
    assert_eq!(assessment.registrable_domain.as_deref(), Some("service.gov.uk"));
    assert_eq!(assessment.eligibility, EligibilityStatus::Satisfied);
    assert!(assessment
        .eligibility_requirements
        .iter()
        .all(|r| r.outcome == EligibilityRequirementOutcome::Satisfied));
    assert_eq!(assessment.verdict, Verdict::Indeterminate);
    let unsatisfied_only = {
        let mut ctx = RegistrantContext::default();
        ctx.unsatisfied_requirements
            .insert("govuk-name-approval".to_owned());
        registry.assess_for("service.gov.uk", &ctx)
    };
    assert_eq!(unsatisfied_only.eligibility, EligibilityStatus::Unsatisfied);
    assert_eq!(unsatisfied_only.verdict, Verdict::Impossible);
}

#[test]
fn every_aggregate_evidence_id_resolves_and_covers_each_claim() {
    let registry = Registry::new();
    for name in ["ordinary-candidate.com", "candidate.gov", "max.de", "candidate.local"] {
        let assessment = registry.assess(name);
        for id in &assessment.evidence {
            assert!(registry.evidence(id).is_some(), "{id}");
            let padded = format!("  {id}\n");
            assert_eq!(registry.evidence(&padded).map(|e| e.id), Some(*id));
        }
        for claim_evidence in [
            assessment.root_state.evidence,
            assessment.namespace_state.evidence,
            assessment.offering_state.evidence,
            assessment.public_access.evidence,
            assessment.application_channel.evidence,
        ] {
            for id in claim_evidence {
                assert!(assessment.evidence.contains(id), "{name}: {id}");
            }
        }
        let mut sorted = assessment.evidence.clone();
        sorted.sort_unstable();
        sorted.dedup();
        assert_eq!(sorted, assessment.evidence);
    }
}

#[test]
fn invalid_inputs_name_their_first_problem() {
    let registry = Registry::new();
    let empty = registry.assess("");
    assert_eq!(empty.syntax, SyntaxStatus::Invalid);
    assert_eq!(empty.verdict, Verdict::Impossible);
    assert_eq!(empty.findings.len(), 1);
    assert_eq!(empty.findings[0].code, FindingCode::InvalidDnsSyntax);
    assert_eq!(empty.findings[0].message, "empty domain");
    assert!(empty.evidence.is_empty());
    assert_eq!(empty.root_state.status, ClaimStatus::Unknown);

    let dot = registry.assess(".");
    assert_eq!(dot.findings[0].message, "empty domain");

    let idna = registry.assess("xn--55555577.com");
    assert_eq!(idna.findings[0].code, FindingCode::InvalidIdna);
    assert_eq!(
        idna.findings[0].message,
        "input cannot be converted to a valid IDNA A-label"
    );
    assert_eq!(idna.input, "xn--55555577.com");
    assert_eq!(idna.ascii_domain, None);

    let label = registry.assess("a..com");
    assert_eq!(label.findings[0].code, FindingCode::InvalidDnsSyntax);
    assert_eq!(label.findings[0].message, "DNS syntax: empty label");

    let underscore = registry.assess("foo_bar.com");
    assert_eq!(
        underscore.findings[0].message,
        "DNS syntax: label contains invalid characters"
    );
}

#[test]
fn unicode_and_uppercase_inputs_are_canonicalized() {
    let registry = Registry::new();
    let unicode = registry.assess("bücher.de");
    assert_eq!(unicode.ascii_domain.as_deref(), Some("xn--bcher-kva.de"));
    assert_eq!(unicode.input, "bücher.de");
    let upper = registry.assess("MAX.DE");
    assert_eq!(upper.ascii_domain.as_deref(), Some("max.de"));
    assert_eq!(upper.product_id, Some("de-direct"));
    let info = registry.suffix_info("xn--vuq861b").expect("IDN root");
    assert_eq!(info.display_suffix.as_deref(), Some("信息"));
}

#[test]
fn findings_follow_the_documented_order() {
    let registry = Registry::new();
    let result = registry.assess("www.example.not-a-real-root");
    let codes: Vec<FindingCode> = result.findings.iter().map(|f| f.code).collect();
    assert_eq!(
        codes,
        vec![
            FindingCode::Subdomain,
            FindingCode::RootAbsent,
            FindingCode::NoRegistrationProduct,
            FindingCode::ClaimUnknown,
            FindingCode::ClaimUnknown,
            FindingCode::LabelPolicyIncomplete,
        ]
    );
    assert_eq!(
        result.findings[0].message,
        "input is below registrable domain 'example.not-a-real-root'"
    );
    assert_eq!(
        result.findings[1].message,
        "root label 'not-a-real-root' is absent from the pinned IANA root list"
    );
    assert_eq!(
        result.findings[2].message,
        "no researched registration product is assigned to 'not-a-real-root'"
    );
    assert_eq!(result.findings[3].message, "offering state is unknown");
    assert_eq!(result.findings[4].message, "public access is unknown");

    let bare = registry.assess("gov.uk");
    assert_eq!(bare.findings[0].code, FindingCode::BareSuffix);
    assert_eq!(bare.findings[0].message, "'gov.uk' is a suffix, not a registrable domain");

    let arpa = registry.assess("example.arpa");
    assert!(arpa
        .findings
        .iter()
        .any(|f| f.code == FindingCode::PublicAccessUnavailable
            && f.message == "registration is unavailable to the public"));

    let bank = registry.assess("candidate.bank");
    assert!(bank
        .findings
        .iter()
        .any(|f| f.code == FindingCode::EligibilityRequired
            && f.message == "registrant eligibility and/or approval is required"));

    let mut context = RegistrantContext::default();
    context
        .unsatisfied_requirements
        .insert("bank-regulated-entity".to_owned());
    let failed = registry.assess_for("candidate.bank", &context);
    assert!(failed
        .findings
        .iter()
        .any(|f| f.code == FindingCode::EligibilityFailed));
    assert_eq!(failed.verdict, Verdict::Impossible);
}

#[test]
fn foreign_ids_are_reported_once_each_in_increasing_order() {
    let registry = Registry::new();
    let mut context = RegistrantContext::default();
    context.satisfied_requirements.insert("zeta".to_owned());
    context.unsatisfied_requirements.insert("alpha".to_owned());
    context.satisfied_requirements.insert("alpha".to_owned());
    let result = registry.assess_for("candidate.bank", &context);
    let messages: Vec<&str> = result
        .findings
        .iter()
        .filter(|f| f.code == FindingCode::UnknownEligibilityRequirement)
        .map(|f| f.message.as_str())
        .collect();
    assert_eq!(
        messages,
        vec![
            "supplied eligibility requirement 'alpha' does not apply to the selected product",
            "supplied eligibility requirement 'zeta' does not apply to the selected product",
        ]
    );
    assert_eq!(result.eligibility, EligibilityStatus::Required);
    assert_eq!(result.verdict, registry.assess("candidate.bank").verdict);
}

#[test]
fn requirement_sets_stay_sorted_and_unique() {
    let mut set = RequirementSet::new();
    assert!(set.is_empty());
    assert!(set.insert("b".to_owned()));
    assert!(set.insert("a".to_owned()));
    assert!(!set.insert("b".to_owned()));
    assert_eq!(set.len(), 2);
    assert_eq!(set.get(0), "a");
    assert_eq!(set.get(1), "b");
    assert!(set.contains("a"));
    assert!(!set.contains("c"));
}

#[test]
fn lookups_trim_and_canonicalize_their_keys() {
    let registry = Registry::new();
    assert_eq!(registry.root_tld("COM").map(|r| r.ascii_label), Some("com"));
    assert!(registry.root_tld("co.uk").is_none());
    assert!(registry.root_tld("").is_none());
    assert!(registry.root_tld("not-a-real-root").is_none());
    assert!(registry.registration_product("unknown-product").is_none());
    assert_eq!(registry.evidence(" psl ").map(|e| e.id), Some("psl"));
    assert!(registry.policy_profile(" ").is_none());
    assert!(registry.suffix_info("   ").is_none());
    assert!(registry.suffix_info("..").is_none());
    assert!(registry.suffix_info("bad_label").is_none());
}

#[test]
fn registration_domain_sits_one_label_above_the_product_suffix() {
    assert_eq!(
        registration_domain_for("a.b.gov.uk", "gov.uk").as_deref(),
        Some("b.gov.uk")
    );
    assert_eq!(registration_domain_for("gov.uk", "gov.uk"), None);
    assert_eq!(registration_domain_for("a.b.gov.uk", "de"), None);
    assert_eq!(registration_domain_for("agov.uk", "gov.uk"), None);
}

#[test]
fn no_selector_means_no_assignment() {
    let none = select_product_assignment("candidate.example", &Vec::new(), &Vec::new(), &Vec::new());
    assert!(none.is_none());
}

#[test]
fn counts_add_their_buckets() {
    let claims = ClaimCounts { verified: 1, unknown: 2, stale: 3, conflicting: 4 };
    assert_eq!(claims.total(), 10);
    let roots = RootCounts { current: 5, special_use: 6, absent: 7, unresolved: 8 };
    assert_eq!(roots.total(), 26);
    let topology = TopologyCounts { icann: 9, private: 10 };
    assert_eq!(topology.total(), 19);
    let selectors = SelectorCounts { exact: 11, one_label_below: 12 };
    assert_eq!(selectors.total(), 23);
}

#[test]
fn pinned_statistics_match_the_catalog() {
    let registry = Registry::new();
    let stats = registry.stats();
    assert_eq!(stats.products, registry.catalog.products.len());
    assert_eq!(stats.policy_profiles, registry.catalog.profiles.len());
    assert_eq!(stats.roots.absent, 0);
    assert_eq!(stats.roots.unresolved, 0);
    assert_eq!(stats.topology.private, 2);
    assert_eq!(stats.public_access.by_product.verified, 5);
    assert_eq!(stats.public_access.by_product.unknown, 2);
    assert_eq!(stats.eligibility.by_product.verified, 5);
    assert_eq!(stats.eligibility.by_product.unknown, 2);
    assert_eq!(stats.label_policy.by_product.unknown, registry.catalog.products.len());
}

#[test]
fn contradictory_caller_facts_are_named() {
    let mut context = RegistrantContext::default();
    assert_eq!(tldhax::eligibility::context_conflict(&context), None);
    context.satisfied_requirements.insert("b".to_owned());
    context.unsatisfied_requirements.insert("c".to_owned());
    assert_eq!(tldhax::eligibility::context_conflict(&context), None);
    context.unsatisfied_requirements.insert("b".to_owned());
    assert_eq!(
        tldhax::eligibility::context_conflict(&context).as_deref(),
        Some("requirement identifiers cannot be both satisfied and unsatisfied: b")
    );
    context.satisfied_requirements.insert("a".to_owned());
    context.unsatisfied_requirements.insert("a".to_owned());
    assert_eq!(
        tldhax::eligibility::context_conflict(&context).as_deref(),
        Some("requirement identifiers cannot be both satisfied and unsatisfied: a, b")
    );
}

#[test]
fn product_boundary_governs_shape_while_topology_is_kept() {
    let result = Registry::new().assess("service.gov.uk");
    let topology = result.suffix.clone().expect("PSL match");
    assert_eq!(topology.suffix, "service.gov.uk");
    assert_eq!(result.product_suffix.as_deref(), Some("gov.uk"));
    assert_eq!(result.candidate_status, CandidateStatus::RegistrableDomain);
    assert_eq!(result.registrable_domain.as_deref(), Some("service.gov.uk"));
    let deeper = Registry::new().assess("a.service.gov.uk");
    assert_eq!(deeper.candidate_status, CandidateStatus::Subdomain);
    assert_eq!(deeper.registrable_domain.as_deref(), Some("service.gov.uk"));
    assert_eq!(deeper.verdict, Verdict::Impossible);
}

#[test]
fn stable_names_match_the_bindings() {
    assert_eq!(names::candidate_status(CandidateStatus::RegistrableDomain), "registrable_domain");
    assert_eq!(names::claim_status(ClaimStatus::Conflicting), "conflicting");
    assert_eq!(names::root_state(RootState::SpecialUse), "special_use");
    assert_eq!(names::namespace_state(NamespaceState::Ordinary), "ordinary");
    assert_eq!(names::syntax_status(SyntaxStatus::Invalid), "invalid");
    assert_eq!(names::eligibility_status(EligibilityStatus::NotApplicable), "not_applicable");
    assert_eq!(
        names::finding_code(FindingCode::UnknownEligibilityRequirement),
        "unknown_eligibility_requirement"
    );
    assert_eq!(names::designation(tldhax::Designation::BrandSpec13), "brand_spec13");
}

#[test]
fn foreign_facts_only_add_their_own_findings() {
    let registry = Registry::new();
    let mut context = RegistrantContext::default();
    context.satisfied_requirements.insert("zeta".to_owned());
    context.unsatisfied_requirements.insert("alpha".to_owned());
    let without = registry.assess("candidate.bank");
    let with = registry.assess_for("candidate.bank", &context);
    let kept: Vec<(FindingCode, String)> = with
        .findings
        .iter()
        .filter(|f| f.code != FindingCode::UnknownEligibilityRequirement)
        .map(|f| (f.code, f.message.clone()))
        .collect();
    let plain: Vec<(FindingCode, String)> = without
        .findings
        .iter()
        .map(|f| (f.code, f.message.clone()))
        .collect();
    assert_eq!(kept, plain);
    let foreign: Vec<&str> = with
        .findings
        .iter()
        .filter(|f| f.code == FindingCode::UnknownEligibilityRequirement)
        .map(|f| f.message.as_str())
        .collect();
    assert_eq!(foreign.len(), 2);
    assert!(foreign[0].contains("'alpha'"));
    assert!(foreign[1].contains("'zeta'"));
    assert_eq!(with.eligibility, without.eligibility);
    assert_eq!(with.label_policy, without.label_policy);
    assert_eq!(with.verdict, without.verdict);
    assert_eq!(with.evidence, without.evidence);
    assert_eq!(
        with.eligibility_requirements.len(),
        without.eligibility_requirements.len()
    );
}

#[test]
fn facts_cut_to_the_product_requirements_decide_alike() {
    let registry = Registry::new();
    let mut full = RegistrantContext::default();
    full.satisfied_requirements
        .insert("govuk-public-sector".to_owned());
    full.satisfied_requirements.insert("zeta".to_owned());
    full.unsatisfied_requirements
        .insert("govuk-name-approval".to_owned());
    full.unsatisfied_requirements.insert("alpha".to_owned());
    let mut narrow = RegistrantContext::default();
    narrow
        .satisfied_requirements
        .insert("govuk-public-sector".to_owned());
    narrow
        .unsatisfied_requirements
        .insert("govuk-name-approval".to_owned());
    let a = registry.assess_for("service.gov.uk", &full);
    let b = registry.assess_for("service.gov.uk", &narrow);
    assert_eq!(a.eligibility, EligibilityStatus::Unsatisfied);
    assert_eq!(a.eligibility, b.eligibility);
    assert_eq!(a.label_policy, b.label_policy);
    assert_eq!(a.verdict, b.verdict);
    let outcomes = |r: &tldhax::Assessment| -> Vec<(String, EligibilityRequirementOutcome)> {
        r.eligibility_requirements
            .iter()
            .map(|q| (q.id.to_string(), q.outcome))
            .collect()
    };
    assert_eq!(outcomes(&a), outcomes(&b));
}

#[test]
fn context_changes_only_eligibility_parts() {
    let registry = Registry::new();
    let mut context = RegistrantContext::default();
    context
        .satisfied_requirements
        .insert("govuk-public-sector".to_owned());
    context.unsatisfied_requirements.insert("zeta".to_owned());
    let a = registry.assess("service.gov.uk");
    let b = registry.assess_for("service.gov.uk", &context);
    assert_eq!(b.input, a.input);
    assert_eq!(b.ascii_domain, a.ascii_domain);
    assert_eq!(b.registrable_domain, a.registrable_domain);
    assert_eq!(b.syntax, a.syntax);
    assert_eq!(b.candidate_status, a.candidate_status);
    assert_eq!(b.suffix, a.suffix);
    assert_eq!(b.root_state, a.root_state);
    assert_eq!(b.namespace_state, a.namespace_state);
    assert_eq!(b.product_id, a.product_id);
    assert_eq!(b.product_suffix, a.product_suffix);
    assert_eq!(b.offering_state, a.offering_state);
    assert_eq!(b.public_access, a.public_access);
    assert_eq!(b.application_channel, a.application_channel);
    assert_eq!(b.label_policy, a.label_policy);
    assert_eq!(b.evidence, a.evidence);
    assert_eq!(b.eligibility_requirements.len(), a.eligibility_requirements.len());
    assert!(!a.eligibility_requirements.is_empty());
    for (q, p) in b.eligibility_requirements.iter().zip(a.eligibility_requirements.iter()) {
        assert_eq!(q.id, p.id);
        assert_eq!(q.kind, p.kind);
        assert_eq!(q.value, p.value);
        assert_eq!(q.explanation, p.explanation);
        assert_eq!(q.evidence, p.evidence);
    }
    assert_ne!(b.eligibility, a.eligibility);
}

#[test]
fn assessing_a_validated_a_label_matches_assessing_the_input() {
    let registry = Registry::new();
    let direct = registry.assess_ascii(
        "Candidate.BANK.".to_owned(),
        "candidate.bank".to_owned(),
        None,
    );
    assert_eq!(direct, registry.assess("Candidate.BANK."));
    assert_eq!(direct.ascii_domain.as_deref(), Some("candidate.bank"));
}

#[test]
fn suffix_info_for_a_label_lowercases_and_validates() {
    let registry = Registry::new();
    let info = registry
        .suffix_info_for_a_label("GOV.UK.")
        .expect("valid suffix");
    assert_eq!(info.canonical_suffix, "gov.uk");
    assert_eq!(info.root, "uk");
    assert_eq!(Some(info), registry.suffix_info("gov.uk"));
    assert_eq!(registry.suffix_info_for_a_label("gov..uk"), None);
    assert_eq!(registry.suffix_info_for_a_label(""), None);
}

#[test]
fn root_tld_for_a_label_takes_one_label() {
    let registry = Registry::new();
    let bank = registry.root_tld_for_a_label("BANK.").expect("pinned root");
    assert_eq!(bank.ascii_label, "bank");
    assert!(registry.root_tld_for_a_label("gov.uk").is_none());
    assert!(registry.root_tld_for_a_label("").is_none());
    assert!(registry.root_tld_for_a_label(".").is_none());
}
