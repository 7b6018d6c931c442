use tldhax::catalog::Catalog;
use tldhax::topology::resolve_domain;
use tldhax::{CandidateStatus, PslSection, SuffixRuleKind};

#[test]
fn exact_rule_resolves_registration_boundary() {
    let rules = Catalog::pinned().psl;
    let resolved = resolve_domain(&rules, "example.co.uk");
    assert_eq!(resolved.suffix.suffix, "co.uk");
    assert_eq!(resolved.suffix.rule_kind, SuffixRuleKind::Exact);
    assert_eq!(resolved.suffix.section, Some(PslSection::Icann));
    assert_eq!(resolved.suffix.evidence, Some("psl"));
    assert_eq!(
        resolved.registrable_domain.as_deref(),
        Some("example.co.uk")
    );
    assert_eq!(
        resolved.candidate_status,
        CandidateStatus::RegistrableDomain
    );
}

#[test]
fn wildcard_rule_uses_the_matching_concrete_label() {
    let rules = Catalog::pinned().psl;
    let resolved = resolve_domain(&rules, "bar.foo.ck");
    assert_eq!(resolved.suffix.suffix, "foo.ck");
    assert_eq!(resolved.suffix.matched_rule.as_deref(), Some("*.ck"));
    assert_eq!(resolved.suffix.rule_kind, SuffixRuleKind::Wildcard);
    assert_eq!(resolved.registrable_domain.as_deref(), Some("bar.foo.ck"));
}

#[test]
fn exception_removes_its_leftmost_label() {
    let rules = Catalog::pinned().psl;
    let resolved = resolve_domain(&rules, "foo.www.ck");
    assert_eq!(resolved.suffix.suffix, "ck");
    assert_eq!(resolved.suffix.matched_rule.as_deref(), Some("!www.ck"));
    assert_eq!(resolved.suffix.rule_kind, SuffixRuleKind::Exception);
    assert_eq!(resolved.registrable_domain.as_deref(), Some("www.ck"));
    assert_eq!(resolved.candidate_status, CandidateStatus::Subdomain);
}

#[test]
fn private_rules_retain_their_section() {
    let rules = Catalog::pinned().psl;
    let resolved = resolve_domain(&rules, "alice.github.io");
    assert_eq!(resolved.suffix.suffix, "github.io");
    assert_eq!(resolved.suffix.section, Some(PslSection::Private));
}

#[test]
fn unlisted_name_falls_back_to_its_last_label() {
    let rules = Catalog::pinned().psl;
    let resolved = resolve_domain(&rules, "a.b.zz");
    assert_eq!(resolved.suffix.suffix, "zz");
    assert_eq!(resolved.suffix.rule_kind, SuffixRuleKind::Default);
    assert_eq!(resolved.suffix.matched_rule, None);
    assert_eq!(resolved.suffix.evidence, None);
    assert_eq!(resolved.registrable_domain.as_deref(), Some("b.zz"));
    assert_eq!(resolved.candidate_status, CandidateStatus::Subdomain);

    let bare = resolve_domain(&rules, "co.uk");
    assert_eq!(bare.suffix.suffix, "co.uk");
    assert_eq!(bare.registrable_domain, None);
    assert_eq!(bare.candidate_status, CandidateStatus::BareSuffix);
}
