//! Evidence-aware registry assessment over a pinned namespace catalog.

use vstd::prelude::*;
use vstd::utf8::encode_utf8;

use crate::catalog::{catalog_fits, pinned_catalog, Catalog};
use crate::coverage::{catalog_stats, stats_spec};
use crate::checker::{domain_error, error_message, validate_ascii_domain};
use crate::eligibility::{
    append_unknown_eligibility_requirement_findings, assess_eligibility_requirements,
    evaluate_eligibility,
    eligibility_for, foreign_id_finding, foreign_ids, requirement_assessments, requirements_of,
    supplied_ids,
};
use crate::evaluator::{derive_verdict, verdict_for, EvaluationInput};
use crate::evidence::{
    collect_claim_evidence, collect_product_evidence, id_set, product_evidence, sorted_ids,
};
use crate::findings::{
    append_candidate_finding, append_claim_findings, append_namespace_finding,
    append_no_product_finding, append_policy_findings, append_root_finding, candidate_findings,
    claim_findings, findings_view, namespace_findings, no_product_findings, policy_findings,
    root_findings,
};
use crate::label_policy::{evaluate_label_policy, label_policy_result};
use crate::lookup::{find, get, lookup, opt_deref};
use crate::namespace::{
    claim_model, namespace_model, namespace_state_for, root_state_for, root_state_model,
};
use crate::normalize::{
    ascii_lowercase, idna_to_ascii, idna_to_unicode, lemma_chars_within_bytes,
    strip_trailing_dot, to_ascii_lowercase, trim, trim_leading_dots, trimmed, uts46_to_ascii,
    uts46_to_unicode, without_leading_dots, without_trailing_dot,
};
use crate::requirement_set::insert_sorted_id;
use crate::selection::{
    assignment_for, registration_domain, registration_domain_for, select_product_assignment,
};
use crate::text::{find_dot_from, label_count, last_label, last_label_string, lemma_first_sep, str_eq};
use crate::topology::{
    registrable_above, resolve_domain, resolve_suffix, resolved_suffix, shape_against,
};
use crate::types::{
    opt_str_view, opt_string_view, ApplicationChannel, Assessment, CandidateStatus, Claim,
    ClaimStatus, Designation, EligibilityExpression, EligibilityStatus, Evidence, Finding,
    FindingCode, LabelPolicyStatus, NamespaceState, OfferingState, PolicyProfile, PublicAccess,
    RegistrantContext, RegistrationProduct, RegistryStats, RootState, RootTld, SuffixInfo,
    SyntaxStatus,
};

verus! {

/// Evidence-aware access to a namespace and registration-product catalog.
#[derive(Debug)]
pub struct Registry {
    /// The compiled catalog that every lookup and assessment reads.
    pub catalog: Catalog,
}

impl Default for Registry {
    /// A registry backed by the pinned catalog.
    fn default() -> (r: Self)
        ensures
            pinned_catalog(r.catalog),
            catalog_fits(r.catalog),
    {
        Registry::new()
    }
}

/// A resolved product and its concrete allocation boundary.
pub struct MatchedProduct<'a> {
    /// The product's policy record.
    pub product: &'a RegistrationProduct,
    /// Concrete suffix at which the product allocates names.
    pub suffix: String,
    /// Candidate shape relative to the product suffix.
    pub candidate_status: CandidateStatus,
}

/// The product that explicit selectors assign to a name, with its allocation
/// suffix and the name's shape there; none when the selected identifier has
/// no product record.
pub open spec fn matched_product(c: Catalog, d: Seq<char>) -> Option<
    (RegistrationProduct, Seq<char>, CandidateStatus),
> {
    match assignment_for(c.product_by_suffix@, c.product_one_label_below@, c.psl.exception@, d) {
        None => None,
        Some((id, suffix, status)) => match lookup(c.products@, id) {
            None => None,
            Some(p) => Some((p, suffix, status)),
        },
    }
}

/// A matched product as plain values.
pub open spec fn matched_view(m: Option<MatchedProduct>) -> Option<
    (RegistrationProduct, Seq<char>, CandidateStatus),
> {
    match m {
        Some(x) => Some((*x.product, x.suffix@, x.candidate_status)),
        None => None,
    }
}

/// Matches explicit products independently of the prevailing PSL boundary.
pub fn product_for_domain<'a>(catalog: &'a Catalog, ascii_domain: &str) -> (r: Option<
    MatchedProduct<'a>,
>)
    ensures
        matched_view(r) == matched_product(*catalog, ascii_domain@),
{
    let assignment = select_product_assignment(
        ascii_domain,
        &catalog.product_by_suffix,
        &catalog.product_one_label_below,
        &catalog.psl.exception,
    );
    match assignment {
        None => None,
        Some(a) => match find(&catalog.products, a.product_id) {
            None => None,
            Some(k) => {
                proof {
                    crate::lookup::lemma_first_match_facts(catalog.products@, a.product_id@);
                }
                Some(
                    MatchedProduct {
                        product: &catalog.products[k],
                        suffix: a.suffix,
                        candidate_status: a.candidate_status,
                    },
                )
            },
        },
    }
}

/// Caller facts as an optional value.
pub open spec fn context_view(c: Option<&RegistrantContext>) -> Option<RegistrantContext> {
    match c {
        Some(x) => Some(*x),
        None => None,
    }
}

/// A claim with no supported value, as plain values.
pub open spec fn unknown_model<T>() -> (ClaimStatus, Option<T>, Seq<Seq<char>>) {
    (ClaimStatus::Unknown, None, Seq::empty())
}

/// The decision axes of an assessment, as the verdict reads them.
pub open spec fn evaluation_of(r: Assessment) -> EvaluationInput {
    EvaluationInput {
        syntax: r.syntax,
        candidate_status: r.candidate_status,
        root_state: r.root_state,
        namespace_state: r.namespace_state,
        offering_state: r.offering_state,
        public_access: r.public_access,
        eligibility: r.eligibility,
        label_policy: r.label_policy,
    }
}

/// The first reason an input cannot be assessed, as a finding, if any: an
/// empty input, a failed IDNA conversion, an empty name after conversion, or
/// DNS syntax of the lowercased A-label without its terminal dot.
pub open spec fn input_problem(d: Seq<char>) -> Option<(FindingCode, Seq<char>)> {
    if d.len() == 0 {
        Some((FindingCode::InvalidDnsSyntax, "empty domain"@))
    } else {
        match uts46_to_ascii(d) {
            None => Some(
                (FindingCode::InvalidIdna, "input cannot be converted to a valid IDNA A-label"@),
            ),
            Some(x) => {
                let a = without_trailing_dot(ascii_lowercase(x));
                if a.len() == 0 {
                    Some((FindingCode::InvalidDnsSyntax, "empty domain"@))
                } else {
                    match domain_error(encode_utf8(a)) {
                        Some(e) => Some((FindingCode::InvalidDnsSyntax, error_message(e))),
                        None => None,
                    }
                }
            },
        }
    }
}

/// The canonical name of an input: its lowercased A-label without a terminal dot.
pub open spec fn canonical_name(d: Seq<char>) -> Seq<char> {
    without_trailing_dot(ascii_lowercase(uts46_to_ascii(d).unwrap()))
}

/// An invalid-syntax result that consults no namespace data.
pub open spec fn invalid_assessment_spec(
    r: Assessment,
    input: Seq<char>,
    code: FindingCode,
    message: Seq<char>,
) -> bool {
    &&& r.input@ == input
    &&& r.ascii_domain is None
    &&& r.registrable_domain is None
    &&& r.syntax == SyntaxStatus::Invalid
    &&& r.candidate_status == CandidateStatus::Unresolved
    &&& r.suffix is None
    &&& claim_model(r.root_state) == unknown_model::<RootState>()
    &&& claim_model(r.namespace_state) == unknown_model::<NamespaceState>()
    &&& r.product_id is None
    &&& r.product_suffix is None
    &&& claim_model(r.offering_state) == unknown_model::<OfferingState>()
    &&& claim_model(r.public_access) == unknown_model::<PublicAccess>()
    &&& claim_model(r.application_channel) == unknown_model::<ApplicationChannel>()
    &&& r.eligibility == EligibilityStatus::Unknown
    &&& r.eligibility_requirements@.len() == 0
    &&& r.label_policy == LabelPolicyStatus::Unknown
    &&& r.verdict == verdict_for(evaluation_of(r))
    &&& findings_view(r.findings@) == seq![(code, message)]
    &&& r.evidence@.len() == 0
}

/// The product an assessment of `a` reads.
pub open spec fn product_of(c: Catalog, a: Seq<char>) -> Option<RegistrationProduct> {
    match matched_product(c, a) {
        Some((p, _, _)) => Some(p),
        None => None,
    }
}

/// The product allocation suffix of `a`.
pub open spec fn product_suffix_of(c: Catalog, a: Seq<char>) -> Option<Seq<char>> {
    match matched_product(c, a) {
        Some((_, s, _)) => Some(s),
        None => None,
    }
}

/// The shape of `a`: at the product boundary when a product is selected,
/// else at the PSL boundary.
pub open spec fn candidate_status_of(c: Catalog, a: Seq<char>) -> CandidateStatus {
    match matched_product(c, a) {
        Some((_, _, st)) => st,
        None => shape_against(a, label_count(resolved_suffix(c.psl, a).suffix) as int),
    }
}

/// The registrable domain of `a`: at the product boundary when a product is
/// selected, else at the PSL boundary.
pub open spec fn registrable_domain_of(c: Catalog, a: Seq<char>) -> Option<Seq<char>> {
    match matched_product(c, a) {
        Some((_, s, _)) => registration_domain(a, s),
        None => registrable_above(a, label_count(resolved_suffix(c.psl, a).suffix) as int),
    }
}

/// The eligibility expression of the product of `a`.
pub open spec fn expression_of(c: Catalog, a: Seq<char>) -> Option<EligibilityExpression> {
    match product_of(c, a) {
        Some(p) => p.eligibility,
        None => None,
    }
}

/// A claim of the product, or an unknown claim without a product.
pub open spec fn product_claim<T>(p: Option<RegistrationProduct>, f: spec_fn(
    RegistrationProduct,
) -> Claim<T>) -> (ClaimStatus, Option<T>, Seq<Seq<char>>) {
    match p {
        Some(x) => claim_model(f(x)),
        None => unknown_model::<T>(),
    }
}

/// The label-policy outcome for `a`.
pub open spec fn label_policy_of(c: Catalog, a: Seq<char>) -> LabelPolicyStatus {
    match product_of(c, a) {
        Some(p) => label_policy_result(
            p.label_policy,
            registrable_domain_of(c, a),
            product_suffix_of(c, a),
            a,
        ),
        None => LabelPolicyStatus::Unknown,
    }
}

/// The findings of a valid assessment, in order: shape, root, namespace,
/// missing product, unverified root, offering and access claims, foreign
/// caller facts, then policy outcomes.
pub open spec fn valid_findings(
    r: Assessment,
    c: Catalog,
    a: Seq<char>,
    ctx: Option<RegistrantContext>,
) -> Seq<(FindingCode, Seq<char>)> {
    let topology_suffix = resolved_suffix(c.psl, a).suffix;
    let boundary = match product_suffix_of(c, a) {
        Some(s) => s,
        None => topology_suffix,
    };
    let foreign = match ctx {
        None => Seq::empty(),
        Some(cx) => foreign_ids(
            match expression_of(c, a) {
                Some(e) => requirements_of(e),
                None => Seq::empty(),
            },
            supplied_ids(cx),
        ).map_values(|id: Seq<char>| foreign_id_finding(id)),
    };
    candidate_findings(r.candidate_status, boundary, registrable_domain_of(c, a)) + root_findings(
        last_label(a),
        r.root_state,
    ) + namespace_findings(r.namespace_state) + no_product_findings(
        product_of(c, a) is Some,
        r.namespace_state,
        topology_suffix,
    ) + claim_findings("root state"@, r.root_state.status) + claim_findings(
        "offering state"@,
        r.offering_state.status,
    ) + claim_findings("public access"@, r.public_access.status) + foreign + policy_findings(
        product_of(c, a) is Some,
        r.offering_state,
        r.public_access,
        r.eligibility,
        r.label_policy,
    )
}

/// Every evidence identifier that a valid assessment used: those of its
/// claims, of the PSL rule, and of the selected product's policies.
pub open spec fn valid_evidence(r: Assessment, c: Catalog, a: Seq<char>) -> Set<Seq<char>> {
    let topology = match resolved_suffix(c.psl, a).evidence {
        Some(e) => set![e],
        None => Set::empty(),
    };
    let from_product = match product_of(c, a) {
        Some(p) => product_evidence(p),
        None => Set::empty(),
    };
    id_set(r.root_state.evidence@) + id_set(r.namespace_state.evidence@) + id_set(
        r.offering_state.evidence@,
    ) + id_set(r.public_access.evidence@) + id_set(r.application_channel.evidence@) + topology
        + from_product
}

/// The assessment of a syntactically valid canonical name `a`.
pub open spec fn valid_assessment_spec(
    r: Assessment,
    c: Catalog,
    input: Seq<char>,
    a: Seq<char>,
    ctx: Option<RegistrantContext>,
) -> bool {
    let product = product_of(c, a);
    &&& r.input@ == input
    &&& opt_string_view(r.ascii_domain) == Some(a)
    &&& opt_string_view(r.registrable_domain) == registrable_domain_of(c, a)
    &&& r.syntax == SyntaxStatus::Valid
    &&& r.candidate_status == candidate_status_of(c, a)
    &&& r.suffix matches Some(s) && s@ == resolved_suffix(c.psl, a)
    &&& claim_model(r.root_state) == root_state_model(
        lookup(c.roots@, last_label(a)),
        c.special_use@,
        last_label(a),
    )
    &&& claim_model(r.namespace_state) == namespace_model(c.special_use@, a)
    &&& opt_str_view(r.product_id) == match product {
        Some(p) => Some(p.id@),
        None => None,
    }
    &&& opt_string_view(r.product_suffix) == product_suffix_of(c, a)
    &&& claim_model(r.offering_state) == product_claim(
        product,
        |p: RegistrationProduct| p.offering_state,
    )
    &&& claim_model(r.public_access) == product_claim(
        product,
        |p: RegistrationProduct| p.public_access,
    )
    &&& claim_model(r.application_channel) == product_claim(
        product,
        |p: RegistrationProduct| p.application_channel,
    )
    &&& r.eligibility == eligibility_for(expression_of(c, a), r.public_access, ctx)
    &&& r.eligibility_requirements@ == requirement_assessments(expression_of(c, a), ctx)
    &&& r.label_policy == label_policy_of(c, a)
    &&& r.verdict == verdict_for(evaluation_of(r))
    &&& findings_view(r.findings@) == valid_findings(r, c, a, ctx)
    &&& sorted_ids(r.evidence@)
    &&& id_set(r.evidence@) == valid_evidence(r, c, a)
}

/// What an assessment of `domain` against catalog `c` is: an invalid-syntax
/// result naming the first input problem, else the assessment of the
/// canonical name.
pub open spec fn assessment_spec(
    r: Assessment,
    c: Catalog,
    domain: Seq<char>,
    ctx: Option<RegistrantContext>,
) -> bool {
    match input_problem(domain) {
        Some((code, message)) => invalid_assessment_spec(r, domain, code, message),
        None => valid_assessment_spec(r, c, domain, canonical_name(domain), ctx),
    }
}

/// Produces an invalid-syntax result without consulting namespace data.
fn invalid_assessment(input: String, code: FindingCode, message: String) -> (r: Assessment)
    ensures
        invalid_assessment_spec(r, input@, code, message@),
{
    let root_state = Claim::<RootState>::unknown();
    let namespace_state = Claim::<NamespaceState>::unknown();
    let offering_state = Claim::<OfferingState>::unknown();
    let public_access = Claim::<PublicAccess>::unknown();
    let application_channel = Claim::<ApplicationChannel>::unknown();
    let evaluation = EvaluationInput {
        syntax: SyntaxStatus::Invalid,
        candidate_status: CandidateStatus::Unresolved,
        root_state,
        namespace_state,
        offering_state,
        public_access,
        eligibility: EligibilityStatus::Unknown,
        label_policy: LabelPolicyStatus::Unknown,
    };
    let verdict = derive_verdict(&evaluation);
    let mut findings: Vec<Finding> = Vec::new();
    let ghost m = message@;
    findings.push(Finding { code, message });
    let r = Assessment {
        input,
        ascii_domain: None,
        registrable_domain: None,
        syntax: SyntaxStatus::Invalid,
        candidate_status: CandidateStatus::Unresolved,
        suffix: None,
        root_state,
        namespace_state,
        product_id: None,
        product_suffix: None,
        offering_state,
        public_access,
        application_channel,
        eligibility: EligibilityStatus::Unknown,
        eligibility_requirements: Vec::new(),
        label_policy: LabelPolicyStatus::Unknown,
        verdict,
        findings,
        evidence: Vec::new(),
    };
    proof {
        assert(findings_view(r.findings@) =~= seq![(code, m)]);
        lemma_unknown_claim(root_state);
        lemma_unknown_claim(namespace_state);
        lemma_unknown_claim(offering_state);
        lemma_unknown_claim(public_access);
        lemma_unknown_claim(application_channel);
        assert(evaluation == evaluation_of(r));
    }
    r
}

/// A claim without status, value or evidence is the unknown claim.
proof fn lemma_unknown_claim<T>(c: Claim<T>)
    requires
        c.status == ClaimStatus::Unknown,
        c.value is None,
        c.evidence@.len() == 0,
    ensures
        claim_model(c) == unknown_model::<T>(),
{
    assert(crate::requirement_set::ids_view(c.evidence@) =~= Seq::<Seq<char>>::empty());
}

impl Registry {
    /// Assesses a canonical name that passed DNS syntax validation: the
    /// lowercased A-label without a terminal dot, with the original input.
    #[verifier::rlimit(40)]
    pub fn assess_ascii(
        &self,
        input: String,
        ascii_domain: String,
        context: Option<&RegistrantContext>,
    ) -> (r: Assessment)
        requires
            domain_error(encode_utf8(ascii_domain@)) is None,
        ensures
            valid_assessment_spec(r, self.catalog, input@, ascii_domain@, context_view(context)),
    {
        let c = &self.catalog;
        let a = ascii_domain.as_str();
        let ghost ctx = context_view(context);
        proof {
            lemma_chars_within_bytes(a);
        }
        let resolved = resolve_domain(&c.psl, a);
        let product_match = product_for_domain(c, a);
        let product: Option<&RegistrationProduct> = match &product_match {
            Some(m) => Some(m.product),
            None => None,
        };
        let candidate_status = match &product_match {
            Some(m) => m.candidate_status,
            None => resolved.candidate_status,
        };
        let product_suffix: Option<String> = match &product_match {
            Some(m) => Some(m.suffix.clone()),
            None => None,
        };
        let registrable_domain: Option<String> = match &product_match {
            Some(m) => registration_domain_for(a, m.suffix.as_str()),
            None => resolved.registrable_domain.clone(),
        };
        let root = last_label_string(a);
        let root_record = match find(&c.roots, root.as_str()) {
            Some(k) => {
                proof {
                    crate::lookup::lemma_first_match_facts(c.roots@, root@);
                }
                Some(&c.roots[k])
            },
            None => None,
        };
        let root_state = root_state_for(root.as_str(), root_record, &c.special_use);
        let namespace_state = namespace_state_for(a, &c.special_use);
        let offering_state = match product {
            Some(p) => p.offering_state,
            None => Claim::unknown(),
        };
        let public_access = match product {
            Some(p) => p.public_access,
            None => Claim::unknown(),
        };
        let application_channel = match product {
            Some(p) => p.application_channel,
            None => Claim::unknown(),
        };
        proof {
            if product is None {
                lemma_unknown_claim(offering_state);
                lemma_unknown_claim(public_access);
                lemma_unknown_claim(application_channel);
            }
        }
        let expression: Option<&EligibilityExpression> = match product {
            Some(p) => match &p.eligibility {
                Some(e) => Some(e),
                None => None,
            },
            None => None,
        };
        let eligibility = evaluate_eligibility(expression, public_access, context);
        let eligibility_requirements = assess_eligibility_requirements(expression, context);
        let label_policy = match product {
            Some(p) => {
                let policy = match &p.label_policy {
                    Some(l) => Some(l),
                    None => None,
                };
                let registrable = match &registrable_domain {
                    Some(x) => Some(x.as_str()),
                    None => None,
                };
                let suffix = match &product_suffix {
                    Some(x) => Some(x.as_str()),
                    None => None,
                };
                evaluate_label_policy(policy, registrable, suffix, a)
            },
            None => LabelPolicyStatus::Unknown,
        };
        let evaluation = EvaluationInput {
            syntax: SyntaxStatus::Valid,
            candidate_status,
            root_state,
            namespace_state,
            offering_state,
            public_access,
            eligibility,
            label_policy,
        };
        let verdict = derive_verdict(&evaluation);

        let mut findings: Vec<Finding> = Vec::new();
        let boundary = match &product_suffix {
            Some(s) => s.as_str(),
            None => resolved.suffix.suffix.as_str(),
        };
        let registrable = match &registrable_domain {
            Some(x) => Some(x.as_str()),
            None => None,
        };
        append_candidate_finding(candidate_status, boundary, registrable, &mut findings);
        append_root_finding(root.as_str(), root_state, &mut findings);
        append_namespace_finding(namespace_state, &mut findings);
        append_no_product_finding(
            product.is_some(),
            namespace_state,
            resolved.suffix.suffix.as_str(),
            &mut findings,
        );
        append_claim_findings("root state", root_state.status, &mut findings);
        append_claim_findings("offering state", offering_state.status, &mut findings);
        append_claim_findings("public access", public_access.status, &mut findings);
        append_unknown_eligibility_requirement_findings(expression, context, &mut findings);
        append_policy_findings(
            product.is_some(),
            offering_state,
            public_access,
            eligibility,
            label_policy,
            &mut findings,
        );

        let mut evidence: Vec<&'static str> = Vec::new();
        proof {
            assert(crate::requirement_set::ids_view(evidence@) =~= Seq::<Seq<char>>::empty());
        }
        collect_claim_evidence(&root_state, &mut evidence);
        collect_claim_evidence(&namespace_state, &mut evidence);
        collect_claim_evidence(&offering_state, &mut evidence);
        collect_claim_evidence(&public_access, &mut evidence);
        collect_claim_evidence(&application_channel, &mut evidence);
        if let Some(e) = resolved.suffix.evidence {
            insert_sorted_id(&mut evidence, e);
        }
        if let Some(p) = product {
            collect_product_evidence(p, &mut evidence);
        }
        let product_id = match product {
            Some(p) => Some(p.id),
            None => None,
        };
        let r = Assessment {
            input,
            ascii_domain: Some(ascii_domain.clone()),
            registrable_domain,
            syntax: SyntaxStatus::Valid,
            candidate_status,
            suffix: Some(resolved.suffix),
            root_state,
            namespace_state,
            product_id,
            product_suffix,
            offering_state,
            public_access,
            application_channel,
            eligibility,
            eligibility_requirements,
            label_policy,
            verdict,
            findings,
            evidence,
        };
        proof {
            let cc = self.catalog;
            let aa = ascii_domain@;
            let product_s = product_of(cc, aa);
            assert(a@ == aa);
            assert(r.input@ == input@);
            assert(opt_string_view(r.ascii_domain) == Some(aa));
            assert(opt_string_view(r.registrable_domain) == registrable_domain_of(cc, aa));
            assert(r.candidate_status == candidate_status_of(cc, aa));
            assert(r.suffix matches Some(s) && s@ == resolved_suffix(cc.psl, aa));
            assert(claim_model(r.root_state) == root_state_model(
                lookup(cc.roots@, last_label(aa)),
                cc.special_use@,
                last_label(aa),
            ));
            assert(claim_model(r.namespace_state) == namespace_model(cc.special_use@, aa));
            assert(opt_str_view(r.product_id) == match product_s {
                Some(p) => Some(p.id@),
                None => None,
            });
            assert(opt_string_view(r.product_suffix) == product_suffix_of(cc, aa));
            assert(claim_model(r.offering_state) == product_claim(
                product_s,
                |p: RegistrationProduct| p.offering_state,
            ));
            assert(claim_model(r.public_access) == product_claim(
                product_s,
                |p: RegistrationProduct| p.public_access,
            ));
            assert(claim_model(r.application_channel) == product_claim(
                product_s,
                |p: RegistrationProduct| p.application_channel,
            ));
            assert(r.eligibility == eligibility_for(expression_of(cc, aa), r.public_access, ctx));
            assert(r.eligibility_requirements@ == requirement_assessments(expression_of(cc, aa), ctx));
            assert(r.label_policy == label_policy_of(cc, aa));
            assert(r.verdict == verdict_for(evaluation_of(r)));
            assert(findings_view(r.findings@) == valid_findings(r, cc, aa, ctx));
            assert(sorted_ids(r.evidence@));
            assert(id_set(r.evidence@) == valid_evidence(r, cc, aa));
        }
        r
    }
}

impl Registry {
    /// Creates a registry backed by the pinned catalog.
    pub fn new() -> (r: Registry)
        ensures
            pinned_catalog(r.catalog),
            catalog_fits(r.catalog),
    {
        Registry { catalog: Catalog::pinned() }
    }

    /// Whether the catalog's table sizes fit the counters that `stats` reports.
    pub fn stats_fit(&self) -> (r: bool)
        ensures
            r == catalog_fits(self.catalog),
    {
        let c = &self.catalog;
        let exact = c.psl.exact.len();
        let wildcard = c.psl.wildcard.len();
        let exception = c.psl.exception.len();
        let rules_fit = exact <= usize::MAX - wildcard && exact + wildcard <= usize::MAX - exception;
        let selectors_fit = c.product_by_suffix.len() <= usize::MAX - c.product_one_label_below.len();
        rules_fit && selectors_fit
    }

    /// Reports dimensional data coverage without treating PSL import as policy research.
    pub fn stats(&self) -> (r: RegistryStats)
        requires
            catalog_fits(self.catalog),
        ensures
            stats_spec(r, self.catalog),
    {
        catalog_stats(&self.catalog)
    }

    /// Assesses a proposed new registration without registrant-specific facts.
    pub fn assess(&self, domain: &str) -> (r: Assessment)
        ensures
            assessment_spec(r, self.catalog, domain@, None),
    {
        self.assess_internal(domain, None)
    }

    /// Assesses a proposed registration using explicit registrant facts.
    pub fn assess_for(&self, domain: &str, context: &RegistrantContext) -> (r: Assessment)
        ensures
            assessment_spec(r, self.catalog, domain@, Some(*context)),
    {
        self.assess_internal(domain, Some(context))
    }

    /// Implements assessment with optional registrant facts.
    fn assess_internal(&self, domain: &str, context: Option<&RegistrantContext>) -> (r: Assessment)
        ensures
            assessment_spec(r, self.catalog, domain@, context_view(context)),
    {
        let input = domain.to_owned();
        if domain.unicode_len() == 0 {
            return invalid_assessment(input, FindingCode::InvalidDnsSyntax, "empty domain".to_owned());
        }
        let converted = match idna_to_ascii(domain) {
            Some(value) => value,
            None => {
                return invalid_assessment(
                    input,
                    FindingCode::InvalidIdna,
                    "input cannot be converted to a valid IDNA A-label".to_owned(),
                );
            },
        };
        let lowered = to_ascii_lowercase(converted.as_str());
        let ascii_domain = strip_trailing_dot(lowered.as_str()).to_owned();
        if ascii_domain.as_str().unicode_len() == 0 {
            return invalid_assessment(input, FindingCode::InvalidDnsSyntax, "empty domain".to_owned());
        }
        match validate_ascii_domain(ascii_domain.as_str()) {
            Err(message) => {
                return invalid_assessment(input, FindingCode::InvalidDnsSyntax, message);
            },
            Ok(()) => {},
        }
        self.assess_ascii(input, ascii_domain, context)
    }
}

/// `t` extended by the items of `s` that it does not already hold, in order.
pub open spec fn extend_unique(t: Seq<Designation>, s: Seq<Designation>) -> Seq<Designation>
    decreases s.len(),
{
    if s.len() == 0 {
        t
    } else {
        let p = extend_unique(t, s.drop_last());
        if p.contains(s.last()) {
            p
        } else {
            p.push(s.last())
        }
    }
}

/// Whether `v` holds `d`.
fn contains_designation(v: &Vec<Designation>, d: Designation) -> (r: bool)
    ensures
        r == v@.contains(d),
{
    let mut i: usize = 0;
    while i < v.len()
        invariant
            i <= v@.len(),
            forall|j: int| 0 <= j < i ==> v@[j] != d,
        decreases v@.len() - i,
    {
        if v[i] == d {
            return true;
        }
        i = i + 1;
    }
    false
}

/// Extends a designation list without losing independent root or product tags.
fn extend_unique_designations(target: &mut Vec<Designation>, source: &[Designation])
    ensures
        final(target)@ == extend_unique(old(target)@, source@),
{
    let ghost start = target@;
    let mut i: usize = 0;
    proof {
        assert(source@.take(0) =~= Seq::<Designation>::empty());
    }
    while i < source.len()
        invariant
            i <= source@.len(),
            target@ == extend_unique(start, source@.take(i as int)),
        decreases source@.len() - i,
    {
        let d = source[i];
        proof {
            let t = source@.take(i + 1);
            assert(t.drop_last() =~= source@.take(i as int));
            assert(t.last() == d);
        }
        if !contains_designation(target, d) {
            target.push(d);
        }
        i = i + 1;
    }
    proof {
        assert(source@.take(source@.len() as int) =~= source@);
    }
}

/// The canonical name of a suffix-like input: trimmed, without leading dots,
/// converted to a lowercased A-label without a terminal dot, and DNS-valid.
pub open spec fn suffix_name(s: Seq<char>) -> Option<Seq<char>> {
    let n = without_leading_dots(trimmed(s));
    if n.len() == 0 {
        None
    } else {
        match uts46_to_ascii(n) {
            None => None,
            Some(x) => {
                let a = without_trailing_dot(ascii_lowercase(x));
                if domain_error(encode_utf8(a)) is Some {
                    None
                } else {
                    Some(a)
                }
            },
        }
    }
}

/// The suffix that names `a`'s allocation: the product boundary when a
/// product is selected, else the PSL boundary.
pub open spec fn canonical_suffix_of(c: Catalog, a: Seq<char>) -> Seq<char> {
    match product_suffix_of(c, a) {
        Some(s) => s,
        None => resolved_suffix(c.psl, a).suffix,
    }
}

/// The Unicode display form of a canonical suffix, when conversion succeeds
/// and differs from the A-label form.
pub open spec fn display_of(canonical: Seq<char>) -> Option<Seq<char>> {
    let (u, ok) = uts46_to_unicode(canonical);
    if ok && u != canonical {
        Some(u)
    } else {
        None
    }
}

/// The designations of the root record followed by the product's new ones.
pub open spec fn designations_of(c: Catalog, a: Seq<char>) -> Seq<Designation> {
    let from_root = match lookup(c.roots@, last_label(a)) {
        Some(r) => r.designations@,
        None => Seq::empty(),
    };
    let from_product = match product_of(c, a) {
        Some(p) => p.designations@,
        None => Seq::empty(),
    };
    extend_unique(extend_unique(Seq::empty(), from_root), from_product)
}

/// The metadata of the canonical suffix-like name `a`.
pub open spec fn suffix_info_spec(info: SuffixInfo, c: Catalog, a: Seq<char>) -> bool {
    let product = product_of(c, a);
    &&& info.canonical_suffix@ == canonical_suffix_of(c, a)
    &&& opt_string_view(info.display_suffix) == display_of(canonical_suffix_of(c, a))
    &&& info.root@ == last_label(a)
    &&& info.topology@ == resolved_suffix(c.psl, a)
    &&& claim_model(info.root_state) == root_state_model(
        lookup(c.roots@, last_label(a)),
        c.special_use@,
        last_label(a),
    )
    &&& claim_model(info.namespace_state) == namespace_model(c.special_use@, a)
    &&& opt_str_view(info.product_id) == match product {
        Some(p) => Some(p.id@),
        None => None,
    }
    &&& opt_string_view(info.product_suffix) == product_suffix_of(c, a)
    &&& claim_model(info.offering_state) == product_claim(
        product,
        |p: RegistrationProduct| p.offering_state,
    )
    &&& claim_model(info.public_access) == product_claim(
        product,
        |p: RegistrationProduct| p.public_access,
    )
    &&& info.designations@ == designations_of(c, a)
}

/// The metadata of a suffix-like input: none when it has no canonical name.
pub open spec fn suffix_info_result(r: Option<SuffixInfo>, c: Catalog, s: Seq<char>) -> bool {
    match suffix_name(s) {
        None => r is None,
        Some(a) => r matches Some(info) && suffix_info_spec(info, c, a),
    }
}

/// The metadata for the A-label `x` that IDNA conversion returned: none
/// unless its lowercased form without a terminal dot is DNS-valid.
pub open spec fn suffix_info_from_a_label(r: Option<SuffixInfo>, c: Catalog, x: Seq<char>) -> bool {
    let a = without_trailing_dot(ascii_lowercase(x));
    if domain_error(encode_utf8(a)) is Some {
        r is None
    } else {
        r matches Some(info) && suffix_info_spec(info, c, a)
    }
}

/// The root label that the A-label `x` names: lowercased, without a
/// terminal dot, non-empty and without an inner dot.
pub open spec fn root_label_from_a_label(x: Seq<char>) -> Option<Seq<char>> {
    let l = without_trailing_dot(ascii_lowercase(x));
    if l.len() == 0 || l.contains('.') {
        None
    } else {
        Some(l)
    }
}

/// The root label that a label-like input names: trimmed, without leading
/// dots, converted to a lowercased A-label without a terminal dot, non-empty
/// and without an inner dot.
pub open spec fn root_label_of(s: Seq<char>) -> Option<Seq<char>> {
    match uts46_to_ascii(without_leading_dots(trimmed(s))) {
        None => None,
        Some(x) => root_label_from_a_label(x),
    }
}

impl Registry {
    /// Returns namespace and product metadata for a suffix-like input.
    pub fn suffix_info(&self, suffix: &str) -> (r: Option<SuffixInfo>)
        ensures
            suffix_info_result(r, self.catalog, suffix@),
    {
        let normalized = trim_leading_dots(trim(suffix));
        if normalized.unicode_len() == 0 {
            return None;
        }
        match idna_to_ascii(normalized) {
            Some(converted) => self.suffix_info_for_a_label(converted.as_str()),
            None => None,
        }
    }

    /// Metadata for a suffix given as the A-label that IDNA conversion
    /// returned: lowercased, without a terminal dot, and none unless that
    /// name is DNS-valid.
    #[verifier::rlimit(40)]
    pub fn suffix_info_for_a_label(&self, converted: &str) -> (r: Option<SuffixInfo>)
        ensures
            suffix_info_from_a_label(r, self.catalog, converted@),
    {
        let c = &self.catalog;
        let lowered = to_ascii_lowercase(converted);
        let ascii_name = strip_trailing_dot(lowered.as_str()).to_owned();
        if validate_ascii_domain(ascii_name.as_str()).is_err() {
            return None;
        }
        let a = ascii_name.as_str();
        proof {
            lemma_chars_within_bytes(a);
        }
        let topology = resolve_suffix(&c.psl, a);
        let product_match = product_for_domain(c, a);
        let canonical_suffix = match &product_match {
            Some(m) => m.suffix.clone(),
            None => topology.suffix.clone(),
        };
        let root = last_label_string(a);
        let root_record = get(&c.roots, root.as_str());
        let root_state = root_state_for(root.as_str(), root_record, &c.special_use);
        let namespace_state = namespace_state_for(a, &c.special_use);
        let product: Option<&RegistrationProduct> = match &product_match {
            Some(m) => Some(m.product),
            None => None,
        };
        let product_suffix: Option<String> = match &product_match {
            Some(m) => Some(m.suffix.clone()),
            None => None,
        };
        let (unicode_suffix, unicode_ok) = idna_to_unicode(canonical_suffix.as_str());
        let display_suffix = if unicode_ok && !str_eq(unicode_suffix.as_str(), canonical_suffix.as_str()) {
            Some(unicode_suffix)
        } else {
            None
        };
        let mut designations: Vec<Designation> = Vec::new();
        if let Some(record) = root_record {
            extend_unique_designations(&mut designations, record.designations);
        }
        let ghost after_root = designations@;
        if let Some(p) = product {
            extend_unique_designations(&mut designations, p.designations);
        }
        let offering_state = match product {
            Some(p) => p.offering_state,
            None => Claim::unknown(),
        };
        let public_access = match product {
            Some(p) => p.public_access,
            None => Claim::unknown(),
        };
        proof {
            if product is None {
                lemma_unknown_claim(offering_state);
                lemma_unknown_claim(public_access);
            }
            if root_record is None {
                assert(after_root =~= extend_unique(Seq::empty(), Seq::empty()));
            }
            if product is None {
                assert(designations@ == extend_unique(after_root, Seq::empty()));
            }
        }
        let product_id = match product {
            Some(p) => Some(p.id),
            None => None,
        };
        let info = SuffixInfo {
            canonical_suffix,
            display_suffix,
            root,
            topology,
            root_state,
            namespace_state,
            product_id,
            product_suffix,
            offering_state,
            public_access,
            designations,
        };
        Some(info)
    }

    /// Looks up one compiled root record by A-label or U-label.
    pub fn root_tld(&self, label: &str) -> (r: Option<&RootTld>)
        ensures
            match root_label_of(label@) {
                None => r is None,
                Some(l) => opt_deref(r) == lookup(self.catalog.roots@, l),
            },
    {
        let normalized = trim_leading_dots(trim(label));
        match idna_to_ascii(normalized) {
            Some(converted) => self.root_tld_for_a_label(converted.as_str()),
            None => None,
        }
    }

    /// Looks up a root record by the A-label that IDNA conversion returned:
    /// lowercased and without a terminal dot, it must be one non-empty label.
    pub fn root_tld_for_a_label(&self, converted: &str) -> (r: Option<&RootTld>)
        ensures
            match root_label_from_a_label(converted@) {
                None => r is None,
                Some(l) => opt_deref(r) == lookup(self.catalog.roots@, l),
            },
    {
        let lowered = to_ascii_lowercase(converted);
        let ascii_label = strip_trailing_dot(lowered.as_str());
        let len = ascii_label.unicode_len();
        if len == 0 {
            return None;
        }
        let dot = find_dot_from(ascii_label, len, 0);
        proof {
            assert(ascii_label@.skip(0) =~= ascii_label@);
            lemma_first_sep(ascii_label@, '.');
            if ascii_label@.contains('.') {
                let k = choose|k: int| 0 <= k < ascii_label@.len() && ascii_label@[k] == '.';
                assert(ascii_label@[k] == '.');
            }
        }
        if dot < len {
            return None;
        }
        get(&self.catalog.roots, ascii_label)
    }

    /// Looks up one compiled registration product by its stable identifier.
    pub fn registration_product(&self, id: &str) -> (r: Option<&RegistrationProduct>)
        ensures
            opt_deref(r) == lookup(self.catalog.products@, trimmed(id@)),
    {
        get(&self.catalog.products, trim(id))
    }

    /// Looks up one compiled policy profile by its stable identifier.
    pub fn policy_profile(&self, id: &str) -> (r: Option<&PolicyProfile>)
        ensures
            opt_deref(r) == lookup(self.catalog.profiles@, trimmed(id@)),
    {
        get(&self.catalog.profiles, trim(id))
    }

    /// Looks up one stable evidence record.
    pub fn evidence(&self, id: &str) -> (r: Option<&Evidence>)
        ensures
            opt_deref(r) == lookup(self.catalog.evidence@, trimmed(id@)),
    {
        get(&self.catalog.evidence, trim(id))
    }
}

} // verus!
