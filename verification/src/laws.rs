//! Properties of assessments that hold for every input and every catalog.

use vstd::prelude::*;

use crate::normalize::{all_whitespace, lemma_trimmed_padded, trimmed};
use crate::catalog::{
    lemma_ids_within_set, lemma_pinned_evidence_ids_unpadded, lemma_pinned_catalog_cites, lemma_pinned_evidence_resolves,
    lemma_product_cites, pinned_catalog, pinned_evidence_ids, rules_cite_psl, Catalog,
};
use crate::eligibility::{
    context_applies, eval_all, eval_any, eval_expr, fact_for, first_by_id, foreign_id_finding,
    foreign_ids, lemma_supplied_ids, names_requirement, outcome_for, requirement_assessments,
    requirements_of, requirements_of_all, supplied_ids,
};
use crate::evaluator::{law_hard_failure_dominates, law_only_verified_values_decide};
use crate::evidence::id_set;
use crate::findings::findings_view;
use crate::lookup::{first_index, first_match, has_key, is_first_index, lemma_first_match_facts, lookup};
use crate::namespace::{claim_model, under_special_use};
use crate::registry::{
    assessment_spec, canonical_name, evaluation_of, expression_of, input_problem, product_of,
    suffix_info_result, suffix_name,
};
use crate::requirement_set::{lemma_sorted_elements, strictly_sorted};
use crate::text::{label_count, last_label, suffix_from};
use crate::topology::{exception_pred, resolved_suffix, rule_pred, PslRules};
use crate::types::{
    Assessment, CandidateStatus, EligibilityExpression, ClaimStatus, EligibilityRequirementOutcome, FindingCode,
    LabelPolicyStatus, NamespaceState, RegistrantContext, RootState, SuffixInfo, SyntaxStatus, Verdict,
};

verus! {

/// An input that fails IDNA conversion or DNS syntax is impossible, and its
/// assessment reads no namespace or policy data.
pub proof fn law_invalid_input_is_impossible(
    r: Assessment,
    c: Catalog,
    d: Seq<char>,
    ctx: Option<RegistrantContext>,
)
    requires
        assessment_spec(r, c, d, ctx),
        input_problem(d) is Some,
    ensures
        r.syntax == SyntaxStatus::Invalid,
        r.verdict == Verdict::Impossible,
        r.product_id is None,
        r.offering_state.status == ClaimStatus::Unknown,
        r.public_access.status == ClaimStatus::Unknown,
        r.evidence@.len() == 0,
{
    law_hard_failure_dominates(evaluation_of(r));
}

/// A name at or below a special-use name is impossible, whatever is known of
/// its offering or access, and says so in a finding.
pub proof fn law_special_use_is_impossible(
    r: Assessment,
    c: Catalog,
    d: Seq<char>,
    ctx: Option<RegistrantContext>,
)
    requires
        assessment_spec(r, c, d, ctx),
        input_problem(d) is None,
        under_special_use(c.special_use@, canonical_name(d)),
    ensures
        r.namespace_state.verified_spec() == Some(NamespaceState::SpecialUse),
        r.verdict == Verdict::Impossible,
        findings_view(r.findings@).contains(
            (FindingCode::SpecialUseNamespace, "candidate is at or below an IANA special-use name"@),
        ),
{
    law_hard_failure_dominates(evaluation_of(r));
    let v = findings_view(r.findings@);
    let a = canonical_name(d);
    let topology = crate::topology::resolved_suffix(c.psl, a).suffix;
    let boundary = match crate::registry::product_suffix_of(c, a) {
        Some(s) => s,
        None => topology,
    };
    let k = crate::findings::candidate_findings(
        r.candidate_status,
        boundary,
        crate::registry::registrable_domain_of(c, a),
    ).len() + crate::findings::root_findings(last_label(a), r.root_state).len();
    assert(v[k as int] == (
        FindingCode::SpecialUseNamespace,
        "candidate is at or below an IANA special-use name"@,
    ));
}

/// A name whose root is neither a catalog root nor a special-use name is
/// verified absent and impossible.
pub proof fn law_unknown_root_is_impossible(
    r: Assessment,
    c: Catalog,
    d: Seq<char>,
    ctx: Option<RegistrantContext>,
)
    requires
        assessment_spec(r, c, d, ctx),
        input_problem(d) is None,
        lookup(c.roots@, last_label(canonical_name(d))) is None,
        !has_key(c.special_use@, last_label(canonical_name(d))),
    ensures
        r.root_state.verified_spec() == Some(RootState::Absent),
        r.verdict == Verdict::Impossible,
{
    law_hard_failure_dominates(evaluation_of(r));
}

/// A bare suffix or a name below a registrable domain is impossible.
pub proof fn law_non_registrable_shape_is_impossible(
    r: Assessment,
    c: Catalog,
    d: Seq<char>,
    ctx: Option<RegistrantContext>,
)
    requires
        assessment_spec(r, c, d, ctx),
        r.candidate_status == CandidateStatus::BareSuffix || r.candidate_status
            == CandidateStatus::Subdomain,
    ensures
        r.verdict == Verdict::Impossible,
{
    law_hard_failure_dominates(evaluation_of(r));
}

/// Delegation and PSL topology never authorize a registration: without a
/// researched product, offering and access stay unknown and the verdict is
/// never plausible or conditional.
pub proof fn law_topology_never_authorizes(
    r: Assessment,
    c: Catalog,
    d: Seq<char>,
    ctx: Option<RegistrantContext>,
)
    requires
        assessment_spec(r, c, d, ctx),
        input_problem(d) is None ==> product_of(c, canonical_name(d)) is None,
    ensures
        r.offering_state.status == ClaimStatus::Unknown,
        r.public_access.status == ClaimStatus::Unknown,
        r.verdict != Verdict::Plausible,
        r.verdict != Verdict::Conditional,
{
}

/// Every claim's evidence appears in the aggregate evidence of a valid
/// assessment, which is sorted and free of repeats.
pub proof fn law_claim_evidence_is_aggregated(
    r: Assessment,
    c: Catalog,
    d: Seq<char>,
    ctx: Option<RegistrantContext>,
)
    requires
        assessment_spec(r, c, d, ctx),
    ensures
        strictly_sorted(crate::requirement_set::ids_view(r.evidence@)),
        id_set(r.root_state.evidence@).subset_of(id_set(r.evidence@)),
        id_set(r.namespace_state.evidence@).subset_of(id_set(r.evidence@)),
        id_set(r.offering_state.evidence@).subset_of(id_set(r.evidence@)),
        id_set(r.public_access.evidence@).subset_of(id_set(r.evidence@)),
        id_set(r.application_channel.evidence@).subset_of(id_set(r.evidence@)),
{
    if input_problem(d) is Some {
        assert(crate::requirement_set::ids_view(r.evidence@) =~= Seq::<Seq<char>>::empty());
        assert(crate::requirement_set::ids_view(r.root_state.evidence@) =~= Seq::<
            Seq<char>,
        >::empty());
        assert(crate::requirement_set::ids_view(r.namespace_state.evidence@) =~= Seq::<
            Seq<char>,
        >::empty());
        assert(crate::requirement_set::ids_view(r.offering_state.evidence@) =~= Seq::<
            Seq<char>,
        >::empty());
        assert(crate::requirement_set::ids_view(r.public_access.evidence@) =~= Seq::<
            Seq<char>,
        >::empty());
        assert(crate::requirement_set::ids_view(r.application_channel.evidence@) =~= Seq::<
            Seq<char>,
        >::empty());
    }
}

/// Caller facts that name no requirement of the product.
pub open spec fn names_no_requirement(
    ctx: RegistrantContext,
    e: Option<crate::types::EligibilityExpression>,
) -> bool {
    forall|id: Seq<char>|
        (ctx.satisfied_requirements@.contains(id) || ctx.unsatisfied_requirements@.contains(id))
            ==> match e {
            Some(x) => !names_requirement(requirements_of(x), id),
            None => true,
        }
}

/// Supplied facts about requirements the selected product does not have do
/// not count as context: eligibility and verdict are those of an assessment
/// without caller facts.
pub proof fn law_foreign_facts_do_not_activate(
    without: Assessment,
    with: Assessment,
    c: Catalog,
    d: Seq<char>,
    ctx: RegistrantContext,
)
    requires
        assessment_spec(without, c, d, None),
        assessment_spec(with, c, d, Some(ctx)),
        input_problem(d) is None ==> names_no_requirement(
            ctx,
            expression_of(c, canonical_name(d)),
        ),
    ensures
        with.eligibility == without.eligibility,
        with.verdict == without.verdict,
{
    if input_problem(d) is None {
        let a = canonical_name(d);
        if let Some(e) = expression_of(c, a) {
            if crate::eligibility::context_applies(e, ctx) {
                let i = choose|i: int|
                    0 <= i < requirements_of(e).len() && {
                        let id = (#[trigger] requirements_of(e)[i]).id@;
                        ctx.satisfied_requirements@.contains(id)
                            || ctx.unsatisfied_requirements@.contains(id)
                    };
                let id = requirements_of(e)[i].id@;
                assert(names_requirement(requirements_of(e), id));
            }
        }
        law_only_verified_values_decide(evaluation_of(with), evaluation_of(without));
    }
}

/// An explicitly empty context has the same missing-context semantics as no
/// context: the same eligibility, requirement outcomes, findings and verdict.
pub proof fn law_empty_context_is_absent_context(
    without: Assessment,
    with: Assessment,
    c: Catalog,
    d: Seq<char>,
    ctx: RegistrantContext,
)
    requires
        assessment_spec(without, c, d, None),
        assessment_spec(with, c, d, Some(ctx)),
        ctx.satisfied_requirements@.len() == 0,
        ctx.unsatisfied_requirements@.len() == 0,
    ensures
        with.eligibility == without.eligibility,
        with.eligibility_requirements@ == without.eligibility_requirements@,
        findings_view(with.findings@) == findings_view(without.findings@),
        with.verdict == without.verdict,
{
    if input_problem(d) is None {
        let a = canonical_name(d);
        let e = expression_of(c, a);
        assert(names_no_requirement(ctx, e));
        law_foreign_facts_do_not_activate(without, with, c, d, ctx);
        assert(requirement_assessments(e, Some(ctx)) =~= requirement_assessments(e, None));
        let empty = Seq::<Seq<char>>::empty();
        lemma_sorted_elements(empty);
        assert(ctx.satisfied_requirements@.to_set() + ctx.unsatisfied_requirements@.to_set()
            =~= empty.to_set());
        assert(supplied_ids(ctx) =~= empty);
        let reqs = match e {
            Some(x) => requirements_of(x),
            None => Seq::empty(),
        };
        assert(foreign_ids(reqs, empty) =~= empty);
        law_only_verified_values_decide(evaluation_of(with), evaluation_of(without));
        assert(findings_view(with.findings@) =~= findings_view(without.findings@));
    }
}

/// Inputs with the same canonical name, such as a Unicode and an ASCII
/// spelling or a name with and without its terminal dot, are assessed alike.
pub proof fn law_canonical_inputs_assess_alike(
    r1: Assessment,
    r2: Assessment,
    c: Catalog,
    d1: Seq<char>,
    d2: Seq<char>,
    ctx: Option<RegistrantContext>,
)
    requires
        assessment_spec(r1, c, d1, ctx),
        assessment_spec(r2, c, d2, ctx),
        input_problem(d1) is None,
        input_problem(d2) is None,
        canonical_name(d1) == canonical_name(d2),
    ensures
        crate::types::opt_string_view(r1.ascii_domain) == crate::types::opt_string_view(
            r2.ascii_domain,
        ),
        r1.syntax == r2.syntax,
        r1.candidate_status == r2.candidate_status,
        crate::types::opt_str_view(r1.product_id) == crate::types::opt_str_view(r2.product_id),
        r1.eligibility == r2.eligibility,
        r1.eligibility_requirements@ == r2.eligibility_requirements@,
        r1.label_policy == r2.label_policy,
        r1.verdict == r2.verdict,
        findings_view(r1.findings@) == findings_view(r2.findings@),
        crate::requirement_set::ids_view(r1.evidence@) == crate::requirement_set::ids_view(
            r2.evidence@,
        ),
{
    let a = canonical_name(d1);
    law_only_verified_values_decide(evaluation_of(r1), evaluation_of(r2));
    crate::requirement_set::lemma_sorted_by_set_unique(
        crate::requirement_set::ids_view(r1.evidence@),
        crate::requirement_set::ids_view(r2.evidence@),
    );
    assert(findings_view(r1.findings@) =~= findings_view(r2.findings@));
}


/// Suffix-like inputs with the same canonical name, such as a U-label and its
/// A-label, describe the same suffix.
pub proof fn law_suffix_info_is_canonical(
    i1: Option<SuffixInfo>,
    i2: Option<SuffixInfo>,
    c: Catalog,
    s1: Seq<char>,
    s2: Seq<char>,
)
    requires
        suffix_info_result(i1, c, s1),
        suffix_info_result(i2, c, s2),
        suffix_name(s1) == suffix_name(s2),
    ensures
        i1 is Some <==> i2 is Some,
        i1 matches Some(x) ==> i2 matches Some(y) && x.canonical_suffix@ == y.canonical_suffix@
            && x.root@ == y.root@ && x.topology@ == y.topology@ && claim_model(x.root_state)
            == claim_model(y.root_state) && claim_model(x.namespace_state) == claim_model(
            y.namespace_state,
        ) && crate::types::opt_str_view(x.product_id) == crate::types::opt_str_view(y.product_id)
            && x.designations@ == y.designations@,
{
}


/// `first_by_id` keeps at most one requirement per identifier.
proof fn lemma_first_by_id_distinct(reqs: Seq<crate::types::EligibilityRequirement>)
    ensures
        forall|i: int, j: int|
            0 <= i < j < first_by_id(reqs).len() ==> (#[trigger] first_by_id(reqs)[i]).id@
                != (#[trigger] first_by_id(reqs)[j]).id@,
    decreases reqs.len(),
{
    if reqs.len() > 0 {
        let prev = first_by_id(reqs.drop_last());
        lemma_first_by_id_distinct(reqs.drop_last());
        if !names_requirement(prev, reqs.last().id@) {
            let next = prev.push(reqs.last());
            assert forall|i: int, j: int| 0 <= i < j < next.len() implies (#[trigger] next[i]).id@
                != (#[trigger] next[j]).id@ by {
                if j == next.len() - 1 {
                    assert(next[i] == prev[i]);
                    assert(next[j] == reqs.last());
                } else {
                    assert(next[i] == prev[i] && next[j] == prev[j]);
                }
            }
        }
    }
}

/// Each requirement of the selected product is listed once, and its outcome
/// is satisfied or unsatisfied only when the caller lists it on exactly that
/// side; a requirement the caller does not decide remains unknown.
pub proof fn law_requirement_outcomes(
    r: Assessment,
    c: Catalog,
    d: Seq<char>,
    ctx: Option<RegistrantContext>,
)
    requires
        assessment_spec(r, c, d, ctx),
    ensures
        forall|i: int, j: int|
            0 <= i < j < r.eligibility_requirements@.len() ==> (
            #[trigger] r.eligibility_requirements@[i]).id@ != (
            #[trigger] r.eligibility_requirements@[j]).id@,
        forall|i: int|
            0 <= i < r.eligibility_requirements@.len() ==> {
                let a = #[trigger] r.eligibility_requirements@[i];
                let (s, u) = match ctx {
                    Some(cx) => (
                        cx.satisfied_requirements@.contains(a.id@),
                        cx.unsatisfied_requirements@.contains(a.id@),
                    ),
                    None => (false, false),
                };
                &&& a.outcome == EligibilityRequirementOutcome::Satisfied <==> (s && !u)
                &&& a.outcome == EligibilityRequirementOutcome::Unsatisfied <==> (!s && u)
                &&& a.outcome == EligibilityRequirementOutcome::Unknown <==> (s == u)
            },
{
    if input_problem(d) is None {
        let a = canonical_name(d);
        if let Some(e) = expression_of(c, a) {
            let kept = first_by_id(requirements_of(e));
            lemma_first_by_id_distinct(requirements_of(e));
            assert forall|i: int, j: int|
                0 <= i < j < r.eligibility_requirements@.len() implies (
                #[trigger] r.eligibility_requirements@[i]).id@ != (
                #[trigger] r.eligibility_requirements@[j]).id@ by {
                assert(r.eligibility_requirements@[i].id == kept[i].id);
                assert(r.eligibility_requirements@[j].id == kept[j].id);
            }
        }
    }
}


/// An omitted label policy is never read as a passing one: the label outcome
/// is unknown and the verdict is neither plausible nor conditional.
pub proof fn law_missing_label_policy_never_passes(
    r: Assessment,
    c: Catalog,
    d: Seq<char>,
    ctx: Option<RegistrantContext>,
)
    requires
        assessment_spec(r, c, d, ctx),
        input_problem(d) is None,
        product_of(c, canonical_name(d)) matches Some(p) ==> p.label_policy is None,
    ensures
        r.label_policy == LabelPolicyStatus::Unknown,
        r.verdict != Verdict::Plausible,
        r.verdict != Verdict::Conditional,
{
}

/// The PSL match cites the PSL whenever it cites anything, when every rule does.
proof fn lemma_resolved_cites_psl(rules: PslRules, d: Seq<char>)
    requires
        rules_cite_psl(rules.exact@),
        rules_cite_psl(rules.wildcard@),
        rules_cite_psl(rules.exception@),
    ensures
        resolved_suffix(rules, d).evidence matches Some(e) ==> e == "psl"@,
{
    let n = label_count(d) as int;
    match first_index(exception_pred(rules, d), n) {
        Some(i) => {
            assert(is_first_index(exception_pred(rules, d), n, i));
            lemma_first_match_facts(rules.exception@, suffix_from(d, i));
        },
        None => match first_index(rule_pred(rules, d), n) {
            Some(i) => {
                assert(is_first_index(rule_pred(rules, d), n, i));
                lemma_first_match_facts(rules.exact@, suffix_from(d, i));
                lemma_first_match_facts(rules.wildcard@, suffix_from(d, i + 1));
            },
            None => {},
        },
    }
}

/// Every evidence identifier that an assessment against the pinned catalog
/// cites names an evidence record of that catalog, so `Registry::evidence`
/// finds it.
pub proof fn law_evidence_ids_resolve(
    r: Assessment,
    c: Catalog,
    d: Seq<char>,
    ctx: Option<RegistrantContext>,
)
    requires
        pinned_catalog(c),
        assessment_spec(r, c, d, ctx),
    ensures
        forall|x: Seq<char>|
            #[trigger] id_set(r.evidence@).contains(x) ==> (lookup(c.evidence@, x) matches Some(e)
                && e.id@ == x),
        id_set(r.evidence@).subset_of(pinned_evidence_ids()),
{
    lemma_pinned_evidence_resolves(c);
    let k = pinned_evidence_ids();
    if input_problem(d) is None {
        let a = canonical_name(d);
        let root = last_label(a);
        lemma_pinned_catalog_cites(c);
        lemma_first_match_facts(c.roots@, root);
        if let Some(rec) = lookup(c.roots@, root) {
            let i = first_match(c.roots@, root).unwrap();
            assert(c.roots@[i] == rec);
            assert(id_set(r.root_state.evidence@) == id_set(rec.state.evidence@));
        } else {
            lemma_ids_within_set(crate::requirement_set::ids_view(r.root_state.evidence@), k);
        }
        lemma_ids_within_set(crate::requirement_set::ids_view(r.namespace_state.evidence@), k);
        if let Some(p) = product_of(c, a) {
            let id = crate::selection::assignment_for(
                c.product_by_suffix@,
                c.product_one_label_below@,
                c.psl.exception@,
                a,
            ).unwrap().0;
            lemma_first_match_facts(c.products@, id);
            let i = first_match(c.products@, id).unwrap();
            assert(c.products@[i] == p);
            lemma_product_cites(p, k);
            assert(id_set(r.offering_state.evidence@) == id_set(p.offering_state.evidence@));
            assert(id_set(r.public_access.evidence@) == id_set(p.public_access.evidence@));
            assert(id_set(r.application_channel.evidence@) == id_set(
                p.application_channel.evidence@,
            ));
        } else {
            assert(crate::requirement_set::ids_view(r.offering_state.evidence@) =~= Seq::<
                Seq<char>,
            >::empty());
            assert(crate::requirement_set::ids_view(r.public_access.evidence@) =~= Seq::<
                Seq<char>,
            >::empty());
            assert(crate::requirement_set::ids_view(r.application_channel.evidence@) =~= Seq::<
                Seq<char>,
            >::empty());
        }
        lemma_resolved_cites_psl(c.psl, a);
        assert(crate::registry::valid_evidence(r, c, a).subset_of(k));
    } else {
        assert(id_set(r.evidence@) =~= Set::<Seq<char>>::empty());
    }
}

/// A finding about a supplied identifier that the product does not have.
pub open spec fn is_foreign_finding(f: (FindingCode, Seq<char>)) -> bool {
    f.0 == FindingCode::UnknownEligibilityRequirement
}

/// Filtering keeps a list whose items all pass.
proof fn lemma_filter_keeps_all<A>(s: Seq<A>, p: spec_fn(A) -> bool)
    requires
        forall|i: int| 0 <= i < s.len() ==> p(#[trigger] s[i]),
    ensures
        s.filter(p) == s,
    decreases s.len(),
{
    reveal(Seq::filter);
    if s.len() > 0 {
        lemma_filter_keeps_all(s.drop_last(), p);
        assert(s.last() == s[s.len() - 1]);
        assert(s.drop_last().push(s.last()) =~= s);
    }
}

/// Filtering empties a list whose items all fail.
proof fn lemma_filter_drops_all<A>(s: Seq<A>, p: spec_fn(A) -> bool)
    requires
        forall|i: int| 0 <= i < s.len() ==> !p(#[trigger] s[i]),
    ensures
        s.filter(p) == Seq::<A>::empty(),
    decreases s.len(),
{
    reveal(Seq::filter);
    if s.len() > 0 {
        lemma_filter_drops_all(s.drop_last(), p);
        assert(s.last() == s[s.len() - 1]);
    }
}

/// `first_by_id` keeps only requirements of its input.
proof fn lemma_first_by_id_named(reqs: Seq<crate::types::EligibilityRequirement>)
    ensures
        forall|i: int|
            0 <= i < first_by_id(reqs).len() ==> names_requirement(
                reqs,
                (#[trigger] first_by_id(reqs)[i]).id@,
            ),
    decreases reqs.len(),
{
    if reqs.len() > 0 {
        let prev = first_by_id(reqs.drop_last());
        lemma_first_by_id_named(reqs.drop_last());
        assert forall|i: int| 0 <= i < first_by_id(reqs).len() implies names_requirement(
            reqs,
            (#[trigger] first_by_id(reqs)[i]).id@,
        ) by {
            if i < prev.len() {
                assert(first_by_id(reqs)[i] == prev[i]);
                let j = choose|j: int|
                    0 <= j < reqs.drop_last().len() && (#[trigger] reqs.drop_last()[j]).id@
                        == prev[i].id@;
                assert(reqs[j] == reqs.drop_last()[j]);
            } else {
                assert(first_by_id(reqs)[i] == reqs.last());
                assert(reqs[reqs.len() - 1] == reqs.last());
            }
        }
    }
}

/// Without facts about its requirements, each requirement's outcome is the
/// same as without any caller facts.
proof fn lemma_outcomes_without_facts(e: Option<EligibilityExpression>, ctx: RegistrantContext)
    requires
        names_no_requirement(ctx, e),
    ensures
        requirement_assessments(e, Some(ctx)) == requirement_assessments(e, None),
{
    if let Some(x) = e {
        let kept = first_by_id(requirements_of(x));
        lemma_first_by_id_named(requirements_of(x));
        assert forall|i: int| 0 <= i < kept.len() implies outcome_for(
            Some(ctx),
            (#[trigger] kept[i]).id@,
        ) == outcome_for(None, kept[i].id@) by {
            let id = kept[i].id@;
            assert(names_requirement(requirements_of(x), id));
        }
        assert(requirement_assessments(e, Some(ctx)) =~= requirement_assessments(e, None));
    }
}

/// Every supplied identifier is foreign when the facts name no requirement.
proof fn lemma_all_supplied_foreign(e: Option<EligibilityExpression>, ctx: RegistrantContext)
    requires
        names_no_requirement(ctx, e),
    ensures
        foreign_ids(
            match e {
                Some(x) => requirements_of(x),
                None => Seq::empty(),
            },
            supplied_ids(ctx),
        ) == supplied_ids(ctx),
{
    let reqs = match e {
        Some(x) => requirements_of(x),
        None => Seq::empty(),
    };
    lemma_supplied_ids(ctx);
    let sup = supplied_ids(ctx);
    assert forall|i: int| 0 <= i < sup.len() implies !names_requirement(reqs, #[trigger] sup[i]) by {
        assert(sup.to_set().contains(sup[i]));
        let id = sup[i];
        if ctx.satisfied_requirements@.to_set().contains(id) {
            assert(ctx.satisfied_requirements@.contains(id));
        } else {
            assert(ctx.unsatisfied_requirements@.contains(id));
        }
        if e is None {
            assert(!names_requirement(reqs, id));
        }
    }
    lemma_filter_keeps_all(sup, |id: Seq<char>| !names_requirement(reqs, id));
}

/// Splitting findings around a block of foreign findings.
proof fn lemma_split_findings(
    head: Seq<(FindingCode, Seq<char>)>,
    foreign: Seq<(FindingCode, Seq<char>)>,
    tail: Seq<(FindingCode, Seq<char>)>,
)
    requires
        forall|i: int| 0 <= i < head.len() ==> !is_foreign_finding(#[trigger] head[i]),
        forall|i: int| 0 <= i < tail.len() ==> !is_foreign_finding(#[trigger] tail[i]),
        forall|i: int| 0 <= i < foreign.len() ==> is_foreign_finding(#[trigger] foreign[i]),
    ensures
        (head + foreign + tail).filter(|f: (FindingCode, Seq<char>)| !is_foreign_finding(f))
            == head + tail,
        (head + foreign + tail).filter(|f: (FindingCode, Seq<char>)| is_foreign_finding(f))
            == foreign,
{
    let keep = |f: (FindingCode, Seq<char>)| !is_foreign_finding(f);
    let pick = |f: (FindingCode, Seq<char>)| is_foreign_finding(f);
    lemma_filter_keeps_all(head, keep);
    lemma_filter_keeps_all(tail, keep);
    lemma_filter_drops_all(foreign, keep);
    lemma_filter_drops_all(head, pick);
    lemma_filter_drops_all(tail, pick);
    lemma_filter_keeps_all(foreign, pick);
    Seq::filter_distributes_over_add(head + foreign, tail, keep);
    Seq::filter_distributes_over_add(head, foreign, keep);
    Seq::filter_distributes_over_add(head + foreign, tail, pick);
    Seq::filter_distributes_over_add(head, foreign, pick);
    assert((head + foreign + tail).filter(keep) =~= head + tail);
    assert((head + foreign + tail).filter(pick) =~= foreign);
}

/// The findings of a valid assessment around its foreign findings.
pub open spec fn head_findings(r: Assessment, c: Catalog, a: Seq<char>) -> Seq<
    (FindingCode, Seq<char>),
> {
    let topology_suffix = resolved_suffix(c.psl, a).suffix;
    let boundary = match crate::registry::product_suffix_of(c, a) {
        Some(x) => x,
        None => topology_suffix,
    };
    crate::findings::candidate_findings(
        r.candidate_status,
        boundary,
        crate::registry::registrable_domain_of(c, a),
    ) + crate::findings::root_findings(last_label(a), r.root_state)
        + crate::findings::namespace_findings(r.namespace_state)
        + crate::findings::no_product_findings(product_of(c, a) is Some, r.namespace_state, topology_suffix)
        + crate::findings::claim_findings("root state"@, r.root_state.status)
        + crate::findings::claim_findings("offering state"@, r.offering_state.status)
        + crate::findings::claim_findings("public access"@, r.public_access.status)
}

/// The policy findings of a valid assessment.
pub open spec fn tail_findings(r: Assessment, c: Catalog, a: Seq<char>) -> Seq<
    (FindingCode, Seq<char>),
> {
    crate::findings::policy_findings(
        product_of(c, a) is Some,
        r.offering_state,
        r.public_access,
        r.eligibility,
        r.label_policy,
    )
}

/// A list of findings none of which is about a foreign identifier.
pub open spec fn no_foreign(s: Seq<(FindingCode, Seq<char>)>) -> bool {
    forall|i: int| 0 <= i < s.len() ==> !is_foreign_finding(#[trigger] s[i])
}

/// Joining two lists without foreign findings gives one without them.
proof fn lemma_no_foreign_add(a: Seq<(FindingCode, Seq<char>)>, b: Seq<(FindingCode, Seq<char>)>)
    requires
        no_foreign(a),
        no_foreign(b),
    ensures
        no_foreign(a + b),
{
    assert forall|i: int| 0 <= i < (a + b).len() implies !is_foreign_finding(#[trigger] (a + b)[i]) by {
        if i < a.len() {
            assert((a + b)[i] == a[i]);
        } else {
            assert((a + b)[i] == b[i - a.len()]);
        }
    }
}

/// The structural findings are never about a foreign identifier.
proof fn lemma_structural_not_foreign(r: Assessment, c: Catalog, a: Seq<char>)
    ensures
        no_foreign(head_findings(r, c, a)),
{
    let topology_suffix = resolved_suffix(c.psl, a).suffix;
    let boundary = match crate::registry::product_suffix_of(c, a) {
        Some(x) => x,
        None => topology_suffix,
    };
    let p1 = crate::findings::candidate_findings(
        r.candidate_status,
        boundary,
        crate::registry::registrable_domain_of(c, a),
    );
    let p2 = crate::findings::root_findings(last_label(a), r.root_state);
    let p3 = crate::findings::namespace_findings(r.namespace_state);
    let p4 = crate::findings::no_product_findings(
        product_of(c, a) is Some,
        r.namespace_state,
        topology_suffix,
    );
    let p5 = crate::findings::claim_findings("root state"@, r.root_state.status);
    let p6 = crate::findings::claim_findings("offering state"@, r.offering_state.status);
    let p7 = crate::findings::claim_findings("public access"@, r.public_access.status);
    assert(no_foreign(p1));
    assert(no_foreign(p2));
    assert(no_foreign(p3));
    assert(no_foreign(p4));
    assert(no_foreign(p5));
    assert(no_foreign(p6));
    assert(no_foreign(p7));
    lemma_no_foreign_add(p1, p2);
    lemma_no_foreign_add(p1 + p2, p3);
    lemma_no_foreign_add(p1 + p2 + p3, p4);
    lemma_no_foreign_add(p1 + p2 + p3 + p4, p5);
    lemma_no_foreign_add(p1 + p2 + p3 + p4 + p5, p6);
    lemma_no_foreign_add(p1 + p2 + p3 + p4 + p5 + p6, p7);
}

/// The policy findings are never about a foreign identifier.
proof fn lemma_policy_not_foreign(r: Assessment, c: Catalog, a: Seq<char>)
    ensures
        no_foreign(tail_findings(r, c, a)),
{
    let t = tail_findings(r, c, a);
    assert forall|i: int| 0 <= i < t.len() implies !is_foreign_finding(#[trigger] t[i]) by {}
}

/// Caller facts that name no requirement of the selected product change
/// nothing but the findings: the assessment with them, without its
/// `UnknownEligibilityRequirement` findings, has the findings of the one
/// without them, and those findings are one per supplied identifier, in
/// increasing order; eligibility, requirement outcomes, label policy,
/// verdict and evidence are the same.
pub proof fn law_context_adds_only_foreign_findings(
    without: Assessment,
    with: Assessment,
    c: Catalog,
    d: Seq<char>,
    ctx: RegistrantContext,
)
    requires
        assessment_spec(without, c, d, None),
        assessment_spec(with, c, d, Some(ctx)),
        input_problem(d) is None ==> names_no_requirement(
            ctx,
            expression_of(c, canonical_name(d)),
        ),
    ensures
        with.eligibility == without.eligibility,
        with.eligibility_requirements@ == without.eligibility_requirements@,
        with.label_policy == without.label_policy,
        with.verdict == without.verdict,
        crate::requirement_set::ids_view(with.evidence@) == crate::requirement_set::ids_view(
            without.evidence@,
        ),
        findings_view(with.findings@).filter(|f: (FindingCode, Seq<char>)| !is_foreign_finding(f))
            == findings_view(without.findings@),
        input_problem(d) is None ==> findings_view(with.findings@).filter(
            |f: (FindingCode, Seq<char>)| is_foreign_finding(f),
        ) == supplied_ids(ctx).map_values(|id: Seq<char>| foreign_id_finding(id)),
        input_problem(d) is None ==> strictly_sorted(supplied_ids(ctx)),
        input_problem(d) is None ==> supplied_ids(ctx).to_set()
            == ctx.satisfied_requirements@.to_set() + ctx.unsatisfied_requirements@.to_set(),
{
    law_foreign_facts_do_not_activate(without, with, c, d, ctx);
    if input_problem(d) is None {
        let a = canonical_name(d);
        let e = expression_of(c, a);
        lemma_supplied_ids(ctx);
        lemma_outcomes_without_facts(e, ctx);
        lemma_all_supplied_foreign(e, ctx);
        let foreign = supplied_ids(ctx).map_values(|id: Seq<char>| foreign_id_finding(id));
        let head = head_findings(with, c, a);
        let tail = tail_findings(with, c, a);
        assert(findings_view(with.findings@) == head + foreign + tail);
        assert(head_findings(without, c, a) == head);
        assert(tail_findings(without, c, a) == tail);
        assert(findings_view(without.findings@) =~= head + tail);
        lemma_structural_not_foreign(with, c, a);
        lemma_policy_not_foreign(with, c, a);
        lemma_split_findings(head, foreign, tail);
        crate::requirement_set::lemma_sorted_by_set_unique(
            crate::requirement_set::ids_view(with.evidence@),
            crate::requirement_set::ids_view(without.evidence@),
        );
    } else {
        let keep = |f: (FindingCode, Seq<char>)| !is_foreign_finding(f);
        assert forall|i: int| 0 <= i < findings_view(with.findings@).len() implies keep(
            #[trigger] findings_view(with.findings@)[i],
        ) by {}
        lemma_filter_keeps_all(findings_view(with.findings@), keep);
        assert(crate::requirement_set::ids_view(with.evidence@) =~= crate::requirement_set::ids_view(
            without.evidence@,
        ));
    }
}

/// The two sets of caller facts decide every requirement in `reqs` alike.
pub open spec fn facts_agree(
    reqs: Seq<crate::types::EligibilityRequirement>,
    c1: RegistrantContext,
    c2: RegistrantContext,
) -> bool {
    forall|i: int|
        0 <= i < reqs.len() ==> fact_for(c1, (#[trigger] reqs[i]).id@) == fact_for(c2, reqs[i].id@)
}

/// Agreement on a joined list is agreement on each part.
proof fn lemma_facts_agree_split(
    a: Seq<crate::types::EligibilityRequirement>,
    b: Seq<crate::types::EligibilityRequirement>,
    c1: RegistrantContext,
    c2: RegistrantContext,
)
    requires
        facts_agree(a + b, c1, c2),
    ensures
        facts_agree(a, c1, c2),
        facts_agree(b, c1, c2),
{
    assert forall|i: int| 0 <= i < a.len() implies fact_for(c1, (#[trigger] a[i]).id@) == fact_for(
        c2,
        a[i].id@,
    ) by {
        assert((a + b)[i] == a[i]);
    }
    assert forall|i: int| 0 <= i < b.len() implies fact_for(c1, (#[trigger] b[i]).id@) == fact_for(
        c2,
        b[i].id@,
    ) by {
        assert((a + b)[i + a.len()] == b[i]);
    }
}

/// An expression's value depends only on the facts about its requirements.
proof fn lemma_eval_expr_agrees(e: EligibilityExpression, c1: RegistrantContext, c2: RegistrantContext)
    requires
        facts_agree(requirements_of(e), c1, c2),
    ensures
        eval_expr(e, c1) == eval_expr(e, c2),
    decreases e,
{
    match e {
        EligibilityExpression::Requirement(r) => {
            assert(requirements_of(e)[0] == r);
        },
        EligibilityExpression::All(xs) => {
            lemma_eval_list_agrees(xs@, c1, c2);
        },
        EligibilityExpression::Any(xs) => {
            lemma_eval_list_agrees(xs@, c1, c2);
        },
    }
}

/// A conjunction or disjunction depends only on the facts about the
/// requirements of its members.
proof fn lemma_eval_list_agrees(
    xs: Seq<EligibilityExpression>,
    c1: RegistrantContext,
    c2: RegistrantContext,
)
    requires
        facts_agree(requirements_of_all(xs), c1, c2),
    ensures
        eval_all(xs, c1) == eval_all(xs, c2),
        eval_any(xs, c1) == eval_any(xs, c2),
    decreases xs,
{
    if xs.len() > 0 {
        lemma_facts_agree_split(requirements_of_all(xs.drop_last()), requirements_of(xs.last()), c1, c2);
        lemma_eval_list_agrees(xs.drop_last(), c1, c2);
        lemma_eval_expr_agrees(xs.last(), c1, c2);
    }
}

/// The requirements of the product selected for a canonical name.
pub open spec fn selected_requirements(c: Catalog, a: Seq<char>) -> Seq<
    crate::types::EligibilityRequirement,
> {
    match expression_of(c, a) {
        Some(e) => requirements_of(e),
        None => Seq::empty(),
    }
}

/// `narrow` holds the facts of `ctx` about requirements in `reqs`, and no
/// others.
pub open spec fn restricted_context(
    narrow: RegistrantContext,
    ctx: RegistrantContext,
    reqs: Seq<crate::types::EligibilityRequirement>,
) -> bool {
    &&& forall|id: Seq<char>|
        #![trigger narrow.satisfied_requirements@.contains(id)]
        #![trigger ctx.satisfied_requirements@.contains(id)]
        narrow.satisfied_requirements@.contains(id) == (ctx.satisfied_requirements@.contains(id)
            && names_requirement(reqs, id))
    &&& forall|id: Seq<char>|
        #![trigger narrow.unsatisfied_requirements@.contains(id)]
        #![trigger ctx.unsatisfied_requirements@.contains(id)]
        narrow.unsatisfied_requirements@.contains(id) == (ctx.unsatisfied_requirements@.contains(
            id,
        ) && names_requirement(reqs, id))
}

/// Cutting the caller's facts down to the requirements of the selected
/// product changes neither eligibility, requirement outcomes, label policy
/// nor verdict.
pub proof fn law_restricted_context_same_result(
    full: Assessment,
    narrowed: Assessment,
    c: Catalog,
    d: Seq<char>,
    ctx: RegistrantContext,
    narrow: RegistrantContext,
)
    requires
        assessment_spec(full, c, d, Some(ctx)),
        assessment_spec(narrowed, c, d, Some(narrow)),
        input_problem(d) is None ==> restricted_context(
            narrow,
            ctx,
            selected_requirements(c, canonical_name(d)),
        ),
    ensures
        full.eligibility == narrowed.eligibility,
        full.eligibility_requirements@ == narrowed.eligibility_requirements@,
        full.label_policy == narrowed.label_policy,
        full.verdict == narrowed.verdict,
{
    if input_problem(d) is None {
        let a = canonical_name(d);
        let e = expression_of(c, a);
        if let Some(x) = e {
            let reqs = requirements_of(x);
            assert forall|i: int| 0 <= i < reqs.len() implies fact_for(ctx, (#[trigger] reqs[i]).id@)
                == fact_for(narrow, reqs[i].id@) by {
                assert(names_requirement(reqs, reqs[i].id@));
            }
            lemma_eval_expr_agrees(x, ctx, narrow);
            if context_applies(x, ctx) {
                let i = choose|i: int|
                    0 <= i < reqs.len() && {
                        let id = (#[trigger] reqs[i]).id@;
                        ctx.satisfied_requirements@.contains(id)
                            || ctx.unsatisfied_requirements@.contains(id)
                    };
                assert(names_requirement(reqs, reqs[i].id@));
            }
            if context_applies(x, narrow) {
                let i = choose|i: int|
                    0 <= i < reqs.len() && {
                        let id = (#[trigger] reqs[i]).id@;
                        narrow.satisfied_requirements@.contains(id)
                            || narrow.unsatisfied_requirements@.contains(id)
                    };
                assert(names_requirement(reqs, reqs[i].id@));
            }
            assert(context_applies(x, ctx) == context_applies(x, narrow));
            let kept = first_by_id(reqs);
            lemma_first_by_id_named(reqs);
            assert forall|i: int| 0 <= i < kept.len() implies outcome_for(
                Some(ctx),
                (#[trigger] kept[i]).id@,
            ) == outcome_for(Some(narrow), kept[i].id@) by {
                assert(names_requirement(reqs, kept[i].id@));
            }
            assert(requirement_assessments(e, Some(ctx)) =~= requirement_assessments(
                e,
                Some(narrow),
            ));
        }
        law_only_verified_values_decide(evaluation_of(full), evaluation_of(narrowed));
    }
}

/// Caller facts change only eligibility, requirement outcomes, verdict and
/// findings: every other part of the assessment is the one without them, and
/// each listed requirement keeps its identifier, kind, value, explanation,
/// evidence and place.
pub proof fn law_context_changes_only_eligibility(
    without: Assessment,
    with: Assessment,
    c: Catalog,
    d: Seq<char>,
    ctx: RegistrantContext,
)
    requires
        assessment_spec(without, c, d, None),
        assessment_spec(with, c, d, Some(ctx)),
    ensures
        with.input@ == without.input@,
        crate::types::opt_string_view(with.ascii_domain) == crate::types::opt_string_view(
            without.ascii_domain,
        ),
        crate::types::opt_string_view(with.registrable_domain) == crate::types::opt_string_view(
            without.registrable_domain,
        ),
        with.syntax == without.syntax,
        with.candidate_status == without.candidate_status,
        with.suffix is Some <==> without.suffix is Some,
        with.suffix matches Some(x) ==> without.suffix matches Some(y) && x@ == y@,
        claim_model(with.root_state) == claim_model(without.root_state),
        claim_model(with.namespace_state) == claim_model(without.namespace_state),
        crate::types::opt_str_view(with.product_id) == crate::types::opt_str_view(
            without.product_id,
        ),
        crate::types::opt_string_view(with.product_suffix) == crate::types::opt_string_view(
            without.product_suffix,
        ),
        claim_model(with.offering_state) == claim_model(without.offering_state),
        claim_model(with.public_access) == claim_model(without.public_access),
        claim_model(with.application_channel) == claim_model(without.application_channel),
        with.label_policy == without.label_policy,
        crate::requirement_set::ids_view(with.evidence@) == crate::requirement_set::ids_view(
            without.evidence@,
        ),
        with.eligibility_requirements@.len() == without.eligibility_requirements@.len(),
        forall|i: int|
            0 <= i < with.eligibility_requirements@.len() ==> {
                let q = #[trigger] with.eligibility_requirements@[i];
                let p = without.eligibility_requirements@[i];
                &&& q.id == p.id
                &&& q.kind == p.kind
                &&& q.value == p.value
                &&& q.explanation == p.explanation
                &&& q.evidence == p.evidence
            },
{
    if input_problem(d) is None {
        let a = canonical_name(d);
        assert(id_set(with.evidence@) == id_set(without.evidence@));
        crate::requirement_set::lemma_sorted_by_set_unique(
            crate::requirement_set::ids_view(with.evidence@),
            crate::requirement_set::ids_view(without.evidence@),
        );
    } else {
        assert(crate::requirement_set::ids_view(with.evidence@) =~= crate::requirement_set::ids_view(
            without.evidence@,
        ));
    }
}

/// An evidence identifier that an assessment against the pinned catalog
/// cites is found again by a lookup of that identifier with any whitespace
/// around it, as `Registry::evidence` trims its key.
pub proof fn law_cited_evidence_is_found(
    r: Assessment,
    c: Catalog,
    d: Seq<char>,
    ctx: Option<RegistrantContext>,
    id: Seq<char>,
    before: Seq<char>,
    after: Seq<char>,
)
    requires
        pinned_catalog(c),
        assessment_spec(r, c, d, ctx),
        id_set(r.evidence@).contains(id),
        all_whitespace(before),
        all_whitespace(after),
    ensures
        lookup(c.evidence@, trimmed(before + id + after)) matches Some(e) && e.id@ == id,
{
    law_evidence_ids_resolve(r, c, d, ctx);
    lemma_pinned_evidence_ids_unpadded();
    assert(pinned_evidence_ids().contains(id));
    lemma_trimmed_padded(before, id, after);
}

/// An assessment's label passes only when the selected product has a label
/// policy whose completeness and reserved set are verified.
pub proof fn law_passing_label_needs_complete_policy(
    r: Assessment,
    c: Catalog,
    d: Seq<char>,
    ctx: Option<RegistrantContext>,
)
    requires
        assessment_spec(r, c, d, ctx),
        r.label_policy == LabelPolicyStatus::Pass,
    ensures
        input_problem(d) is None,
        product_of(c, canonical_name(d)) matches Some(p) && p.label_policy matches Some(l)
            && l.completeness == crate::types::ClaimStatus::Verified && l.reserved_status
            == crate::types::ClaimStatus::Verified,
{
    let a = canonical_name(d);
    if let Some(p) = product_of(c, a) {
        crate::label_policy::law_label_pass_needs_verified_policy(
            p.label_policy,
            crate::registry::registrable_domain_of(c, a),
            crate::registry::product_suffix_of(c, a),
            a,
        );
    }
}

/// Where a requirement of one member of a list sits among the requirements
/// of the whole list.
proof fn lemma_member_requirement(xs: Seq<EligibilityExpression>, i: int, j: int) -> (k: int)
    requires
        0 <= i < xs.len(),
        0 <= j < requirements_of(xs[i]).len(),
    ensures
        0 <= k < requirements_of_all(xs).len(),
        requirements_of_all(xs)[k] == requirements_of(xs[i])[j],
    decreases xs.len(),
{
    let p = xs.drop_last();
    if i == xs.len() - 1 {
        assert(xs.last() == xs[i]);
        requirements_of_all(p).len() + j
    } else {
        assert(p[i] == xs[i]);
        let k = lemma_member_requirement(p, i, j);
        k
    }
}

/// Under a gated product, a requirement of an all-of eligibility expression
/// that the caller lists only as unsatisfied makes eligibility unsatisfied
/// and the verdict impossible, whatever the other members are.
pub proof fn law_unsatisfied_member_rules_out(
    r: Assessment,
    c: Catalog,
    d: Seq<char>,
    ctx: RegistrantContext,
    i: int,
)
    requires
        assessment_spec(r, c, d, Some(ctx)),
        input_problem(d) is None,
        expression_of(c, canonical_name(d)) matches Some(EligibilityExpression::All(xs)) && 0 <= i
            < xs@.len() && (xs@[i] matches EligibilityExpression::Requirement(q)
            && ctx.unsatisfied_requirements@.contains(q.id@)
            && !ctx.satisfied_requirements@.contains(q.id@)),
        r.public_access.verified_spec() matches Some(acc) && crate::evaluator::gated_access(acc),
    ensures
        r.eligibility == crate::types::EligibilityStatus::Unsatisfied,
        r.verdict == Verdict::Impossible,
{
    let a = canonical_name(d);
    let e = expression_of(c, a).unwrap();
    crate::eligibility::law_expression_value(e, ctx);
    if let EligibilityExpression::All(xs) = e {
        crate::eligibility::law_expression_value(xs@[i], ctx);
        assert(eval_expr(xs@[i], ctx) == crate::eligibility::RequirementResult::Unsatisfied);
        assert(eval_expr(e, ctx) == crate::eligibility::RequirementResult::Unsatisfied);
        let k = lemma_member_requirement(xs@, i, 0);
        assert(requirements_of(e)[k] == requirements_of(xs@[i])[0]);
        assert(context_applies(e, ctx));
    }
}

} // verus!
