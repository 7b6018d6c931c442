//! Three-valued evaluation of typed eligibility expressions against
//! caller-supplied registrant facts.

use vstd::prelude::*;

use crate::evaluator::gated_access;
use crate::requirement_set::{
    lemma_sorted_elements, lemma_sorted_elements_of, sorted_elements, sorted_intersection,
    sorted_union, strictly_sorted,
};
use crate::text::str_eq;
use crate::types::{
    Claim, ClaimStatus, EligibilityExpression, EligibilityRequirement,
    EligibilityRequirementAssessment, EligibilityRequirementOutcome, EligibilityStatus, Finding,
    FindingCode, PublicAccess, RegistrantContext,
};

verus! {

/// Three-valued intermediate result for composed eligibility expressions.
#[derive(Debug, Clone, Copy, PartialEq, Eq, Structural)]
pub enum RequirementResult {
    /// The expression is proven true.
    Satisfied,
    /// The expression is proven false.
    Unsatisfied,
    /// Supplied facts do not decide the expression.
    Unknown,
}

/// What the caller's facts say about one requirement identifier: decided only
/// when it is listed on exactly one side.
pub open spec fn fact_for(ctx: RegistrantContext, id: Seq<char>) -> RequirementResult {
    let s = ctx.satisfied_requirements@.contains(id);
    let u = ctx.unsatisfied_requirements@.contains(id);
    if s && !u {
        RequirementResult::Satisfied
    } else if !s && u {
        RequirementResult::Unsatisfied
    } else {
        RequirementResult::Unknown
    }
}

/// Conjunction of two three-valued results.
pub open spec fn and3(a: RequirementResult, b: RequirementResult) -> RequirementResult {
    if a == RequirementResult::Unsatisfied || b == RequirementResult::Unsatisfied {
        RequirementResult::Unsatisfied
    } else if a == RequirementResult::Unknown || b == RequirementResult::Unknown {
        RequirementResult::Unknown
    } else {
        RequirementResult::Satisfied
    }
}

/// Disjunction of two three-valued results.
pub open spec fn or3(a: RequirementResult, b: RequirementResult) -> RequirementResult {
    if a == RequirementResult::Satisfied || b == RequirementResult::Satisfied {
        RequirementResult::Satisfied
    } else if a == RequirementResult::Unknown || b == RequirementResult::Unknown {
        RequirementResult::Unknown
    } else {
        RequirementResult::Unsatisfied
    }
}

/// The value of an expression under the caller's facts.
pub open spec fn eval_expr(e: EligibilityExpression, ctx: RegistrantContext) -> RequirementResult
    decreases e,
{
    match e {
        EligibilityExpression::Requirement(r) => fact_for(ctx, r.id@),
        EligibilityExpression::All(xs) => eval_all(xs@, ctx),
        EligibilityExpression::Any(xs) => eval_any(xs@, ctx),
    }
}

/// Conjunction of a list of expressions; an empty list is satisfied.
pub open spec fn eval_all(xs: Seq<EligibilityExpression>, ctx: RegistrantContext) -> RequirementResult
    decreases xs,
{
    if xs.len() == 0 {
        RequirementResult::Satisfied
    } else {
        and3(eval_all(xs.drop_last(), ctx), eval_expr(xs.last(), ctx))
    }
}

/// Disjunction of a list of expressions; an empty list is unsatisfied.
pub open spec fn eval_any(xs: Seq<EligibilityExpression>, ctx: RegistrantContext) -> RequirementResult
    decreases xs,
{
    if xs.len() == 0 {
        RequirementResult::Unsatisfied
    } else {
        or3(eval_any(xs.drop_last(), ctx), eval_expr(xs.last(), ctx))
    }
}

/// The atomic requirements of an expression, in authoring order, repeats kept.
pub open spec fn requirements_of(e: EligibilityExpression) -> Seq<EligibilityRequirement>
    decreases e,
{
    match e {
        EligibilityExpression::Requirement(r) => seq![r],
        EligibilityExpression::All(xs) => requirements_of_all(xs@),
        EligibilityExpression::Any(xs) => requirements_of_all(xs@),
    }
}

/// The atomic requirements of a list of expressions, in order.
pub open spec fn requirements_of_all(xs: Seq<EligibilityExpression>) -> Seq<EligibilityRequirement>
    decreases xs,
{
    if xs.len() == 0 {
        Seq::empty()
    } else {
        requirements_of_all(xs.drop_last()) + requirements_of(xs.last())
    }
}

/// Whether some requirement in `reqs` has identifier `id`.
pub open spec fn names_requirement(reqs: Seq<EligibilityRequirement>, id: Seq<char>) -> bool {
    exists|i: int| 0 <= i < reqs.len() && (#[trigger] reqs[i]).id@ == id
}

/// The requirements in order, keeping only the first with each identifier.
pub open spec fn first_by_id(reqs: Seq<EligibilityRequirement>) -> Seq<EligibilityRequirement>
    decreases reqs.len(),
{
    if reqs.len() == 0 {
        Seq::empty()
    } else {
        let prev = first_by_id(reqs.drop_last());
        if names_requirement(prev, reqs.last().id@) {
            prev
        } else {
            prev.push(reqs.last())
        }
    }
}

/// Whether the caller supplied a fact about a requirement of the expression.
pub open spec fn context_applies(e: EligibilityExpression, ctx: RegistrantContext) -> bool {
    exists|i: int|
        0 <= i < requirements_of(e).len() && {
            let id = (#[trigger] requirements_of(e)[i]).id@;
            ctx.satisfied_requirements@.contains(id) || ctx.unsatisfied_requirements@.contains(id)
        }
}

/// A product's eligibility result for the caller.
///
/// Eligibility is decided only for a verified conditional or
/// controlled-group product: without an expression it is unknown; without
/// caller facts about any of its requirements it is required; otherwise it
/// is the expression's value. Other products are not applicable when their
/// access class is verified and unknown otherwise.
pub open spec fn eligibility_for(
    expression: Option<EligibilityExpression>,
    access: Claim<PublicAccess>,
    ctx: Option<RegistrantContext>,
) -> EligibilityStatus {
    let gated = access.verified_spec() matches Some(a) && gated_access(a);
    if !gated {
        if access.status == ClaimStatus::Verified {
            EligibilityStatus::NotApplicable
        } else {
            EligibilityStatus::Unknown
        }
    } else {
        match expression {
            None => EligibilityStatus::Unknown,
            Some(e) => match ctx {
                None => EligibilityStatus::Required,
                Some(c) => if !context_applies(e, c) {
                    EligibilityStatus::Required
                } else {
                    match eval_expr(e, c) {
                        RequirementResult::Satisfied => EligibilityStatus::Satisfied,
                        RequirementResult::Unsatisfied => EligibilityStatus::Unsatisfied,
                        RequirementResult::Unknown => EligibilityStatus::Unknown,
                    }
                },
            },
        }
    }
}

/// The caller-specific outcome of one requirement.
pub open spec fn outcome_for(ctx: Option<RegistrantContext>, id: Seq<char>) -> EligibilityRequirementOutcome {
    match ctx {
        None => EligibilityRequirementOutcome::Unknown,
        Some(c) => match fact_for(c, id) {
            RequirementResult::Satisfied => EligibilityRequirementOutcome::Satisfied,
            RequirementResult::Unsatisfied => EligibilityRequirementOutcome::Unsatisfied,
            RequirementResult::Unknown => EligibilityRequirementOutcome::Unknown,
        },
    }
}

/// One requirement rendered with its caller-specific outcome.
pub open spec fn assessed(
    r: EligibilityRequirement,
    ctx: Option<RegistrantContext>,
) -> EligibilityRequirementAssessment {
    EligibilityRequirementAssessment {
        id: r.id,
        kind: r.kind,
        value: r.value,
        explanation: r.explanation,
        evidence: r.evidence,
        outcome: outcome_for(ctx, r.id@),
    }
}

/// The discoverable requirements of an optional expression with outcomes.
pub open spec fn requirement_assessments(
    expression: Option<EligibilityExpression>,
    ctx: Option<RegistrantContext>,
) -> Seq<EligibilityRequirementAssessment> {
    match expression {
        None => Seq::empty(),
        Some(e) => first_by_id(requirements_of(e)).map_values(
            |r: EligibilityRequirement| assessed(r, ctx),
        ),
    }
}

fn fact_for_exec(ctx: &RegistrantContext, id: &str) -> (r: RequirementResult)
    ensures
        r == fact_for(*ctx, id@),
{
    let s = ctx.satisfied_requirements.contains(id);
    let u = ctx.unsatisfied_requirements.contains(id);
    if s && !u {
        RequirementResult::Satisfied
    } else if !s && u {
        RequirementResult::Unsatisfied
    } else {
        RequirementResult::Unknown
    }
}

/// Recursively evaluates an all/any eligibility expression.
pub fn evaluate_expression(expression: &EligibilityExpression, context: &RegistrantContext) -> (r:
    RequirementResult)
    ensures
        r == eval_expr(*expression, *context),
    decreases expression,
{
    match expression {
        EligibilityExpression::Requirement(requirement) => fact_for_exec(context, requirement.id),
        EligibilityExpression::All(expressions) => {
            let mut acc = RequirementResult::Satisfied;
            let n = expressions.len();
            let mut i: usize = 0;
            proof {
                assert(expressions@.take(0) =~= Seq::<EligibilityExpression>::empty());
            }
            while i < n
                invariant
                    n == expressions@.len(),
                    i <= n,
                    acc == eval_all(expressions@.take(i as int), *context),
                    *expression == EligibilityExpression::All(*expressions),
                decreases n - i,
            {
                proof {
                    assert(decreases_to!(*expression => (*expression)->All_0));
                    assert(decreases_to!(*expressions => expressions@));
                    assert(decreases_to!(expressions@ => expressions@[i as int]));
                }
                let v = evaluate_expression(&expressions[i], context);
                proof {
                    let t = expressions@.take(i + 1);
                    assert(t.drop_last() =~= expressions@.take(i as int));
                    assert(t.last() == expressions@[i as int]);
                }
                acc = if acc == RequirementResult::Unsatisfied || v == RequirementResult::Unsatisfied {
                    RequirementResult::Unsatisfied
                } else if acc == RequirementResult::Unknown || v == RequirementResult::Unknown {
                    RequirementResult::Unknown
                } else {
                    RequirementResult::Satisfied
                };
                i = i + 1;
            }
            proof {
                assert(expressions@.take(n as int) =~= expressions@);
            }
            acc
        },
        EligibilityExpression::Any(expressions) => {
            let mut acc = RequirementResult::Unsatisfied;
            let n = expressions.len();
            let mut i: usize = 0;
            proof {
                assert(expressions@.take(0) =~= Seq::<EligibilityExpression>::empty());
            }
            while i < n
                invariant
                    n == expressions@.len(),
                    i <= n,
                    acc == eval_any(expressions@.take(i as int), *context),
                    *expression == EligibilityExpression::Any(*expressions),
                decreases n - i,
            {
                proof {
                    assert(decreases_to!(*expression => (*expression)->Any_0));
                    assert(decreases_to!(*expressions => expressions@));
                    assert(decreases_to!(expressions@ => expressions@[i as int]));
                }
                let v = evaluate_expression(&expressions[i], context);
                proof {
                    let t = expressions@.take(i + 1);
                    assert(t.drop_last() =~= expressions@.take(i as int));
                    assert(t.last() == expressions@[i as int]);
                }
                acc = if acc == RequirementResult::Satisfied || v == RequirementResult::Satisfied {
                    RequirementResult::Satisfied
                } else if acc == RequirementResult::Unknown || v == RequirementResult::Unknown {
                    RequirementResult::Unknown
                } else {
                    RequirementResult::Unsatisfied
                };
                i = i + 1;
            }
            proof {
                assert(expressions@.take(n as int) =~= expressions@);
            }
            acc
        },
    }
}

/// Appends the atomic requirements of an expression, in authoring order.
pub fn collect_requirements(expression: &EligibilityExpression, out: &mut Vec<EligibilityRequirement>)
    ensures
        final(out)@ == old(out)@ + requirements_of(*expression),
    decreases expression,
{
    match expression {
        EligibilityExpression::Requirement(requirement) => {
            out.push(*requirement);
            proof {
                assert(final(out)@ =~= old(out)@ + seq![*requirement]) by {
                    lemma_push_is_concat(old(out)@, *requirement);
                }
            }
        },
        EligibilityExpression::All(expressions) => {
            let n = expressions.len();
            let mut i: usize = 0;
            let ghost start = out@;
            proof {
                assert(expressions@.take(0) =~= Seq::<EligibilityExpression>::empty());
                assert(start + requirements_of_all(expressions@.take(0)) =~= start);
            }
            while i < n
                invariant
                    n == expressions@.len(),
                    i <= n,
                    out@ == start + requirements_of_all(expressions@.take(i as int)),
                    *expression == EligibilityExpression::All(*expressions),
                decreases n - i,
            {
                proof {
                    assert(decreases_to!(*expression => (*expression)->All_0));
                    assert(decreases_to!(*expressions => expressions@));
                    assert(decreases_to!(expressions@ => expressions@[i as int]));
                }
                collect_requirements(&expressions[i], out);
                proof {
                    let t = expressions@.take(i + 1);
                    assert(t.drop_last() =~= expressions@.take(i as int));
                    assert(t.last() == expressions@[i as int]);
                    assert(out@ =~= start + requirements_of_all(t));
                }
                i = i + 1;
            }
            proof {
                assert(expressions@.take(n as int) =~= expressions@);
            }
        },
        EligibilityExpression::Any(expressions) => {
            let n = expressions.len();
            let mut i: usize = 0;
            let ghost start = out@;
            proof {
                assert(expressions@.take(0) =~= Seq::<EligibilityExpression>::empty());
                assert(start + requirements_of_all(expressions@.take(0)) =~= start);
            }
            while i < n
                invariant
                    n == expressions@.len(),
                    i <= n,
                    out@ == start + requirements_of_all(expressions@.take(i as int)),
                    *expression == EligibilityExpression::Any(*expressions),
                decreases n - i,
            {
                proof {
                    assert(decreases_to!(*expression => (*expression)->Any_0));
                    assert(decreases_to!(*expressions => expressions@));
                    assert(decreases_to!(expressions@ => expressions@[i as int]));
                }
                collect_requirements(&expressions[i], out);
                proof {
                    let t = expressions@.take(i + 1);
                    assert(t.drop_last() =~= expressions@.take(i as int));
                    assert(t.last() == expressions@[i as int]);
                    assert(out@ =~= start + requirements_of_all(t));
                }
                i = i + 1;
            }
            proof {
                assert(expressions@.take(n as int) =~= expressions@);
            }
        },
    }
}

proof fn lemma_push_is_concat(s: Seq<EligibilityRequirement>, r: EligibilityRequirement)
    ensures
        s.push(r) =~= s + seq![r],
{
}

/// Returns every atomic requirement of an expression, in authoring order.
pub fn requirement_list(expression: &EligibilityExpression) -> (r: Vec<EligibilityRequirement>)
    ensures
        r@ == requirements_of(*expression),
{
    let mut out = Vec::new();
    collect_requirements(expression, &mut out);
    proof {
        assert(out@ =~= requirements_of(*expression));
    }
    out
}

/// Whether some requirement in `reqs` has the identifier `id`.
fn names_requirement_exec(reqs: &Vec<EligibilityRequirement>, id: &str) -> (r: bool)
    ensures
        r == names_requirement(reqs@, id@),
{
    let n = reqs.len();
    let mut i: usize = 0;
    while i < n
        invariant
            n == reqs@.len(),
            i <= n,
            forall|j: int| 0 <= j < i ==> (#[trigger] reqs@[j]).id@ != id@,
        decreases n - i,
    {
        if str_eq(reqs[i].id, id) {
            return true;
        }
        i = i + 1;
    }
    false
}

/// Whether the caller supplied a fact about a requirement of the expression.
pub fn context_applies_exec(expression: &EligibilityExpression, context: &RegistrantContext) -> (r: bool)
    ensures
        r == context_applies(*expression, *context),
{
    let reqs = requirement_list(expression);
    let n = reqs.len();
    let mut i: usize = 0;
    while i < n
        invariant
            n == reqs@.len(),
            reqs@ == requirements_of(*expression),
            i <= n,
            forall|j: int|
                0 <= j < i ==> {
                    let id = (#[trigger] reqs@[j]).id@;
                    !context.satisfied_requirements@.contains(id)
                        && !context.unsatisfied_requirements@.contains(id)
                },
        decreases n - i,
    {
        let id = reqs[i].id;
        if context.satisfied_requirements.contains(id) || context.unsatisfied_requirements.contains(
            id,
        ) {
            return true;
        }
        i = i + 1;
    }
    false
}

/// Evaluates a product's eligibility expression for the caller.
pub fn evaluate_eligibility(
    expression: Option<&EligibilityExpression>,
    access: Claim<PublicAccess>,
    context: Option<&RegistrantContext>,
) -> (r: EligibilityStatus)
    ensures
        r == eligibility_for(
            match expression {
                Some(e) => Some(*e),
                None => None,
            },
            access,
            match context {
                Some(c) => Some(*c),
                None => None,
            },
        ),
{
    let gated = match access.status {
        ClaimStatus::Verified => match access.value {
            Some(PublicAccess::Conditional) | Some(PublicAccess::ControlledGroup) => true,
            _ => false,
        },
        _ => false,
    };
    if !gated {
        return match access.status {
            ClaimStatus::Verified => EligibilityStatus::NotApplicable,
            _ => EligibilityStatus::Unknown,
        };
    }
    let expression = match expression {
        Some(e) => e,
        None => {
            return EligibilityStatus::Unknown;
        },
    };
    let context = match context {
        Some(c) => c,
        None => {
            return EligibilityStatus::Required;
        },
    };
    if !context_applies_exec(expression, context) {
        return EligibilityStatus::Required;
    }
    match evaluate_expression(expression, context) {
        RequirementResult::Satisfied => EligibilityStatus::Satisfied,
        RequirementResult::Unsatisfied => EligibilityStatus::Unsatisfied,
        RequirementResult::Unknown => EligibilityStatus::Unknown,
    }
}

/// Renders one atomic requirement and the matching caller fact.
pub fn requirement_assessment(
    requirement: &EligibilityRequirement,
    context: Option<&RegistrantContext>,
) -> (r: EligibilityRequirementAssessment)
    ensures
        r == assessed(
            *requirement,
            match context {
                Some(c) => Some(*c),
                None => None,
            },
        ),
{
    let outcome = match context {
        None => EligibilityRequirementOutcome::Unknown,
        Some(c) => match fact_for_exec(c, requirement.id) {
            RequirementResult::Satisfied => EligibilityRequirementOutcome::Satisfied,
            RequirementResult::Unsatisfied => EligibilityRequirementOutcome::Unsatisfied,
            RequirementResult::Unknown => EligibilityRequirementOutcome::Unknown,
        },
    };
    EligibilityRequirementAssessment {
        id: requirement.id,
        kind: requirement.kind,
        value: requirement.value,
        explanation: requirement.explanation,
        evidence: requirement.evidence,
        outcome,
    }
}

/// Produces discoverable per-requirement results for a product's expression,
/// in authoring order and once per identifier.
pub fn assess_eligibility_requirements(
    expression: Option<&EligibilityExpression>,
    context: Option<&RegistrantContext>,
) -> (r: Vec<EligibilityRequirementAssessment>)
    ensures
        r@ == requirement_assessments(
            match expression {
                Some(e) => Some(*e),
                None => None,
            },
            match context {
                Some(c) => Some(*c),
                None => None,
            },
        ),
{
    let ghost ctx = match context {
        Some(c) => Some(*c),
        None => None,
    };
    let mut out: Vec<EligibilityRequirementAssessment> = Vec::new();
    let expression = match expression {
        Some(e) => e,
        None => {
            proof {
                assert(out@ =~= Seq::<EligibilityRequirementAssessment>::empty());
            }
            return out;
        },
    };
    let reqs = requirement_list(expression);
    let n = reqs.len();
    let mut kept: Vec<EligibilityRequirement> = Vec::new();
    let mut i: usize = 0;
    proof {
        assert(reqs@.take(0) =~= Seq::<EligibilityRequirement>::empty());
    }
    while i < n
        invariant
            n == reqs@.len(),
            i <= n,
            kept@ == first_by_id(reqs@.take(i as int)),
            ctx == match context {
                Some(c) => Some(*c),
                None => None,
            },
            out@ == kept@.map_values(|r: EligibilityRequirement| assessed(r, ctx)),
        decreases n - i,
    {
        let requirement = reqs[i];
        let ghost t = reqs@.take(i + 1);
        proof {
            assert(t.drop_last() =~= reqs@.take(i as int));
            assert(t.last() == requirement);
        }
        if !names_requirement_exec(&kept, requirement.id) {
            let a = requirement_assessment(&requirement, context);
            let ghost old_kept = kept@;
            let ghost old_out = out@;
            kept.push(requirement);
            out.push(a);
            proof {
                assert(a == assessed(requirement, ctx));
                assert(kept@ == old_kept.push(requirement));
                assert(out@ == old_out.push(a));
                let f = |r: EligibilityRequirement| assessed(r, ctx);
                assert(old_kept.push(requirement).map_values(f) =~= old_kept.map_values(f).push(
                    assessed(requirement, ctx),
                ));
                assert(out@ =~= kept@.map_values(|r: EligibilityRequirement| assessed(r, ctx)));
            }
        }
        i = i + 1;
    }
    proof {
        assert(reqs@.take(n as int) =~= reqs@);
    }
    out
}

/// The supplied identifiers that the product's expression does not name, in
/// increasing order; all supplied identifiers when there is no expression.
pub open spec fn foreign_ids(
    reqs: Seq<EligibilityRequirement>,
    supplied: Seq<Seq<char>>,
) -> Seq<Seq<char>> {
    supplied.filter(|id: Seq<char>| !names_requirement(reqs, id))
}

/// Every identifier the caller supplied, satisfied or not, in increasing order.
pub open spec fn supplied_ids(ctx: RegistrantContext) -> Seq<Seq<char>> {
    sorted_elements(ctx.satisfied_requirements@.to_set() + ctx.unsatisfied_requirements@.to_set())
}

/// The supplied identifiers are listed in increasing order, each once, and
/// are exactly the identifiers the caller listed on either side.
pub proof fn lemma_supplied_ids(ctx: RegistrantContext)
    ensures
        strictly_sorted(supplied_ids(ctx)),
        supplied_ids(ctx).to_set() == ctx.satisfied_requirements@.to_set()
            + ctx.unsatisfied_requirements@.to_set(),
{
    let both = ctx.satisfied_requirements@ + ctx.unsatisfied_requirements@;
    vstd::seq_lib::seq_to_set_distributes_over_add(
        ctx.satisfied_requirements@,
        ctx.unsatisfied_requirements@,
    );
    lemma_sorted_elements_of(both);
}

/// The message of a finding about a foreign identifier.
pub open spec fn foreign_id_message(id: Seq<char>) -> Seq<char> {
    "supplied eligibility requirement '"@ + id + "' does not apply to the selected product"@
}

/// The finding about a foreign identifier.
pub open spec fn foreign_id_finding(id: Seq<char>) -> (FindingCode, Seq<char>) {
    (FindingCode::UnknownEligibilityRequirement, foreign_id_message(id))
}

/// Views a finding as its code and message.
pub open spec fn finding_view(f: Finding) -> (FindingCode, Seq<char>) {
    (f.code, f.message@)
}

/// Reports supplied caller-fact identifiers outside the selected expression,
/// once each and in increasing order.
pub fn append_unknown_eligibility_requirement_findings(
    expression: Option<&EligibilityExpression>,
    context: Option<&RegistrantContext>,
    findings: &mut Vec<Finding>,
)
    ensures
        match context {
            None => final(findings)@ == old(findings)@,
            Some(c) => final(findings)@.map_values(|f: Finding| finding_view(f)) == old(
                findings,
            )@.map_values(|f: Finding| finding_view(f)) + foreign_ids(
                match expression {
                    Some(e) => requirements_of(*e),
                    None => Seq::empty(),
                },
                supplied_ids(*c),
            ).map_values(|id: Seq<char>| foreign_id_finding(id)),
        },
{
    let context = match context {
        None => {
            return;
        },
        Some(c) => c,
    };
    let reqs = match expression {
        Some(e) => requirement_list(e),
        None => Vec::new(),
    };
    let supplied = sorted_union(&context.satisfied_requirements, &context.unsatisfied_requirements);
    let ghost sup = supplied@.map_values(|s: String| s@);
    let ghost start = old(findings)@.map_values(|f: Finding| finding_view(f));
    let n = supplied.len();
    let mut i: usize = 0;
    proof {
        assert(sup.take(0).filter(|id: Seq<char>| !names_requirement(reqs@, id)) =~= Seq::<
            Seq<char>,
        >::empty());
        assert(findings@.map_values(|f: Finding| finding_view(f)) =~= start + foreign_ids(
            reqs@,
            sup.take(0),
        ).map_values(|id: Seq<char>| foreign_id_finding(id)));
    }
    while i < n
        invariant
            n == supplied@.len(),
            sup == supplied@.map_values(|s: String| s@),
            i <= n,
            findings@.map_values(|f: Finding| finding_view(f)) == start + foreign_ids(
                reqs@,
                sup.take(i as int),
            ).map_values(|id: Seq<char>| foreign_id_finding(id)),
        decreases n - i,
    {
        let id = supplied[i].as_str();
        let ghost t = sup.take(i + 1);
        proof {
            assert(t.drop_last() =~= sup.take(i as int));
            assert(t.last() == id@);
            reveal_filter_step(t, |x: Seq<char>| !names_requirement(reqs@, x));
        }
        if !names_requirement_exec(&reqs, id) {
            let mut message = "supplied eligibility requirement '".to_owned();
            message.append(id);
            message.append("' does not apply to the selected product");
            let ghost before = findings@.map_values(|f: Finding| finding_view(f));
            findings.push(Finding { code: FindingCode::UnknownEligibilityRequirement, message });
            proof {
                assert(findings@.map_values(|f: Finding| finding_view(f)) =~= before.push(
                    foreign_id_finding(id@),
                ));
                assert(foreign_ids(reqs@, t) =~= foreign_ids(reqs@, sup.take(i as int)).push(id@));
                assert(findings@.map_values(|f: Finding| finding_view(f)) =~= start + foreign_ids(
                    reqs@,
                    t,
                ).map_values(|x: Seq<char>| foreign_id_finding(x)));
            }
        } else {
            proof {
                assert(foreign_ids(reqs@, t) =~= foreign_ids(reqs@, sup.take(i as int)));
            }
        }
        i = i + 1;
    }
    proof {
        lemma_sorted_elements(sup);
        assert(sup.take(n as int) =~= sup);
        assert(reqs@ == match expression {
            Some(e) => requirements_of(*e),
            None => Seq::<EligibilityRequirement>::empty(),
        });
    }
}

proof fn reveal_filter_step(t: Seq<Seq<char>>, p: spec_fn(Seq<char>) -> bool)
    requires
        t.len() > 0,
    ensures
        t.filter(p) == if p(t.last()) {
            t.drop_last().filter(p).push(t.last())
        } else {
            t.drop_last().filter(p)
        },
{
    reveal(Seq::filter);
}


/// Pieces joined with `sep` between neighbours.
pub open spec fn join_with(ls: Seq<Seq<char>>, sep: Seq<char>) -> Seq<char>
    decreases ls.len(),
{
    if ls.len() == 0 {
        Seq::empty()
    } else if ls.len() == 1 {
        ls[0]
    } else {
        join_with(ls.drop_last(), sep) + sep + ls.last()
    }
}

/// The identifiers a caller lists as both satisfied and unsatisfied, in
/// increasing order.
pub open spec fn conflicting_ids(ctx: RegistrantContext) -> Seq<Seq<char>> {
    sorted_elements(
        ctx.satisfied_requirements@.to_set().intersect(ctx.unsatisfied_requirements@.to_set()),
    )
}

/// The message that rejects contradictory caller facts.
pub open spec fn conflict_message(ids: Seq<Seq<char>>) -> Seq<char> {
    "requirement identifiers cannot be both satisfied and unsatisfied: "@ + join_with(ids, ", "@)
}

/// Rejects caller facts that list one identifier as both satisfied and
/// unsatisfied, naming every such identifier.
pub fn context_conflict(context: &RegistrantContext) -> (r: Option<String>)
    ensures
        match r {
            None => conflicting_ids(*context).len() == 0,
            Some(m) => conflicting_ids(*context).len() > 0 && m@ == conflict_message(
                conflicting_ids(*context),
            ),
        },
{
    let ids = sorted_intersection(&context.satisfied_requirements, &context.unsatisfied_requirements);
    let ghost v = ids@.map_values(|s: String| s@);
    proof {
        lemma_sorted_elements(v);
    }
    let n = ids.len();
    if n == 0 {
        proof {
            assert(v.len() == 0);
        }
        return None;
    }
    let mut message = "requirement identifiers cannot be both satisfied and unsatisfied: ".to_owned();
    let ghost prefix = message@;
    message.append(ids[0].as_str());
    let mut k: usize = 1;
    proof {
        assert(v.take(1) =~= seq![v[0]]);
    }
    while k < n
        invariant
            n == v.len(),
            v == ids@.map_values(|s: String| s@),
            1 <= k <= n,
            message@ == prefix + join_with(v.take(k as int), ", "@),
        decreases n - k,
    {
        message.append(", ");
        message.append(ids[k].as_str());
        proof {
            let t = v.take(k + 1);
            assert(t.drop_last() =~= v.take(k as int));
            assert(t.last() == v[k as int]);
            assert(message@ =~= prefix + join_with(t, ", "@));
        }
        k = k + 1;
    }
    proof {
        assert(v.take(n as int) =~= v);
    }
    Some(message)
}

/// A conjunction is unsatisfied exactly when some member is unsatisfied, and
/// satisfied exactly when every member is satisfied; a disjunction is
/// satisfied exactly when some member is satisfied, and unsatisfied exactly
/// when every member is unsatisfied. Member order does not matter.
pub proof fn law_members_decide(xs: Seq<EligibilityExpression>, ctx: RegistrantContext)
    ensures
        eval_all(xs, ctx) == RequirementResult::Unsatisfied <==> exists|i: int|
            0 <= i < xs.len() && #[trigger] eval_expr(xs[i], ctx) == RequirementResult::Unsatisfied,
        eval_all(xs, ctx) == RequirementResult::Satisfied <==> forall|i: int|
            0 <= i < xs.len() ==> #[trigger] eval_expr(xs[i], ctx) == RequirementResult::Satisfied,
        eval_any(xs, ctx) == RequirementResult::Satisfied <==> exists|i: int|
            0 <= i < xs.len() && #[trigger] eval_expr(xs[i], ctx) == RequirementResult::Satisfied,
        eval_any(xs, ctx) == RequirementResult::Unsatisfied <==> forall|i: int|
            0 <= i < xs.len() ==> #[trigger] eval_expr(xs[i], ctx) == RequirementResult::Unsatisfied,
    decreases xs.len(),
{
    if xs.len() > 0 {
        let p = xs.drop_last();
        let n = xs.len() - 1;
        law_members_decide(p, ctx);
        assert(forall|i: int| 0 <= i < p.len() ==> #[trigger] p[i] == xs[i]);
        assert(xs.last() == xs[n]);
        let last = eval_expr(xs[n], ctx);
        if exists|i: int|
            0 <= i < xs.len() && #[trigger] eval_expr(xs[i], ctx) == RequirementResult::Unsatisfied {
            let i = choose|i: int|
                0 <= i < xs.len() && #[trigger] eval_expr(xs[i], ctx)
                    == RequirementResult::Unsatisfied;
            if i < n {
                assert(eval_expr(p[i], ctx) == RequirementResult::Unsatisfied);
            }
        }
        if exists|i: int|
            0 <= i < xs.len() && #[trigger] eval_expr(xs[i], ctx) == RequirementResult::Satisfied {
            let i = choose|i: int|
                0 <= i < xs.len() && #[trigger] eval_expr(xs[i], ctx)
                    == RequirementResult::Satisfied;
            if i < n {
                assert(eval_expr(p[i], ctx) == RequirementResult::Satisfied);
            }
        }
        if eval_all(p, ctx) == RequirementResult::Unsatisfied {
            let i = choose|i: int|
                0 <= i < p.len() && #[trigger] eval_expr(p[i], ctx)
                    == RequirementResult::Unsatisfied;
            assert(eval_expr(xs[i], ctx) == RequirementResult::Unsatisfied);
        }
        if eval_any(p, ctx) == RequirementResult::Satisfied {
            let i = choose|i: int|
                0 <= i < p.len() && #[trigger] eval_expr(p[i], ctx) == RequirementResult::Satisfied;
            assert(eval_expr(xs[i], ctx) == RequirementResult::Satisfied);
        }
        if forall|i: int|
            0 <= i < xs.len() ==> #[trigger] eval_expr(xs[i], ctx) == RequirementResult::Satisfied {
            assert forall|i: int| 0 <= i < p.len() implies #[trigger] eval_expr(p[i], ctx)
                == RequirementResult::Satisfied by {
                assert(eval_expr(xs[i], ctx) == RequirementResult::Satisfied);
            }
        }
        if forall|i: int|
            0 <= i < xs.len() ==> #[trigger] eval_expr(xs[i], ctx) == RequirementResult::Unsatisfied {
            assert forall|i: int| 0 <= i < p.len() implies #[trigger] eval_expr(p[i], ctx)
                == RequirementResult::Unsatisfied by {
                assert(eval_expr(xs[i], ctx) == RequirementResult::Unsatisfied);
            }
        }
        if eval_all(p, ctx) == RequirementResult::Satisfied && last == RequirementResult::Satisfied {
            assert forall|i: int| 0 <= i < xs.len() implies #[trigger] eval_expr(xs[i], ctx)
                == RequirementResult::Satisfied by {
                if i < n {
                    assert(eval_expr(p[i], ctx) == RequirementResult::Satisfied);
                }
            }
        }
        if eval_any(p, ctx) == RequirementResult::Unsatisfied && last
            == RequirementResult::Unsatisfied {
            assert forall|i: int| 0 <= i < xs.len() implies #[trigger] eval_expr(xs[i], ctx)
                == RequirementResult::Unsatisfied by {
                if i < n {
                    assert(eval_expr(p[i], ctx) == RequirementResult::Unsatisfied);
                }
            }
        }
    }
}

/// What an eligibility expression evaluates to: a requirement is satisfied
/// or unsatisfied only when the caller lists it on exactly that side; an
/// all-of expression is unsatisfied as soon as one member is, whatever the
/// others are, and satisfied only when all are; an any-of expression is
/// satisfied as soon as one member is, and unsatisfied only when all are.
pub proof fn law_expression_value(e: EligibilityExpression, ctx: RegistrantContext)
    ensures
        e matches EligibilityExpression::Requirement(r) ==> {
            let s = ctx.satisfied_requirements@.contains(r.id@);
            let u = ctx.unsatisfied_requirements@.contains(r.id@);
            &&& eval_expr(e, ctx) == RequirementResult::Satisfied <==> (s && !u)
            &&& eval_expr(e, ctx) == RequirementResult::Unsatisfied <==> (!s && u)
        },
        e matches EligibilityExpression::All(xs) ==> {
            &&& eval_expr(e, ctx) == RequirementResult::Unsatisfied <==> exists|i: int|
                0 <= i < xs@.len() && #[trigger] eval_expr(xs@[i], ctx)
                    == RequirementResult::Unsatisfied
            &&& eval_expr(e, ctx) == RequirementResult::Satisfied <==> forall|i: int|
                0 <= i < xs@.len() ==> #[trigger] eval_expr(xs@[i], ctx)
                    == RequirementResult::Satisfied
        },
        e matches EligibilityExpression::Any(xs) ==> {
            &&& eval_expr(e, ctx) == RequirementResult::Satisfied <==> exists|i: int|
                0 <= i < xs@.len() && #[trigger] eval_expr(xs@[i], ctx)
                    == RequirementResult::Satisfied
            &&& eval_expr(e, ctx) == RequirementResult::Unsatisfied <==> forall|i: int|
                0 <= i < xs@.len() ==> #[trigger] eval_expr(xs@[i], ctx)
                    == RequirementResult::Unsatisfied
        },
{
    match e {
        EligibilityExpression::Requirement(_) => {},
        EligibilityExpression::All(xs) => law_members_decide(xs@, ctx),
        EligibilityExpression::Any(xs) => law_members_decide(xs@, ctx),
    }
}

} // verus!
