//! The evidence identifiers behind an assessment, as a sorted set.

use vstd::prelude::*;

use crate::eligibility::{requirement_list, requirements_of};
use crate::requirement_set::{ids_view, insert_sorted_ids, strictly_sorted};
use crate::types::{
    Claim, EligibilityExpression, EligibilityRequirement, LabelPolicy, RegistrationProduct,
    ReservedLabel,
};

verus! {

/// The identifiers held by a list of evidence references.
pub open spec fn id_set(v: Seq<&'static str>) -> Set<Seq<char>> {
    ids_view(v).to_set()
}

/// A sorted evidence list without repeats.
pub open spec fn sorted_ids(v: Seq<&'static str>) -> bool {
    strictly_sorted(ids_view(v))
}

/// Every evidence identifier of a list of requirements.
pub open spec fn requirements_evidence(reqs: Seq<EligibilityRequirement>) -> Set<Seq<char>>
    decreases reqs.len(),
{
    if reqs.len() == 0 {
        Set::empty()
    } else {
        requirements_evidence(reqs.drop_last()) + id_set(reqs.last().evidence@)
    }
}

/// Every evidence identifier of a list of reserved labels.
pub open spec fn reserved_evidence(labels: Seq<ReservedLabel>) -> Set<Seq<char>>
    decreases labels.len(),
{
    if labels.len() == 0 {
        Set::empty()
    } else {
        reserved_evidence(labels.drop_last()) + id_set(labels.last().evidence@)
    }
}

/// Every evidence identifier embedded in a label policy.
pub open spec fn label_policy_evidence(p: LabelPolicy) -> Set<Seq<char>> {
    let from_profile = match p.idn_profile {
        Some(profile) => id_set(profile.evidence@),
        None => Set::empty(),
    };
    id_set(p.completeness_evidence@) + id_set(p.length_evidence@) + id_set(p.idn_support.evidence@)
        + id_set(p.reserved_set_evidence@) + reserved_evidence(p.reserved_labels@) + from_profile
}

/// Every evidence identifier embedded in a product's eligibility and label policies.
pub open spec fn product_evidence(p: RegistrationProduct) -> Set<Seq<char>> {
    let from_eligibility = match p.eligibility {
        Some(e) => requirements_evidence(requirements_of(e)),
        None => Set::empty(),
    };
    let from_label = match p.label_policy {
        Some(l) => label_policy_evidence(l),
        None => Set::empty(),
    };
    from_eligibility + from_label
}

/// Adds a list of identifiers.
fn add_ids(evidence: &mut Vec<&'static str>, ids: &'static [&'static str])
    requires
        sorted_ids(old(evidence)@),
    ensures
        sorted_ids(final(evidence)@),
        id_set(final(evidence)@) == id_set(old(evidence)@) + id_set(ids@),
{
    insert_sorted_ids(evidence, ids);
}

/// Adds every evidence identifier attached directly to a claim.
pub fn collect_claim_evidence<T>(claim: &Claim<T>, evidence: &mut Vec<&'static str>)
    requires
        sorted_ids(old(evidence)@),
    ensures
        sorted_ids(final(evidence)@),
        id_set(final(evidence)@) == id_set(old(evidence)@) + id_set(claim.evidence@),
{
    add_ids(evidence, claim.evidence);
}

/// Adds the evidence of every requirement in an eligibility expression.
pub fn collect_expression_evidence(
    expression: &EligibilityExpression,
    evidence: &mut Vec<&'static str>,
)
    requires
        sorted_ids(old(evidence)@),
    ensures
        sorted_ids(final(evidence)@),
        id_set(final(evidence)@) == id_set(old(evidence)@) + requirements_evidence(
            requirements_of(*expression),
        ),
{
    let reqs = requirement_list(expression);
    let ghost start = id_set(evidence@);
    let mut i: usize = 0;
    proof {
        assert(reqs@.take(0) =~= Seq::<EligibilityRequirement>::empty());
        assert(id_set(evidence@) =~= start + requirements_evidence(reqs@.take(0)));
    }
    while i < reqs.len()
        invariant
            i <= reqs@.len(),
            sorted_ids(evidence@),
            id_set(evidence@) == start + requirements_evidence(reqs@.take(i as int)),
        decreases reqs@.len() - i,
    {
        add_ids(evidence, reqs[i].evidence);
        proof {
            let t = reqs@.take(i + 1);
            assert(t.drop_last() =~= reqs@.take(i as int));
            assert(t.last() == reqs@[i as int]);
            assert(id_set(evidence@) =~= start + requirements_evidence(t));
        }
        i = i + 1;
    }
    proof {
        assert(reqs@.take(reqs@.len() as int) =~= reqs@);
    }
}

/// Adds the evidence of every reserved label of a policy.
fn collect_reserved_evidence(labels: &'static [ReservedLabel], evidence: &mut Vec<&'static str>)
    requires
        sorted_ids(old(evidence)@),
    ensures
        sorted_ids(final(evidence)@),
        id_set(final(evidence)@) == id_set(old(evidence)@) + reserved_evidence(labels@),
{
    let ghost start = id_set(evidence@);
    let mut i: usize = 0;
    proof {
        assert(labels@.take(0) =~= Seq::<ReservedLabel>::empty());
        assert(id_set(evidence@) =~= start + reserved_evidence(labels@.take(0)));
    }
    while i < labels.len()
        invariant
            i <= labels@.len(),
            sorted_ids(evidence@),
            id_set(evidence@) == start + reserved_evidence(labels@.take(i as int)),
        decreases labels@.len() - i,
    {
        add_ids(evidence, labels[i].evidence);
        proof {
            let t = labels@.take(i + 1);
            assert(t.drop_last() =~= labels@.take(i as int));
            assert(t.last() == labels@[i as int]);
            assert(id_set(evidence@) =~= start + reserved_evidence(t));
        }
        i = i + 1;
    }
    proof {
        assert(labels@.take(labels@.len() as int) =~= labels@);
    }
}

/// Adds evidence embedded in a product's eligibility and label policies.
pub fn collect_product_evidence(product: &RegistrationProduct, evidence: &mut Vec<&'static str>)
    requires
        sorted_ids(old(evidence)@),
    ensures
        sorted_ids(final(evidence)@),
        id_set(final(evidence)@) == id_set(old(evidence)@) + product_evidence(*product),
{
    let ghost start = id_set(evidence@);
    if let Some(expression) = &product.eligibility {
        collect_expression_evidence(expression, evidence);
    }
    let ghost mid = id_set(evidence@);
    if let Some(policy) = &product.label_policy {
        add_ids(evidence, policy.completeness_evidence);
        add_ids(evidence, policy.length_evidence);
        add_ids(evidence, policy.idn_support.evidence);
        add_ids(evidence, policy.reserved_set_evidence);
        collect_reserved_evidence(policy.reserved_labels, evidence);
        if let Some(profile) = &policy.idn_profile {
            add_ids(evidence, profile.evidence);
        }
        proof {
            assert(id_set(evidence@) =~= mid + label_policy_evidence(*policy));
        }
    }
    proof {
        assert(id_set(evidence@) =~= start + product_evidence(*product));
    }
}

} // verus!
