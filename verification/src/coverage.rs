//! Dimensional coverage statistics over a catalog.
//!
//! Roots are split by namespace state, topology by PSL section, selectors by
//! form, and each policy dimension by evidence state, both once per product
//! and once per selector that resolves to a product.

use vstd::prelude::*;

use crate::catalog::{catalog_fits, Catalog, ProductSelector};
use crate::lookup::{get, lookup};
use crate::types::{
    ClaimCounts, ClaimStatus, IdnSupport, PolicyCoverage, PslSection, PublicAccess,
    RegistrationProduct, RegistryStats, RootCounts, RootState, RootTld, SelectorCounts,
    SuffixRule, TopologyCounts,
};

verus! {

/// One policy dimension whose evidence state is counted.
#[derive(Debug, Clone, Copy, PartialEq, Eq, Structural)]
pub enum CoverageDimension {
    /// The offering-state claim.
    OfferingState,
    /// The public-access claim.
    PublicAccess,
    /// The eligibility policy.
    Eligibility,
    /// The label policy as a whole.
    LabelPolicy,
    /// IDN support and its profile.
    IdnPolicy,
    /// The reserved-label set.
    ReservedLabels,
}

/// Number of items of `s` that satisfy `p`.
pub open spec fn count_where<T>(s: Seq<T>, p: spec_fn(T) -> bool) -> nat
    decreases s.len(),
{
    if s.len() == 0 {
        0
    } else {
        count_where(s.drop_last(), p) + if p(s.last()) {
            1nat
        } else {
            0nat
        }
    }
}

/// Eligibility coverage: verified when access is verified open or unavailable,
/// or verified gated with an expression; unknown for a verified gate without
/// one or a verified claim without a value; else the access claim's state.
pub open spec fn eligibility_coverage(p: RegistrationProduct) -> ClaimStatus {
    match p.public_access.status {
        ClaimStatus::Verified => match p.public_access.value {
            Some(PublicAccess::Open) | Some(PublicAccess::Unavailable) => ClaimStatus::Verified,
            Some(_) => if p.eligibility is Some {
                ClaimStatus::Verified
            } else {
                ClaimStatus::Unknown
            },
            None => ClaimStatus::Unknown,
        },
        s => s,
    }
}

/// IDN coverage: unknown without a label policy; verified for verified
/// unsupport, or verified support with a profile; unknown for verified
/// support without a profile or without a value; else the claim's state.
pub open spec fn idn_coverage(p: RegistrationProduct) -> ClaimStatus {
    match p.label_policy {
        None => ClaimStatus::Unknown,
        Some(policy) => match policy.idn_support.status {
            ClaimStatus::Verified => match policy.idn_support.value {
                Some(IdnSupport::Unsupported) => ClaimStatus::Verified,
                Some(IdnSupport::Supported) => if policy.idn_profile is Some {
                    ClaimStatus::Verified
                } else {
                    ClaimStatus::Unknown
                },
                None => ClaimStatus::Unknown,
            },
            s => s,
        },
    }
}

/// The evidence state of one dimension of a product.
pub open spec fn dimension_status(p: RegistrationProduct, dim: CoverageDimension) -> ClaimStatus {
    match dim {
        CoverageDimension::OfferingState => p.offering_state.status,
        CoverageDimension::PublicAccess => p.public_access.status,
        CoverageDimension::Eligibility => eligibility_coverage(p),
        CoverageDimension::LabelPolicy => match p.label_policy {
            Some(l) => l.completeness,
            None => ClaimStatus::Unknown,
        },
        CoverageDimension::IdnPolicy => idn_coverage(p),
        CoverageDimension::ReservedLabels => match p.label_policy {
            Some(l) => l.reserved_status,
            None => ClaimStatus::Unknown,
        },
    }
}

/// Returns eligibility-policy coverage without confusing non-applicability with unknown.
pub fn eligibility_coverage_status(product: &RegistrationProduct) -> (r: ClaimStatus)
    ensures
        r == eligibility_coverage(*product),
{
    match product.public_access.status {
        ClaimStatus::Verified => match product.public_access.value {
            Some(PublicAccess::Open) | Some(PublicAccess::Unavailable) => ClaimStatus::Verified,
            Some(_) => if product.eligibility.is_some() {
                ClaimStatus::Verified
            } else {
                ClaimStatus::Unknown
            },
            None => ClaimStatus::Unknown,
        },
        s => s,
    }
}

/// Returns per-product IDN coverage, treating verified unsupported as complete.
pub fn idn_coverage_status(product: &RegistrationProduct) -> (r: ClaimStatus)
    ensures
        r == idn_coverage(*product),
{
    match &product.label_policy {
        None => ClaimStatus::Unknown,
        Some(policy) => match policy.idn_support.status {
            ClaimStatus::Verified => match policy.idn_support.value {
                Some(IdnSupport::Unsupported) => ClaimStatus::Verified,
                Some(IdnSupport::Supported) => if policy.idn_profile.is_some() {
                    ClaimStatus::Verified
                } else {
                    ClaimStatus::Unknown
                },
                None => ClaimStatus::Unknown,
            },
            s => s,
        },
    }
}

/// Returns the evidence state of one dimension of a product.
fn product_dimension_status(product: &RegistrationProduct, dim: CoverageDimension) -> (r:
    ClaimStatus)
    ensures
        r == dimension_status(*product, dim),
{
    match dim {
        CoverageDimension::OfferingState => product.offering_state.status,
        CoverageDimension::PublicAccess => product.public_access.status,
        CoverageDimension::Eligibility => eligibility_coverage_status(product),
        CoverageDimension::LabelPolicy => match &product.label_policy {
            Some(l) => l.completeness,
            None => ClaimStatus::Unknown,
        },
        CoverageDimension::IdnPolicy => idn_coverage_status(product),
        CoverageDimension::ReservedLabels => match &product.label_policy {
            Some(l) => l.reserved_status,
            None => ClaimStatus::Unknown,
        },
    }
}

/// Counts as a function of the evidence state.
pub open spec fn counts_are(counts: ClaimCounts, f: spec_fn(ClaimStatus) -> nat) -> bool {
    &&& counts.verified == f(ClaimStatus::Verified)
    &&& counts.unknown == f(ClaimStatus::Unknown)
    &&& counts.stale == f(ClaimStatus::Stale)
    &&& counts.conflicting == f(ClaimStatus::Conflicting)
}

/// Increments the bucket corresponding to one audit state.
fn increment_claim_count(counts: &mut ClaimCounts, status: ClaimStatus)
    requires
        old(counts).total_spec() < usize::MAX,
    ensures
        counts_are(
            *final(counts),
            |s: ClaimStatus|
                (if s == ClaimStatus::Verified {
                    old(counts).verified
                } else if s == ClaimStatus::Unknown {
                    old(counts).unknown
                } else if s == ClaimStatus::Stale {
                    old(counts).stale
                } else {
                    old(counts).conflicting
                }) as nat + if s == status {
                    1nat
                } else {
                    0nat
                },
        ),
        final(counts).total_spec() == old(counts).total_spec() + 1,
{
    match status {
        ClaimStatus::Verified => counts.verified = counts.verified + 1,
        ClaimStatus::Unknown => counts.unknown = counts.unknown + 1,
        ClaimStatus::Stale => counts.stale = counts.stale + 1,
        ClaimStatus::Conflicting => counts.conflicting = counts.conflicting + 1,
    }
}

/// Counts with every bucket at zero.
fn zero_counts() -> (r: ClaimCounts)
    ensures
        counts_are(r, |s: ClaimStatus| 0nat),
        r.total_spec() == 0,
{
    ClaimCounts { verified: 0, unknown: 0, stale: 0, conflicting: 0 }
}

/// The number of products whose dimension has state `s`.
pub open spec fn product_count(
    products: Seq<RegistrationProduct>,
    dim: CoverageDimension,
    s: ClaimStatus,
) -> nat {
    count_where(products, |p: RegistrationProduct| dimension_status(p, dim) == s)
}

/// The number of selectors that resolve to a product whose dimension has state `s`.
pub open spec fn selector_count(
    selectors: Seq<ProductSelector>,
    products: Seq<RegistrationProduct>,
    dim: CoverageDimension,
    s: ClaimStatus,
) -> nat {
    count_where(
        selectors,
        |x: ProductSelector|
            lookup(products, x.product_id@) matches Some(p) && dimension_status(p, dim) == s,
    )
}

/// Counts the products by the evidence state of one dimension.
fn count_products(products: &Vec<RegistrationProduct>, dim: CoverageDimension) -> (r: ClaimCounts)
    ensures
        counts_are(r, |s: ClaimStatus| product_count(products@, dim, s)),
        r.total_spec() == products@.len(),
{
    let mut counts = zero_counts();
    let mut i: usize = 0;
    while i < products.len()
        invariant
            i <= products@.len(),
            counts_are(counts, |s: ClaimStatus| product_count(products@.take(i as int), dim, s)),
            counts.total_spec() == i,
        decreases products@.len() - i,
    {
        let status = product_dimension_status(&products[i], dim);
        proof {
            let t = products@.take(i + 1);
            assert(t.drop_last() =~= products@.take(i as int));
            assert(t.last() == products@[i as int]);
        }
        increment_claim_count(&mut counts, status);
        i = i + 1;
    }
    proof {
        assert(products@.take(products@.len() as int) =~= products@);
    }
    counts
}

/// Adds the selectors of one table, by the state of their product's dimension.
fn count_selectors(
    counts: &mut ClaimCounts,
    selectors: &Vec<ProductSelector>,
    products: &Vec<RegistrationProduct>,
    dim: CoverageDimension,
)
    requires
        old(counts).total_spec() + selectors@.len() <= usize::MAX,
    ensures
        counts_are(
            *final(counts),
            |s: ClaimStatus|
                (if s == ClaimStatus::Verified {
                    old(counts).verified
                } else if s == ClaimStatus::Unknown {
                    old(counts).unknown
                } else if s == ClaimStatus::Stale {
                    old(counts).stale
                } else {
                    old(counts).conflicting
                }) as nat + selector_count(selectors@, products@, dim, s),
        ),
        final(counts).total_spec() <= old(counts).total_spec() + selectors@.len(),
{
    let ghost start = *counts;
    let mut i: usize = 0;
    while i < selectors.len()
        invariant
            i <= selectors@.len(),
            start.total_spec() + selectors@.len() <= usize::MAX,
            counts.total_spec() <= start.total_spec() + i,
            counts_are(
                *counts,
                |s: ClaimStatus|
                    (if s == ClaimStatus::Verified {
                        start.verified
                    } else if s == ClaimStatus::Unknown {
                        start.unknown
                    } else if s == ClaimStatus::Stale {
                        start.stale
                    } else {
                        start.conflicting
                    }) as nat + selector_count(selectors@.take(i as int), products@, dim, s),
            ),
        decreases selectors@.len() - i,
    {
        proof {
            let t = selectors@.take(i + 1);
            assert(t.drop_last() =~= selectors@.take(i as int));
            assert(t.last() == selectors@[i as int]);
        }
        if let Some(product) = get(products, selectors[i].product_id) {
            let status = product_dimension_status(product, dim);
            increment_claim_count(counts, status);
        }
        i = i + 1;
    }
    proof {
        assert(selectors@.take(selectors@.len() as int) =~= selectors@);
    }
}

/// Both coverage measures of one dimension.
fn dimension_coverage(catalog: &Catalog, dim: CoverageDimension) -> (r: PolicyCoverage)
    requires
        catalog.product_by_suffix@.len() + catalog.product_one_label_below@.len() <= usize::MAX,
    ensures
        counts_are(r.by_product, |s: ClaimStatus| product_count(catalog.products@, dim, s)),
        counts_are(
            r.by_selector,
            |s: ClaimStatus|
                selector_count(catalog.product_by_suffix@, catalog.products@, dim, s)
                    + selector_count(catalog.product_one_label_below@, catalog.products@, dim, s),
        ),
{
    let by_product = count_products(&catalog.products, dim);
    let mut by_selector = zero_counts();
    count_selectors(&mut by_selector, &catalog.product_by_suffix, &catalog.products, dim);
    count_selectors(&mut by_selector, &catalog.product_one_label_below, &catalog.products, dim);
    PolicyCoverage { by_product, by_selector }
}

/// The number of roots whose verified state is `s`, or whose state is
/// unresolved when `s` is none.
pub open spec fn root_count(roots: Seq<RootTld>, s: Option<RootState>) -> nat {
    count_where(roots, |t: RootTld| t.state.verified_spec() == s)
}

/// The number of rules of `rules` in section `s`.
pub open spec fn section_count(rules: Seq<SuffixRule>, s: PslSection) -> nat {
    count_where(rules, |r: SuffixRule| r.section == s)
}

/// Counts the roots by verified state.
fn count_roots(roots: &Vec<RootTld>) -> (r: RootCounts)
    ensures
        r.current == root_count(roots@, Some(RootState::Delegated)),
        r.special_use == root_count(roots@, Some(RootState::SpecialUse)),
        r.absent == root_count(roots@, Some(RootState::Absent)),
        r.unresolved == root_count(roots@, None),
        r.total_spec() == roots@.len(),
{
    let mut counts = RootCounts { current: 0, special_use: 0, absent: 0, unresolved: 0 };
    let mut i: usize = 0;
    while i < roots.len()
        invariant
            i <= roots@.len(),
            counts.current == root_count(roots@.take(i as int), Some(RootState::Delegated)),
            counts.special_use == root_count(roots@.take(i as int), Some(RootState::SpecialUse)),
            counts.absent == root_count(roots@.take(i as int), Some(RootState::Absent)),
            counts.unresolved == root_count(roots@.take(i as int), None),
            counts.total_spec() == i,
        decreases roots@.len() - i,
    {
        proof {
            let t = roots@.take(i + 1);
            assert(t.drop_last() =~= roots@.take(i as int));
            assert(t.last() == roots@[i as int]);
        }
        match roots[i].state.verified_value() {
            Some(RootState::Delegated) => counts.current = counts.current + 1,
            Some(RootState::SpecialUse) => counts.special_use = counts.special_use + 1,
            Some(RootState::Absent) => counts.absent = counts.absent + 1,
            None => counts.unresolved = counts.unresolved + 1,
        }
        i = i + 1;
    }
    proof {
        assert(roots@.take(roots@.len() as int) =~= roots@);
    }
    counts
}

/// Adds the rules of one table to the section counts.
fn count_sections(counts: &mut TopologyCounts, rules: &Vec<SuffixRule>)
    requires
        old(counts).total_spec() + rules@.len() <= usize::MAX,
    ensures
        final(counts).icann == old(counts).icann + section_count(rules@, PslSection::Icann),
        final(counts).private == old(counts).private + section_count(rules@, PslSection::Private),
        final(counts).total_spec() == old(counts).total_spec() + rules@.len(),
{
    let ghost start = *counts;
    let mut i: usize = 0;
    while i < rules.len()
        invariant
            i <= rules@.len(),
            start.total_spec() + rules@.len() <= usize::MAX,
            counts.icann == start.icann + section_count(rules@.take(i as int), PslSection::Icann),
            counts.private == start.private + section_count(
                rules@.take(i as int),
                PslSection::Private,
            ),
            counts.total_spec() == start.total_spec() + i,
        decreases rules@.len() - i,
    {
        proof {
            let t = rules@.take(i + 1);
            assert(t.drop_last() =~= rules@.take(i as int));
            assert(t.last() == rules@[i as int]);
        }
        match rules[i].section {
            PslSection::Icann => counts.icann = counts.icann + 1,
            PslSection::Private => counts.private = counts.private + 1,
        }
        i = i + 1;
    }
    proof {
        assert(rules@.take(rules@.len() as int) =~= rules@);
    }
}

/// The statistics of a catalog: every count as stated by the spec functions above.
pub open spec fn stats_spec(r: RegistryStats, c: Catalog) -> bool {
    &&& r.roots.current == root_count(c.roots@, Some(RootState::Delegated))
    &&& r.roots.special_use == root_count(c.roots@, Some(RootState::SpecialUse))
    &&& r.roots.absent == root_count(c.roots@, Some(RootState::Absent))
    &&& r.roots.unresolved == root_count(c.roots@, None)
    &&& r.topology.icann == section_count(c.psl.exact@, PslSection::Icann) + section_count(
        c.psl.wildcard@,
        PslSection::Icann,
    ) + section_count(c.psl.exception@, PslSection::Icann)
    &&& r.topology.private == section_count(c.psl.exact@, PslSection::Private) + section_count(
        c.psl.wildcard@,
        PslSection::Private,
    ) + section_count(c.psl.exception@, PslSection::Private)
    &&& r.products == c.products@.len()
    &&& r.policy_profiles == c.profiles@.len()
    &&& r.selectors.exact == c.product_by_suffix@.len()
    &&& r.selectors.one_label_below == c.product_one_label_below@.len()
    &&& coverage_spec(r.offering_state, c, CoverageDimension::OfferingState)
    &&& coverage_spec(r.public_access, c, CoverageDimension::PublicAccess)
    &&& coverage_spec(r.eligibility, c, CoverageDimension::Eligibility)
    &&& coverage_spec(r.label_policy, c, CoverageDimension::LabelPolicy)
    &&& coverage_spec(r.idn_policy, c, CoverageDimension::IdnPolicy)
    &&& coverage_spec(r.reserved_labels, c, CoverageDimension::ReservedLabels)
}

/// Both coverage measures of one dimension of a catalog.
pub open spec fn coverage_spec(r: PolicyCoverage, c: Catalog, dim: CoverageDimension) -> bool {
    &&& counts_are(r.by_product, |s: ClaimStatus| product_count(c.products@, dim, s))
    &&& counts_are(
        r.by_selector,
        |s: ClaimStatus|
            selector_count(c.product_by_suffix@, c.products@, dim, s) + selector_count(
                c.product_one_label_below@,
                c.products@,
                dim,
                s,
            ),
    )
}

/// Reports dimensional data coverage without treating PSL import as policy research.
pub fn catalog_stats(catalog: &Catalog) -> (r: RegistryStats)
    requires
        catalog_fits(*catalog),
    ensures
        stats_spec(r, *catalog),
{
    let roots = count_roots(&catalog.roots);
    let mut topology = TopologyCounts { icann: 0, private: 0 };
    count_sections(&mut topology, &catalog.psl.exact);
    count_sections(&mut topology, &catalog.psl.wildcard);
    count_sections(&mut topology, &catalog.psl.exception);
    let selectors = SelectorCounts {
        exact: catalog.product_by_suffix.len(),
        one_label_below: catalog.product_one_label_below.len(),
    };
    RegistryStats {
        roots,
        topology,
        products: catalog.products.len(),
        policy_profiles: catalog.profiles.len(),
        selectors,
        offering_state: dimension_coverage(catalog, CoverageDimension::OfferingState),
        public_access: dimension_coverage(catalog, CoverageDimension::PublicAccess),
        eligibility: dimension_coverage(catalog, CoverageDimension::Eligibility),
        label_policy: dimension_coverage(catalog, CoverageDimension::LabelPolicy),
        idn_policy: dimension_coverage(catalog, CoverageDimension::IdnPolicy),
        reserved_labels: dimension_coverage(catalog, CoverageDimension::ReservedLabels),
    }
}

/// Every product has exactly one evidence state in each dimension.
proof fn lemma_product_partition(s: Seq<RegistrationProduct>, dim: CoverageDimension)
    ensures
        product_count(s, dim, ClaimStatus::Verified) + product_count(s, dim, ClaimStatus::Unknown)
            + product_count(s, dim, ClaimStatus::Stale) + product_count(
            s,
            dim,
            ClaimStatus::Conflicting,
        ) == s.len(),
    decreases s.len(),
{
    if s.len() > 0 {
        lemma_product_partition(s.drop_last(), dim);
    }
}

/// The number of selectors of `selectors` whose product is in the catalog.
pub open spec fn resolving_count(
    selectors: Seq<ProductSelector>,
    products: Seq<RegistrationProduct>,
) -> nat {
    count_where(selectors, |x: ProductSelector| lookup(products, x.product_id@) is Some)
}

/// A selector that resolves has exactly one evidence state in each dimension.
proof fn lemma_selector_partition(
    s: Seq<ProductSelector>,
    products: Seq<RegistrationProduct>,
    dim: CoverageDimension,
)
    ensures
        selector_count(s, products, dim, ClaimStatus::Verified) + selector_count(
            s,
            products,
            dim,
            ClaimStatus::Unknown,
        ) + selector_count(s, products, dim, ClaimStatus::Stale) + selector_count(
            s,
            products,
            dim,
            ClaimStatus::Conflicting,
        ) == resolving_count(s, products),
    decreases s.len(),
{
    if s.len() > 0 {
        lemma_selector_partition(s.drop_last(), products, dim);
    }
}

/// When every selector resolves, all of them are counted.
proof fn lemma_all_resolve(s: Seq<ProductSelector>, products: Seq<RegistrationProduct>)
    requires
        forall|i: int| 0 <= i < s.len() ==> lookup(products, (#[trigger] s[i]).product_id@) is Some,
    ensures
        resolving_count(s, products) == s.len(),
    decreases s.len(),
{
    if s.len() > 0 {
        assert(s.last() == s[s.len() - 1]);
        lemma_all_resolve(s.drop_last(), products);
    }
}

/// Every root has exactly one state bucket.
proof fn lemma_root_partition(s: Seq<RootTld>)
    ensures
        root_count(s, Some(RootState::Delegated)) + root_count(s, Some(RootState::SpecialUse))
            + root_count(s, Some(RootState::Absent)) + root_count(s, None) == s.len(),
    decreases s.len(),
{
    if s.len() > 0 {
        lemma_root_partition(s.drop_last());
        match s.last().state.verified_spec() {
            Some(RootState::Delegated) => {},
            Some(RootState::SpecialUse) => {},
            Some(RootState::Absent) => {},
            None => {},
        }
    }
}

/// Every rule is in exactly one section.
proof fn lemma_section_partition(s: Seq<SuffixRule>)
    ensures
        section_count(s, PslSection::Icann) + section_count(s, PslSection::Private) == s.len(),
    decreases s.len(),
{
    if s.len() > 0 {
        lemma_section_partition(s.drop_last());
    }
}

/// Every selector of both tables names a product of the catalog.
pub open spec fn selectors_resolve(c: Catalog) -> bool {
    &&& forall|i: int|
        0 <= i < c.product_by_suffix@.len() ==> lookup(
            c.products@,
            (#[trigger] c.product_by_suffix@[i]).product_id@,
        ) is Some
    &&& forall|i: int|
        0 <= i < c.product_one_label_below@.len() ==> lookup(
            c.products@,
            (#[trigger] c.product_one_label_below@[i]).product_id@,
        ) is Some
}

/// Statistics use explicit and consistent denominators: roots, topology and
/// selectors add up to their tables; each dimension counts every product once
/// and every resolving selector once, which is every selector of a catalog
/// whose selectors all name products.
pub proof fn law_stats_denominators(r: RegistryStats, c: Catalog, dim: CoverageDimension)
    requires
        stats_spec(r, c),
    ensures
        r.roots.total_spec() == c.roots@.len(),
        r.topology.total_spec() == c.psl.exact@.len() + c.psl.wildcard@.len()
            + c.psl.exception@.len(),
        r.selectors.total_spec() == c.product_by_suffix@.len() + c.product_one_label_below@.len(),
        ({
            let cov = match dim {
                CoverageDimension::OfferingState => r.offering_state,
                CoverageDimension::PublicAccess => r.public_access,
                CoverageDimension::Eligibility => r.eligibility,
                CoverageDimension::LabelPolicy => r.label_policy,
                CoverageDimension::IdnPolicy => r.idn_policy,
                CoverageDimension::ReservedLabels => r.reserved_labels,
            };
            &&& cov.by_product.total_spec() == c.products@.len()
            &&& cov.by_selector.total_spec() == resolving_count(c.product_by_suffix@, c.products@)
                + resolving_count(c.product_one_label_below@, c.products@)
            &&& selectors_resolve(c) ==> cov.by_selector.total_spec() == r.selectors.total_spec()
        }),
{
    lemma_root_partition(c.roots@);
    lemma_section_partition(c.psl.exact@);
    lemma_section_partition(c.psl.wildcard@);
    lemma_section_partition(c.psl.exception@);
    lemma_product_partition(c.products@, dim);
    lemma_selector_partition(c.product_by_suffix@, c.products@, dim);
    lemma_selector_partition(c.product_one_label_below@, c.products@, dim);
    if selectors_resolve(c) {
        lemma_all_resolve(c.product_by_suffix@, c.products@);
        lemma_all_resolve(c.product_one_label_below@, c.products@);
    }
}

/// A count of the items that satisfy a predicate is the length of the list
/// filtered by any predicate that agrees with it.
proof fn lemma_count_is_filter_len<T>(s: Seq<T>, p: spec_fn(T) -> bool, q: spec_fn(T) -> bool)
    requires
        forall|x: T| #[trigger] p(x) == q(x),
    ensures
        count_where(s, p) == s.filter(q).len(),
    decreases s.len(),
{
    reveal(Seq::filter);
    if s.len() > 0 {
        lemma_count_is_filter_len(s.drop_last(), p, q);
        assert(p(s.last()) == q(s.last()));
    }
}

/// The roots counted under one verified state are those whose state claim
/// agrees with `q`.
proof fn lemma_root_count_filter(
    roots: Seq<RootTld>,
    s: Option<RootState>,
    q: spec_fn(RootTld) -> bool,
)
    requires
        forall|t: RootTld| #[trigger] q(t) == (t.state.verified_spec() == s),
    ensures
        root_count(roots, s) == roots.filter(q).len(),
{
    lemma_count_is_filter_len(roots, |t: RootTld| t.state.verified_spec() == s, q);
}

/// The root statistics count each root by its state claim: a root is current,
/// special-use or absent only when its claim is verified with that value, and
/// every root whose claim is not verified (stale, conflicting, unknown) or
/// has no value is unresolved.
pub proof fn law_root_counts(r: RegistryStats, c: Catalog)
    requires
        stats_spec(r, c),
    ensures
        r.roots.current == c.roots@.filter(
            |t: RootTld|
                t.state.status == ClaimStatus::Verified && t.state.value == Some(
                    RootState::Delegated,
                ),
        ).len(),
        r.roots.special_use == c.roots@.filter(
            |t: RootTld|
                t.state.status == ClaimStatus::Verified && t.state.value == Some(
                    RootState::SpecialUse,
                ),
        ).len(),
        r.roots.absent == c.roots@.filter(
            |t: RootTld|
                t.state.status == ClaimStatus::Verified && t.state.value == Some(RootState::Absent),
        ).len(),
        r.roots.unresolved == c.roots@.filter(
            |t: RootTld| t.state.status != ClaimStatus::Verified || t.state.value is None,
        ).len(),
{
    lemma_root_count_filter(
        c.roots@,
        Some(RootState::Delegated),
        |t: RootTld|
            t.state.status == ClaimStatus::Verified && t.state.value == Some(RootState::Delegated),
    );
    lemma_root_count_filter(
        c.roots@,
        Some(RootState::SpecialUse),
        |t: RootTld|
            t.state.status == ClaimStatus::Verified && t.state.value == Some(RootState::SpecialUse),
    );
    lemma_root_count_filter(
        c.roots@,
        Some(RootState::Absent),
        |t: RootTld|
            t.state.status == ClaimStatus::Verified && t.state.value == Some(RootState::Absent),
    );
    lemma_root_count_filter(
        c.roots@,
        None,
        |t: RootTld| t.state.status != ClaimStatus::Verified || t.state.value is None,
    );
}

} // verus!
