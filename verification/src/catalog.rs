//! The pinned namespace, topology, and registration-product catalog.
//!
//! Roots, Public Suffix List rules, and special-use names carry the stable
//! evidence identifiers of their snapshots; registration products carry the
//! identifiers of the curated policy sources behind each claim. A fact that is
//! not researched stays `Unknown`.
//!
//! The pinned catalog is a small sample, not the full snapshots: it holds 20
//! roots, 18 PSL rules, 13 special-use names and 7 registration products.
//! Because absence from the current-root list is read as verified absence, a
//! real root outside the sample (for example `fr`) is reported as verified
//! absent and its names as impossible. Every contract of the library holds for
//! any catalog; only answers about particular names depend on this data.

use vstd::prelude::*;

use crate::eligibility::{requirements_of, requirements_of_all};
use crate::evidence::{id_set, product_evidence, requirements_evidence};
use crate::lookup::{lemma_lookup_found, lookup, Keyed};
use crate::namespace::claim_model;
use crate::normalize::unpadded;
use crate::requirement_set::ids_view;
use crate::topology::PslRules;
use crate::types::{
    opt_str_view, ApplicationChannel, Claim, ClaimStatus, Designation, EligibilityExpression,
    EligibilityKind, EligibilityRequirement, Evidence, LabelPolicy, OfferingState, PolicyProfile,
    PslSection, PublicAccess, RegistrationProduct, RootFamily, RootState, RootTld, SourceKind,
    SuffixRole, SuffixRule, SuffixRuleKind,
};

verus! {

/// One name from the special-use domain-name registry.
#[derive(Debug, Clone, Copy, PartialEq, Eq, Hash)]
pub struct SpecialUseName {
    /// Canonical A-label name without a trailing dot.
    pub name: &'static str,
}

/// An assignment of a registration product to a suffix selector.
#[derive(Debug, Clone, Copy, PartialEq, Eq, Hash)]
pub struct ProductSelector {
    /// Exact suffix, or the parent of a one-label-below family.
    pub suffix: &'static str,
    /// Stable product identifier.
    pub product_id: &'static str,
}

impl Keyed for SpecialUseName {
    open spec fn key_view(&self) -> Seq<char> {
        self.name@
    }

    fn key(&self) -> (k: &str) {
        self.name
    }
}

impl Keyed for ProductSelector {
    open spec fn key_view(&self) -> Seq<char> {
        self.suffix@
    }

    fn key(&self) -> (k: &str) {
        self.suffix
    }
}

impl Keyed for RootTld {
    open spec fn key_view(&self) -> Seq<char> {
        self.ascii_label@
    }

    fn key(&self) -> (k: &str) {
        self.ascii_label
    }
}

impl Keyed for RegistrationProduct {
    open spec fn key_view(&self) -> Seq<char> {
        self.id@
    }

    fn key(&self) -> (k: &str) {
        self.id
    }
}

impl Keyed for PolicyProfile {
    open spec fn key_view(&self) -> Seq<char> {
        self.id@
    }

    fn key(&self) -> (k: &str) {
        self.id
    }
}

impl Keyed for Evidence {
    open spec fn key_view(&self) -> Seq<char> {
        self.id@
    }

    fn key(&self) -> (k: &str) {
        self.id
    }
}

/// Every table the registry consults.
#[derive(Debug)]
pub struct Catalog {
    /// Reusable evidence records.
    pub evidence: Vec<Evidence>,
    /// Current and special-use root labels.
    pub roots: Vec<RootTld>,
    /// Public Suffix List topology.
    pub psl: PslRules,
    /// Names from the special-use domain-name registry.
    pub special_use: Vec<SpecialUseName>,
    /// Shared policy profiles.
    pub profiles: Vec<PolicyProfile>,
    /// Registration products.
    pub products: Vec<RegistrationProduct>,
    /// Exact suffix assignments.
    pub product_by_suffix: Vec<ProductSelector>,
    /// One-label-below family assignments, keyed by the family's parent.
    pub product_one_label_below: Vec<ProductSelector>,
}

/// The table sizes of a catalog fit the machine's counters.
pub open spec fn catalog_fits(c: Catalog) -> bool {
    &&& c.psl.exact@.len() + c.psl.wildcard@.len() + c.psl.exception@.len() <= usize::MAX
    &&& c.product_by_suffix@.len() + c.product_one_label_below@.len() <= usize::MAX
}

/// One evidence record as plain values: identifier, kind, publisher, URL
/// and locator.
pub open spec fn evidence_entry(e: Evidence) -> (Seq<char>, SourceKind, Seq<char>, Seq<char>, Seq<char>) {
    (e.id@, e.kind, e.publisher@, e.url@, e.locator@)
}

/// A claim as plain values: status, value and evidence identifiers.
pub type ClaimView<T> = (ClaimStatus, Option<T>, Seq<Seq<char>>);

/// A root as plain values: label, Unicode label, IANA type, family, operator
/// identifiers, root fact and designations.
pub type RootView = (
    Seq<char>,
    Option<Seq<char>>,
    Option<Seq<char>>,
    Option<RootFamily>,
    Seq<Seq<char>>,
    ClaimView<RootState>,
    Seq<Designation>,
);

/// A requirement as plain values: identifier, kind, value, explanation and
/// evidence identifiers.
pub type RequirementView = (Seq<char>, EligibilityKind, Seq<char>, Seq<char>, Seq<Seq<char>>);

/// An optional eligibility expression as plain values: whether it is a
/// conjunction, and its requirements in order.
pub type EligibilityView = Option<(bool, Seq<RequirementView>)>;

/// A profile as plain values: identifier, parent, offering, access and
/// channel claims, eligibility and label policy.
pub type ProfileView = (
    Seq<char>,
    Option<Seq<char>>,
    ClaimView<OfferingState>,
    ClaimView<PublicAccess>,
    ClaimView<ApplicationChannel>,
    EligibilityView,
    Option<LabelPolicy>,
);

/// A product as plain values: identifier, operator, offering, access and
/// channel claims, eligibility, label policy and designations.
pub type ProductView = (
    Seq<char>,
    Seq<char>,
    ClaimView<OfferingState>,
    ClaimView<PublicAccess>,
    ClaimView<ApplicationChannel>,
    EligibilityView,
    Option<LabelPolicy>,
    Seq<Designation>,
);

/// One root as plain values.
pub open spec fn root_entry(t: RootTld) -> RootView {
    (
        t.ascii_label@,
        opt_str_view(t.unicode_label),
        opt_str_view(t.raw_iana_type),
        t.family,
        ids_view(t.operator_ids@),
        claim_model(t.state),
        t.designations@,
    )
}

/// A root delegated according to the current-root list, as plain values.
pub open spec fn delegated_entry(
    label: Seq<char>,
    unicode_label: Option<Seq<char>>,
    raw_iana_type: Seq<char>,
    family: RootFamily,
    operator_ids: Seq<Seq<char>>,
    designations: Seq<Designation>,
) -> RootView {
    (
        label,
        unicode_label,
        Some(raw_iana_type),
        Some(family),
        operator_ids,
        (ClaimStatus::Verified, Some(RootState::Delegated), seq![current_root_evidence()]),
        designations,
    )
}

/// A root label reserved by the special-use registry, as plain values.
pub open spec fn special_entry(label: Seq<char>) -> RootView {
    (
        label,
        None,
        None,
        None,
        Seq::empty(),
        (ClaimStatus::Verified, Some(RootState::SpecialUse), seq![special_use_evidence()]),
        Seq::empty(),
    )
}

/// One PSL rule as plain values: its labels, kind and section.
pub open spec fn rule_entry(r: SuffixRule) -> (Seq<char>, SuffixRuleKind, PslSection) {
    (r.labels@, r.kind, r.section)
}

/// Every rule of a table takes its role from its section and cites the PSL.
pub open spec fn rules_cite_psl(rules: Seq<SuffixRule>) -> bool {
    forall|i: int|
        0 <= i < rules.len() ==> (#[trigger] rules[i]).role == section_role(rules[i].section)
            && rules[i].evidence@ == "psl"@
}

/// One requirement as plain values.
pub open spec fn requirement_view(r: EligibilityRequirement) -> RequirementView {
    (r.id@, r.kind, r.value@, r.explanation@, ids_view(r.evidence@))
}

/// An optional eligibility expression as plain values.
pub open spec fn eligibility_view(e: Option<EligibilityExpression>) -> EligibilityView {
    match e {
        Some(x) => Some(
            (
                x is All,
                requirements_of(x).map_values(|r: EligibilityRequirement| requirement_view(r)),
            ),
        ),
        None => None,
    }
}

/// One profile as plain values.
pub open spec fn profile_entry(p: PolicyProfile) -> ProfileView {
    (
        p.id@,
        opt_str_view(p.extends),
        claim_model(p.offering_state),
        claim_model(p.public_access),
        claim_model(p.application_channel),
        eligibility_view(p.eligibility),
        p.label_policy,
    )
}

/// One product as plain values.
pub open spec fn product_entry(p: RegistrationProduct) -> ProductView {
    (
        p.id@,
        p.operator_id@,
        claim_model(p.offering_state),
        claim_model(p.public_access),
        claim_model(p.application_channel),
        eligibility_view(p.eligibility),
        p.label_policy,
        p.designations@,
    )
}

/// A product that takes its facts from a profile, as plain values.
pub open spec fn product_view_of(
    id: Seq<char>,
    operator_id: Seq<char>,
    profile: ProfileView,
    designations: Seq<Designation>,
) -> ProductView {
    (id, operator_id, profile.2, profile.3, profile.4, profile.5, profile.6, designations)
}

/// One selector as plain values: its suffix and product identifier.
pub open spec fn selector_entry(x: ProductSelector) -> (Seq<char>, Seq<char>) {
    (x.suffix@, x.product_id@)
}

/// The `arpa-infrastructure-v1` profile, as plain values.
pub open spec fn arpa_view() -> ProfileView {
    (
        "arpa-infrastructure-v1"@,
        None,
        (ClaimStatus::Unknown, None, Seq::empty()),
        (ClaimStatus::Verified, Some(PublicAccess::Unavailable), seq!["rfc3172-arpa"@]),
        (ClaimStatus::Verified, Some(ApplicationChannel::Internal), seq!["rfc3172-arpa"@]),
        None,
        None,
    )
}

/// The `denic-open-v1` profile, as plain values.
pub open spec fn denic_open_view() -> ProfileView {
    (
        "denic-open-v1"@,
        None,
        (ClaimStatus::Verified, Some(OfferingState::Accepting), seq!["denic-public-applicants"@]),
        (ClaimStatus::Verified, Some(PublicAccess::Open), seq!["denic-public-applicants"@]),
        (ClaimStatus::Verified, Some(ApplicationChannel::Registrar), seq!["denic-public-applicants"@]),
        None,
        None,
    )
}

/// The `dotgov-v1` profile, as plain values.
pub open spec fn dotgov_view() -> ProfileView {
    (
        "dotgov-v1"@,
        None,
        (ClaimStatus::Verified, Some(OfferingState::Accepting), seq!["dotgov-eligibility"@]),
        (ClaimStatus::Verified, Some(PublicAccess::Conditional), seq!["dotgov-eligibility"@]),
        (ClaimStatus::Verified, Some(ApplicationChannel::ApprovalWorkflow), seq!["dotgov-eligibility"@]),
        Some(
            (
                true,
                seq![
                (
                    "us-government-organization"@,
                    EligibilityKind::EntityType,
                    "us-government-organization"@,
                    "The registrant must be a U.S.-based government organization."@,
                    seq!["dotgov-eligibility"@],
                ),
                (
                    "dotgov-senior-official-approval"@,
                    EligibilityKind::AuthorityApproval,
                    "authorizing-official"@,
                    "A senior official of the organization must authorize the request."@,
                    seq!["dotgov-eligibility"@],
                ),
                ],
            ),
        ),
        None,
    )
}

/// The `educause-unresearched-v1` profile, as plain values.
pub open spec fn educause_view() -> ProfileView {
    (
        "educause-unresearched-v1"@,
        None,
        (ClaimStatus::Unknown, None, Seq::empty()),
        (ClaimStatus::Unknown, None, Seq::empty()),
        (ClaimStatus::Unknown, None, Seq::empty()),
        None,
        None,
    )
}

/// The `ftld-bank-v1` profile, as plain values.
pub open spec fn bank_view() -> ProfileView {
    (
        "ftld-bank-v1"@,
        None,
        (ClaimStatus::Verified, Some(OfferingState::Accepting), seq!["ftld-bank-eligibility"@]),
        (ClaimStatus::Verified, Some(PublicAccess::Conditional), seq!["ftld-bank-eligibility"@]),
        (ClaimStatus::Verified, Some(ApplicationChannel::Registrar), seq!["ftld-bank-eligibility"@]),
        Some(
            (
                true,
                seq![
                (
                    "bank-regulated-entity"@,
                    EligibilityKind::RegulatedSectorCredential,
                    "government-regulated-bank"@,
                    "The registrant must be a government-regulated bank or banking-sector entity."@,
                    seq!["ftld-bank-eligibility"@],
                ),
                ],
            ),
        ),
        None,
    )
}

/// The `govuk-v1` profile, as plain values.
pub open spec fn govuk_view() -> ProfileView {
    (
        "govuk-v1"@,
        None,
        (ClaimStatus::Verified, Some(OfferingState::Accepting), seq!["govuk-naming-rules"@]),
        (ClaimStatus::Verified, Some(PublicAccess::Conditional), seq!["govuk-naming-rules"@]),
        (ClaimStatus::Verified, Some(ApplicationChannel::ApprovalWorkflow), seq!["govuk-naming-rules"@]),
        Some(
            (
                true,
                seq![
                (
                    "govuk-public-sector"@,
                    EligibilityKind::EntityType,
                    "uk-public-sector-body"@,
                    "The registrant must be a UK central or local government body or another eligible public-sector organization."@,
                    seq!["govuk-naming-rules"@],
                ),
                (
                    "govuk-name-approval"@,
                    EligibilityKind::AuthorityApproval,
                    "gov-uk-naming-approval"@,
                    "The requested name must be approved under the GOV.UK domain naming rules."@,
                    seq!["govuk-naming-rules"@],
                ),
                ],
            ),
        ),
        None,
    )
}

/// The `icann-active-spec13-baseline-v1` profile, as plain values.
pub open spec fn spec13_view() -> ProfileView {
    (
        "icann-active-spec13-baseline-v1"@,
        None,
        (ClaimStatus::Unknown, None, Seq::empty()),
        (ClaimStatus::Unknown, None, Seq::empty()),
        (ClaimStatus::Unknown, None, Seq::empty()),
        None,
        None,
    )
}

/// The pinned evidence records, as plain values.
pub open spec fn pinned_evidence() -> Seq<(Seq<char>, SourceKind, Seq<char>, Seq<char>, Seq<char>)> {
    seq![
    ("psl"@, SourceKind::PublicSuffixList, "Public Suffix List"@, "https://publicsuffix.org/list/public_suffix_list.dat"@, "ICANN and PRIVATE sections"@),
    ("iana_tlds"@, SourceKind::IanaCurrentRoot, "IANA"@, "https://data.iana.org/TLD/tlds-alpha-by-domain.txt"@, "current root-label list"@),
    ("iana_root_db"@, SourceKind::IanaRootDatabase, "IANA"@, "https://www.iana.org/domains/root/db"@, "root zone database delegation records"@),
    ("iana_special_use"@, SourceKind::SpecialUseRegistry, "IANA"@, "https://www.iana.org/assignments/special-use-domain-names/special-use-domain.csv"@, "Special-Use Domain Names registry"@),
    ("icann_gtlds"@, SourceKind::RegistryAgreement, "ICANN"@, "https://www.icann.org/resources/registries/gtlds/v2/gtlds.json"@, "gTLD registry agreement dataset, specification13 field"@),
    ("denic-public-applicants"@, SourceKind::RegistryPolicy, "DENIC eG"@, "https://www.denic.de/en/domains/de-domains/"@, "registration of .de domains through DENIC members"@),
    ("dotgov-eligibility"@, SourceKind::GovernmentPolicy, "Cybersecurity and Infrastructure Security Agency"@, "https://get.gov/domains/eligibility/"@, "eligibility and authorizing-official requirements"@),
    ("ftld-bank-eligibility"@, SourceKind::RegistryPolicy, "fTLD Registry Services"@, "https://www.register.bank/eligibility/"@, "eligibility requirements for .bank"@),
    ("govuk-naming-rules"@, SourceKind::GovernmentPolicy, "Central Digital and Data Office"@, "https://www.gov.uk/guidance/apply-for-a-govuk-domain-name"@, "who can apply and naming approval"@),
    ("rfc3172-arpa"@, SourceKind::StandardsDocument, "IETF"@, "https://www.rfc-editor.org/rfc/rfc3172"@, "section 2: use of .arpa for infrastructure only"@),
]
}

/// The pinned roots, as plain values.
pub open spec fn pinned_roots() -> Seq<RootView> {
    seq![
    delegated_entry(
        "arpa"@,
        None,
        "infrastructure"@,
        RootFamily::Infrastructure,
        seq!["iana-manager-internet-architecture-board"@],
        Seq::empty(),
    ),
    delegated_entry(
        "bank"@,
        None,
        "generic"@,
        RootFamily::Generic,
        seq!["iana-manager-ftld-registry-services-llc"@],
        Seq::empty(),
    ),
    delegated_entry(
        "ck"@,
        None,
        "country-code"@,
        RootFamily::CountryCode,
        seq!["iana-manager-telecom-cook-islands"@],
        Seq::empty(),
    ),
    delegated_entry(
        "com"@,
        None,
        "generic"@,
        RootFamily::Generic,
        seq!["iana-manager-verisign-global-registry-services"@],
        Seq::empty(),
    ),
    delegated_entry(
        "de"@,
        None,
        "country-code"@,
        RootFamily::CountryCode,
        seq!["iana-manager-denic-eg"@],
        Seq::empty(),
    ),
    delegated_entry(
        "edu"@,
        None,
        "sponsored"@,
        RootFamily::Generic,
        seq!["iana-manager-educause"@],
        Seq::empty(),
    ),
    delegated_entry(
        "gov"@,
        None,
        "sponsored"@,
        RootFamily::Generic,
        seq!["iana-manager-cybersecurity-and-infrastructure-security-agency"@],
        Seq::empty(),
    ),
    delegated_entry(
        "io"@,
        None,
        "country-code"@,
        RootFamily::CountryCode,
        seq!["iana-manager-internet-computer-bureau-limited"@],
        Seq::empty(),
    ),
    delegated_entry(
        "net"@,
        None,
        "generic"@,
        RootFamily::Generic,
        seq!["iana-manager-verisign-global-registry-services"@],
        Seq::empty(),
    ),
    delegated_entry(
        "org"@,
        None,
        "generic"@,
        RootFamily::Generic,
        seq!["iana-manager-public-interest-registry"@],
        Seq::empty(),
    ),
    delegated_entry(
        "uk"@,
        None,
        "country-code"@,
        RootFamily::CountryCode,
        seq!["iana-manager-nominet-uk"@],
        Seq::empty(),
    ),
    delegated_entry(
        "xn--5su34j936bgsg"@,
        Some("香格里拉"@),
        "generic"@,
        RootFamily::Generic,
        seq!["iana-manager-shangri-la-international-hotel-management-limited"@],
        seq![Designation::BrandSpec13, Designation::IdnTld],
    ),
    delegated_entry(
        "xn--vuq861b"@,
        Some("信息"@),
        "generic"@,
        RootFamily::Generic,
        seq!["iana-manager-beijing-tele-info-technology-co-ltd"@],
        seq![Designation::IdnTld],
    ),
    special_entry("alt"@),
    special_entry("example"@),
    special_entry("invalid"@),
    special_entry("local"@),
    special_entry("localhost"@),
    special_entry("onion"@),
    special_entry("test"@),
    ]
}

/// The pinned exact PSL rules, as plain values.
pub open spec fn pinned_exact_rules() -> Seq<(Seq<char>, SuffixRuleKind, PslSection)> {
    seq![
    ("arpa"@, SuffixRuleKind::Exact, PslSection::Icann),
    ("bank"@, SuffixRuleKind::Exact, PslSection::Icann),
    ("com"@, SuffixRuleKind::Exact, PslSection::Icann),
    ("de"@, SuffixRuleKind::Exact, PslSection::Icann),
    ("edu"@, SuffixRuleKind::Exact, PslSection::Icann),
    ("gov"@, SuffixRuleKind::Exact, PslSection::Icann),
    ("io"@, SuffixRuleKind::Exact, PslSection::Icann),
    ("net"@, SuffixRuleKind::Exact, PslSection::Icann),
    ("org"@, SuffixRuleKind::Exact, PslSection::Icann),
    ("uk"@, SuffixRuleKind::Exact, PslSection::Icann),
    ("co.uk"@, SuffixRuleKind::Exact, PslSection::Icann),
    ("gov.uk"@, SuffixRuleKind::Exact, PslSection::Icann),
    ("xn--5su34j936bgsg"@, SuffixRuleKind::Exact, PslSection::Icann),
    ("xn--vuq861b"@, SuffixRuleKind::Exact, PslSection::Icann),
    ("github.io"@, SuffixRuleKind::Exact, PslSection::Private),
    ("service.gov.uk"@, SuffixRuleKind::Exact, PslSection::Private),
]
}

/// The pinned wildcard PSL rules, by the part after `*.`, as plain values.
pub open spec fn pinned_wildcard_rules() -> Seq<(Seq<char>, SuffixRuleKind, PslSection)> {
    seq![
    ("ck"@, SuffixRuleKind::Wildcard, PslSection::Icann),
]
}

/// The pinned exception PSL rules, by the part after `!`, as plain values.
pub open spec fn pinned_exception_rules() -> Seq<(Seq<char>, SuffixRuleKind, PslSection)> {
    seq![
    ("www.ck"@, SuffixRuleKind::Exception, PslSection::Icann),
]
}

/// The pinned special-use names, as plain values.
pub open spec fn pinned_special_use() -> Seq<Seq<char>> {
    seq![
    "alt"@,
    "example"@,
    "example.com"@,
    "example.net"@,
    "example.org"@,
    "home.arpa"@,
    "invalid"@,
    "ipv4only.arpa"@,
    "local"@,
    "localhost"@,
    "onion"@,
    "resolver.arpa"@,
    "test"@,
]
}

/// The pinned policy profiles, as plain values.
pub open spec fn pinned_profiles() -> Seq<ProfileView> {
    seq![
        arpa_view(),
        denic_open_view(),
        dotgov_view(),
        educause_view(),
        bank_view(),
        govuk_view(),
        spec13_view(),
    ]
}

/// The pinned products, as plain values.
pub open spec fn pinned_products() -> Seq<ProductView> {
    seq![
        product_view_of("arpa-infrastructure"@, "internet-architecture-board"@, arpa_view(), Seq::empty()),
        product_view_of("bank-ftld"@, "ftld-registry-services"@, bank_view(), Seq::empty()),
        product_view_of("de-direct"@, "denic"@, denic_open_view(), Seq::empty()),
        product_view_of("dotgov"@, "cisa"@, dotgov_view(), Seq::empty()),
        product_view_of("edu-institutions"@, "educause"@, educause_view(), Seq::empty()),
        product_view_of("govuk"@, "cddo"@, govuk_view(), Seq::empty()),
        product_view_of("icann-spec13-xn--5su34j936bgsg"@, "shangri-la-international-hotel-management-limited"@, spec13_view(), seq![Designation::BrandSpec13]),
    ]
}

/// The pinned exact selectors, as plain values.
pub open spec fn pinned_selectors() -> Seq<(Seq<char>, Seq<char>)> {
    seq![
    ("arpa"@, "arpa-infrastructure"@),
    ("bank"@, "bank-ftld"@),
    ("de"@, "de-direct"@),
    ("edu"@, "edu-institutions"@),
    ("gov"@, "dotgov"@),
    ("gov.uk"@, "govuk"@),
    ("xn--5su34j936bgsg"@, "icann-spec13-xn--5su34j936bgsg"@),
]
}

/// The pinned catalog: its evidence records, roots, PSL rules, special-use
/// names, profiles, products and selectors, in order.
pub open spec fn pinned_catalog(c: Catalog) -> bool {
    &&& c.evidence@.map_values(|e: Evidence| evidence_entry(e)) == pinned_evidence()
    &&& forall|i: int|
        0 <= i < c.evidence@.len() ==> (#[trigger] c.evidence@[i]).retrieved_at@.len() == 0
            && c.evidence@[i].sha256@.len() == 0 && c.evidence@[i].review_after is None
    &&& c.roots@.map_values(|t: RootTld| root_entry(t)) == pinned_roots()
    &&& c.psl.exact@.map_values(|r: SuffixRule| rule_entry(r)) == pinned_exact_rules()
    &&& c.psl.wildcard@.map_values(|r: SuffixRule| rule_entry(r)) == pinned_wildcard_rules()
    &&& c.psl.exception@.map_values(|r: SuffixRule| rule_entry(r)) == pinned_exception_rules()
    &&& rules_cite_psl(c.psl.exact@)
    &&& rules_cite_psl(c.psl.wildcard@)
    &&& rules_cite_psl(c.psl.exception@)
    &&& c.special_use@.map_values(|n: SpecialUseName| n.name@) == pinned_special_use()
    &&& c.profiles@.map_values(|p: PolicyProfile| profile_entry(p)) == pinned_profiles()
    &&& c.products@.map_values(|p: RegistrationProduct| product_entry(p)) == pinned_products()
    &&& c.product_by_suffix@.map_values(|x: ProductSelector| selector_entry(x)) == pinned_selectors()
    &&& c.product_one_label_below@.len() == 0
}

/// The identifiers of the pinned evidence records.
pub open spec fn pinned_evidence_ids() -> Set<Seq<char>> {
    set![
        "psl"@,
        "iana_tlds"@,
        "iana_root_db"@,
        "iana_special_use"@,
        "icann_gtlds"@,
        "denic-public-applicants"@,
        "dotgov-eligibility"@,
        "ftld-bank-eligibility"@,
        "govuk-naming-rules"@,
        "rfc3172-arpa"@,
    ]
}

/// No pinned evidence identifier is empty or starts or ends with whitespace.
pub proof fn lemma_pinned_evidence_ids_unpadded()
    ensures
        forall|x: Seq<char>| #[trigger] pinned_evidence_ids().contains(x) ==> unpadded(x),
{
    reveal_strlit("psl");
    reveal_strlit("iana_tlds");
    reveal_strlit("iana_root_db");
    reveal_strlit("iana_special_use");
    reveal_strlit("icann_gtlds");
    reveal_strlit("denic-public-applicants");
    reveal_strlit("dotgov-eligibility");
    reveal_strlit("ftld-bank-eligibility");
    reveal_strlit("govuk-naming-rules");
    reveal_strlit("rfc3172-arpa");
}

/// Every identifier of the pinned evidence records names a record of a
/// pinned catalog, which lookup finds.
pub proof fn lemma_pinned_evidence_resolves(c: Catalog)
    requires
        pinned_catalog(c),
    ensures
        forall|x: Seq<char>|
            #[trigger] pinned_evidence_ids().contains(x) ==> (lookup(c.evidence@, x) matches Some(e)
                && e.id@ == x),
{
    assert forall|x: Seq<char>| #[trigger] pinned_evidence_ids().contains(x) implies (lookup(
        c.evidence@,
        x,
    ) matches Some(e) && e.id@ == x) by {
        assert(pinned_evidence().len() == 10);
        assert(c.evidence@.map_values(|e: Evidence| evidence_entry(e)).len() == c.evidence@.len());
        assert forall|j: int| 0 <= j < 10 implies (#[trigger] c.evidence@[j]).id@
            == pinned_evidence()[j].0 by {
            assert(evidence_entry(c.evidence@[j]) == pinned_evidence()[j]);
        }
        if x == "psl"@ {
            lemma_lookup_found(c.evidence@, x, 0);
        } else if x == "iana_tlds"@ {
            lemma_lookup_found(c.evidence@, x, 1);
        } else if x == "iana_root_db"@ {
            lemma_lookup_found(c.evidence@, x, 2);
        } else if x == "iana_special_use"@ {
            lemma_lookup_found(c.evidence@, x, 3);
        } else if x == "icann_gtlds"@ {
            lemma_lookup_found(c.evidence@, x, 4);
        } else if x == "denic-public-applicants"@ {
            lemma_lookup_found(c.evidence@, x, 5);
        } else if x == "dotgov-eligibility"@ {
            lemma_lookup_found(c.evidence@, x, 6);
        } else if x == "ftld-bank-eligibility"@ {
            lemma_lookup_found(c.evidence@, x, 7);
        } else if x == "govuk-naming-rules"@ {
            lemma_lookup_found(c.evidence@, x, 8);
        } else if x == "rfc3172-arpa"@ {
            lemma_lookup_found(c.evidence@, x, 9);
        }
    }
}

/// The evidence identifiers of a sequence of identifier views lie in `k`.
pub open spec fn ids_within(ids: Seq<Seq<char>>, k: Set<Seq<char>>) -> bool {
    forall|j: int| 0 <= j < ids.len() ==> k.contains(#[trigger] ids[j])
}

/// A product view cites only evidence in `k`: in its claims and its
/// requirements, and it has no label policy.
pub open spec fn product_view_cites(v: ProductView, k: Set<Seq<char>>) -> bool {
    &&& ids_within(v.2.2, k)
    &&& ids_within(v.3.2, k)
    &&& ids_within(v.4.2, k)
    &&& v.6 is None
    &&& v.5 is Some ==> forall|j: int|
        0 <= j < v.5.unwrap().1.len() ==> ids_within(#[trigger] v.5.unwrap().1[j].4, k)
}

/// Each pinned product cites only pinned evidence.
proof fn lemma_pinned_product_view_cites(i: int)
    requires
        0 <= i < 7,
    ensures
        product_view_cites(pinned_products()[i], pinned_evidence_ids()),
{
    let v = pinned_products()[i];
    let k = pinned_evidence_ids();
    if i == 0 {
    } else if i == 1 {
    } else if i == 2 {
    } else if i == 3 {
    } else if i == 4 {
    } else if i == 5 {
    } else if i == 6 {
    }

}

/// Identifiers within `k` form a set within `k`.
pub proof fn lemma_ids_within_set(ids: Seq<Seq<char>>, k: Set<Seq<char>>)
    requires
        ids_within(ids, k),
    ensures
        ids.to_set().subset_of(k),
{
    assert forall|x: Seq<char>| ids.to_set().contains(x) implies k.contains(x) by {
        let j = choose|j: int| 0 <= j < ids.len() && ids[j] == x;
        assert(ids[j] == x);
    }
}

/// The requirements' evidence lies in `k` when each requirement's does.
pub proof fn lemma_requirements_evidence_within(
    reqs: Seq<EligibilityRequirement>,
    k: Set<Seq<char>>,
)
    requires
        forall|j: int| 0 <= j < reqs.len() ==> ids_within(ids_view((#[trigger] reqs[j]).evidence@), k),
    ensures
        requirements_evidence(reqs).subset_of(k),
    decreases reqs.len(),
{
    if reqs.len() > 0 {
        let last = reqs.last();
        assert(last == reqs[reqs.len() - 1]);
        lemma_ids_within_set(ids_view(last.evidence@), k);
        assert forall|j: int| 0 <= j < reqs.drop_last().len() implies ids_within(
            ids_view((#[trigger] reqs.drop_last()[j]).evidence@),
            k,
        ) by {
            assert(reqs.drop_last()[j] == reqs[j]);
        }
        lemma_requirements_evidence_within(reqs.drop_last(), k);
    }
}

/// A product whose view cites only evidence in `k` has claims and policy
/// evidence within `k`.
pub proof fn lemma_product_cites(p: RegistrationProduct, k: Set<Seq<char>>)
    requires
        product_view_cites(product_entry(p), k),
    ensures
        id_set(p.offering_state.evidence@).subset_of(k),
        id_set(p.public_access.evidence@).subset_of(k),
        id_set(p.application_channel.evidence@).subset_of(k),
        product_evidence(p).subset_of(k),
{
    lemma_ids_within_set(ids_view(p.offering_state.evidence@), k);
    lemma_ids_within_set(ids_view(p.public_access.evidence@), k);
    lemma_ids_within_set(ids_view(p.application_channel.evidence@), k);
    if let Some(e) = p.eligibility {
        let reqs = requirements_of(e);
        let views = reqs.map_values(|r: EligibilityRequirement| requirement_view(r));
        let v = product_entry(p);
        assert(v.5.unwrap().1 == views);
        assert forall|j: int| 0 <= j < reqs.len() implies ids_within(
            ids_view((#[trigger] reqs[j]).evidence@),
            k,
        ) by {
            assert(ids_within(v.5.unwrap().1[j].4, k));
            assert(views[j].4 == ids_view(reqs[j].evidence@));
        }
        lemma_requirements_evidence_within(reqs, k);
    }
}

/// In a pinned catalog, every root claim and every product cites only the
/// pinned evidence records.
pub proof fn lemma_pinned_catalog_cites(c: Catalog)
    requires
        pinned_catalog(c),
    ensures
        forall|i: int|
            0 <= i < c.roots@.len() ==> id_set((#[trigger] c.roots@[i]).state.evidence@).subset_of(
                pinned_evidence_ids(),
            ),
        forall|i: int|
            0 <= i < c.products@.len() ==> product_view_cites(
                product_entry(#[trigger] c.products@[i]),
                pinned_evidence_ids(),
            ),
{
    let k = pinned_evidence_ids();
    assert(pinned_roots().len() == 20);
    assert(pinned_products().len() == 7);
    assert(c.roots@.map_values(|t: RootTld| root_entry(t)).len() == c.roots@.len());
    assert(c.products@.map_values(|p: RegistrationProduct| product_entry(p)).len()
        == c.products@.len());
    assert forall|i: int| 0 <= i < c.roots@.len() implies id_set(
        (#[trigger] c.roots@[i]).state.evidence@,
    ).subset_of(k) by {
        if i == 0 {
            assert(root_entry(c.roots@[0]) == pinned_roots()[0]);
        } else if i == 1 {
            assert(root_entry(c.roots@[1]) == pinned_roots()[1]);
        } else if i == 2 {
            assert(root_entry(c.roots@[2]) == pinned_roots()[2]);
        } else if i == 3 {
            assert(root_entry(c.roots@[3]) == pinned_roots()[3]);
        } else if i == 4 {
            assert(root_entry(c.roots@[4]) == pinned_roots()[4]);
        } else if i == 5 {
            assert(root_entry(c.roots@[5]) == pinned_roots()[5]);
        } else if i == 6 {
            assert(root_entry(c.roots@[6]) == pinned_roots()[6]);
        } else if i == 7 {
            assert(root_entry(c.roots@[7]) == pinned_roots()[7]);
        } else if i == 8 {
            assert(root_entry(c.roots@[8]) == pinned_roots()[8]);
        } else if i == 9 {
            assert(root_entry(c.roots@[9]) == pinned_roots()[9]);
        } else if i == 10 {
            assert(root_entry(c.roots@[10]) == pinned_roots()[10]);
        } else if i == 11 {
            assert(root_entry(c.roots@[11]) == pinned_roots()[11]);
        } else if i == 12 {
            assert(root_entry(c.roots@[12]) == pinned_roots()[12]);
        } else if i == 13 {
            assert(root_entry(c.roots@[13]) == pinned_roots()[13]);
        } else if i == 14 {
            assert(root_entry(c.roots@[14]) == pinned_roots()[14]);
        } else if i == 15 {
            assert(root_entry(c.roots@[15]) == pinned_roots()[15]);
        } else if i == 16 {
            assert(root_entry(c.roots@[16]) == pinned_roots()[16]);
        } else if i == 17 {
            assert(root_entry(c.roots@[17]) == pinned_roots()[17]);
        } else if i == 18 {
            assert(root_entry(c.roots@[18]) == pinned_roots()[18]);
        } else if i == 19 {
            assert(root_entry(c.roots@[19]) == pinned_roots()[19]);
        }
        lemma_ids_within_set(ids_view(c.roots@[i].state.evidence@), k);
    }
    assert forall|i: int| 0 <= i < c.products@.len() implies product_view_cites(
        product_entry(#[trigger] c.products@[i]),
        k,
    ) by {
        if i == 0 {
            assert(product_entry(c.products@[0]) == pinned_products()[0]);
            lemma_pinned_product_view_cites(0);
        } else if i == 1 {
            assert(product_entry(c.products@[1]) == pinned_products()[1]);
            lemma_pinned_product_view_cites(1);
        } else if i == 2 {
            assert(product_entry(c.products@[2]) == pinned_products()[2]);
            lemma_pinned_product_view_cites(2);
        } else if i == 3 {
            assert(product_entry(c.products@[3]) == pinned_products()[3]);
            lemma_pinned_product_view_cites(3);
        } else if i == 4 {
            assert(product_entry(c.products@[4]) == pinned_products()[4]);
            lemma_pinned_product_view_cites(4);
        } else if i == 5 {
            assert(product_entry(c.products@[5]) == pinned_products()[5]);
            lemma_pinned_product_view_cites(5);
        } else if i == 6 {
            assert(product_entry(c.products@[6]) == pinned_products()[6]);
            lemma_pinned_product_view_cites(6);
        }
    }
}

/// Evidence identifier of the current-root snapshot.
pub open spec fn current_root_evidence() -> Seq<char> {
    "iana_tlds"@
}

/// Evidence identifier of the special-use registry snapshot.
pub open spec fn special_use_evidence() -> Seq<char> {
    "iana_special_use"@
}

/// The evidence slice naming the current-root snapshot.
pub fn current_root_ids() -> (r: &'static [&'static str])
    ensures
        r@.len() == 1,
        r@[0]@ == current_root_evidence(),
{
    &["iana_tlds"]
}

/// The evidence slice naming the special-use registry snapshot.
pub fn special_use_ids() -> (r: &'static [&'static str])
    ensures
        r@.len() == 1,
        r@[0]@ == special_use_evidence(),
{
    &["iana_special_use"]
}

/// A claim with the given status, value and evidence identifiers.
pub open spec fn claim_is<T>(
    c: Claim<T>,
    status: ClaimStatus,
    value: Option<T>,
    ids: Seq<Seq<char>>,
) -> bool {
    &&& c.status == status
    &&& c.value == value
    &&& ids_view(c.evidence@) == ids
}

/// An atomic requirement with the given identifier, kind, value, explanation
/// and evidence identifiers.
pub open spec fn requirement_is(
    e: EligibilityExpression,
    id: Seq<char>,
    kind: EligibilityKind,
    value: Seq<char>,
    explanation: Seq<char>,
    evidence: Seq<Seq<char>>,
) -> bool {
    &&& e matches EligibilityExpression::Requirement(r)
    &&& r.id@ == id
    &&& r.kind == kind
    &&& r.value@ == value
    &&& r.explanation@ == explanation
    &&& ids_view(r.evidence@) == evidence
}

/// The boundary role of a PSL section.
pub open spec fn section_role(section: PslSection) -> SuffixRole {
    match section {
        PslSection::Icann => SuffixRole::RegistryBoundary,
        PslSection::Private => SuffixRole::PrivateServiceBoundary,
    }
}

/// A PSL rule from the pinned list.
fn psl_rule(labels: &'static str, kind: SuffixRuleKind, section: PslSection) -> (r: SuffixRule)
    ensures
        r.labels == labels,
        r.kind == kind,
        r.section == section,
        r.role == section_role(section),
        r.evidence@ == "psl"@,
{
    SuffixRule {
        labels,
        kind,
        section,
        role: match section {
            PslSection::Icann => SuffixRole::RegistryBoundary,
            PslSection::Private => SuffixRole::PrivateServiceBoundary,
        },
        evidence: "psl",
    }
}

/// A root delegated according to the current-root list.
fn delegated_root(
    ascii_label: &'static str,
    unicode_label: Option<&'static str>,
    raw_iana_type: &'static str,
    family: RootFamily,
    operator_ids: &'static [&'static str],
    designations: &'static [Designation],
) -> (r: RootTld)
    ensures
        r.ascii_label == ascii_label,
        r.unicode_label == unicode_label,
        r.raw_iana_type == Some(raw_iana_type),
        r.family == Some(family),
        claim_is(
            r.state,
            ClaimStatus::Verified,
            Some(RootState::Delegated),
            seq![current_root_evidence()],
        ),
        r.operator_ids == operator_ids,
        r.designations == designations,
{
    let ids = current_root_ids();
    proof {
        assert(ids_view(ids@) =~= seq![current_root_evidence()]);
    }
    RootTld {
        ascii_label,
        unicode_label,
        raw_iana_type: Some(raw_iana_type),
        family: Some(family),
        state: Claim { status: ClaimStatus::Verified, value: Some(RootState::Delegated), evidence: ids },
        operator_ids,
        designations,
    }
}

/// A root label reserved by the special-use registry.
fn special_root(ascii_label: &'static str) -> (r: RootTld)
    ensures
        r.ascii_label == ascii_label,
        r.unicode_label is None,
        r.raw_iana_type is None,
        r.family is None,
        claim_is(
            r.state,
            ClaimStatus::Verified,
            Some(RootState::SpecialUse),
            seq![special_use_evidence()],
        ),
        r.operator_ids@.len() == 0,
        r.designations@.len() == 0,
{
    let ids = special_use_ids();
    proof {
        assert(ids_view(ids@) =~= seq![special_use_evidence()]);
    }
    RootTld {
        ascii_label,
        unicode_label: None,
        raw_iana_type: None,
        family: None,
        state: Claim {
            status: ClaimStatus::Verified,
            value: Some(RootState::SpecialUse),
            evidence: ids,
        },
        operator_ids: &[],
        designations: &[],
    }
}

fn evidence_record(
    id: &'static str,
    kind: SourceKind,
    publisher: &'static str,
    url: &'static str,
    locator: &'static str,
    review_after: Option<&'static str>,
) -> (r: Evidence)
    ensures
        r.id == id,
        r.kind == kind,
        r.publisher == publisher,
        r.url == url,
        r.locator == locator,
        r.retrieved_at@ == Seq::<char>::empty(),
        r.review_after == review_after,
        r.sha256@ == Seq::<char>::empty(),
{
    proof {
        reveal_strlit("");
    }
    Evidence {
        id,
        kind,
        publisher,
        url,
        locator,
        retrieved_at: "",
        review_after,
        sha256: "",
    }
}

/// A verified claim.
fn verified<T>(value: T, evidence: &'static [&'static str]) -> (r: Claim<T>)
    ensures
        r.status == ClaimStatus::Verified,
        r.value == Some(value),
        r.evidence == evidence,
{
    Claim { status: ClaimStatus::Verified, value: Some(value), evidence }
}

/// A claim with no supported value.
fn unknown<T>() -> (r: Claim<T>)
    ensures
        claim_is(r, ClaimStatus::Unknown, None, Seq::empty()),
{
    let evidence: &'static [&'static str] = &[];
    proof {
        assert(evidence@.len() == 0);
        assert(ids_view(evidence@) =~= Seq::<Seq<char>>::empty());
    }
    Claim { status: ClaimStatus::Unknown, value: None, evidence }
}

fn requirement(
    id: &'static str,
    kind: EligibilityKind,
    value: &'static str,
    explanation: &'static str,
    evidence: &'static [&'static str],
) -> (r: EligibilityExpression)
    ensures
        r == EligibilityExpression::Requirement(
            (EligibilityRequirement { id, kind, value, explanation, evidence }),
        ),
{
    EligibilityExpression::Requirement(EligibilityRequirement { id, kind, value, explanation, evidence })
}

/// The requirements of a list of atomic expressions are those atoms, in order.
proof fn lemma_atomic_requirements(xs: Seq<EligibilityExpression>)
    requires
        forall|i: int| 0 <= i < xs.len() ==> (#[trigger] xs[i]) is Requirement,
    ensures
        requirements_of_all(xs) == xs.map_values(
            |x: EligibilityExpression| x->Requirement_0,
        ),
    decreases xs.len(),
{
    if xs.len() > 0 {
        let f = |x: EligibilityExpression| x->Requirement_0;
        lemma_atomic_requirements(xs.drop_last());
        assert(xs.last() == xs[xs.len() - 1]);
        assert(requirements_of(xs.last()) == seq![xs.last()->Requirement_0]);
        assert(xs.map_values(f) =~= xs.drop_last().map_values(f) + seq![f(xs.last())]);
    }
}

/// The open-registration policy of DENIC for `.de`.
fn denic_open_profile() -> (r: PolicyProfile)
    ensures
        profile_entry(r) == denic_open_view(),
        r.id@ == "denic-open-v1"@,
        r.extends is None,
        claim_is(
            r.offering_state,
            ClaimStatus::Verified,
            Some(OfferingState::Accepting),
            seq!["denic-public-applicants"@],
        ),
        claim_is(
            r.public_access,
            ClaimStatus::Verified,
            Some(PublicAccess::Open),
            seq!["denic-public-applicants"@],
        ),
        claim_is(
            r.application_channel,
            ClaimStatus::Verified,
            Some(ApplicationChannel::Registrar),
            seq!["denic-public-applicants"@],
        ),
        r.eligibility is None,
        r.label_policy is None,
{
    let ev: &'static [&'static str] = &["denic-public-applicants"];
    proof {
        assert(ids_view(ev@) =~= seq!["denic-public-applicants"@]);
    }
    PolicyProfile {
        id: "denic-open-v1",
        extends: None,
        offering_state: verified(OfferingState::Accepting, ev),
        public_access: verified(PublicAccess::Open, ev),
        application_channel: verified(ApplicationChannel::Registrar, ev),
        eligibility: None,
        label_policy: None,
    }
}

/// The eligibility-gated policy of `.gov`.
fn dotgov_profile() -> (r: PolicyProfile)
    ensures
        profile_entry(r) == dotgov_view(),
        r.id@ == "dotgov-v1"@,
        r.extends is None,
        claim_is(
            r.offering_state,
            ClaimStatus::Verified,
            Some(OfferingState::Accepting),
            seq!["dotgov-eligibility"@],
        ),
        claim_is(
            r.public_access,
            ClaimStatus::Verified,
            Some(PublicAccess::Conditional),
            seq!["dotgov-eligibility"@],
        ),
        claim_is(
            r.application_channel,
            ClaimStatus::Verified,
            Some(ApplicationChannel::ApprovalWorkflow),
            seq!["dotgov-eligibility"@],
        ),
        r.eligibility matches Some(EligibilityExpression::All(xs)) && xs@.len() == 2
            && requirement_is(
            xs@[0],
            "us-government-organization"@,
            EligibilityKind::EntityType,
            "us-government-organization"@,
            "The registrant must be a U.S.-based government organization."@,
            seq!["dotgov-eligibility"@],
        )
            && requirement_is(
            xs@[1],
            "dotgov-senior-official-approval"@,
            EligibilityKind::AuthorityApproval,
            "authorizing-official"@,
            "A senior official of the organization must authorize the request."@,
            seq!["dotgov-eligibility"@],
        ),
        r.label_policy is None,
{
    let ev: &'static [&'static str] = &["dotgov-eligibility"];
    proof {
        assert(ids_view(ev@) =~= seq!["dotgov-eligibility"@]);
    }
    let requirements = vec![
        requirement(
            "us-government-organization",
            EligibilityKind::EntityType,
            "us-government-organization",
            "The registrant must be a U.S.-based government organization.",
            ev,
        ),
        requirement(
            "dotgov-senior-official-approval",
            EligibilityKind::AuthorityApproval,
            "authorizing-official",
            "A senior official of the organization must authorize the request.",
            ev,
        ),
    ];
    proof {
        lemma_atomic_requirements(requirements@);
        let e = EligibilityExpression::All(requirements);
        assert(requirements_of(e).map_values(|x: EligibilityRequirement| requirement_view(x))
            =~= dotgov_view().5.unwrap().1);
    }
    PolicyProfile {
        id: "dotgov-v1",
        extends: None,
        offering_state: verified(OfferingState::Accepting, ev),
        public_access: verified(PublicAccess::Conditional, ev),
        application_channel: verified(ApplicationChannel::ApprovalWorkflow, ev),
        eligibility: Some(EligibilityExpression::All(requirements)),
        label_policy: None,
    }
}

/// The eligibility-gated policy of `.bank`.
fn bank_profile() -> (r: PolicyProfile)
    ensures
        profile_entry(r) == bank_view(),
        r.id@ == "ftld-bank-v1"@,
        r.extends is None,
        claim_is(
            r.offering_state,
            ClaimStatus::Verified,
            Some(OfferingState::Accepting),
            seq!["ftld-bank-eligibility"@],
        ),
        claim_is(
            r.public_access,
            ClaimStatus::Verified,
            Some(PublicAccess::Conditional),
            seq!["ftld-bank-eligibility"@],
        ),
        claim_is(
            r.application_channel,
            ClaimStatus::Verified,
            Some(ApplicationChannel::Registrar),
            seq!["ftld-bank-eligibility"@],
        ),
        r.eligibility matches Some(EligibilityExpression::All(xs)) && xs@.len() == 1
            && requirement_is(
            xs@[0],
            "bank-regulated-entity"@,
            EligibilityKind::RegulatedSectorCredential,
            "government-regulated-bank"@,
            "The registrant must be a government-regulated bank or banking-sector entity."@,
            seq!["ftld-bank-eligibility"@],
        ),
        r.label_policy is None,
{
    let ev: &'static [&'static str] = &["ftld-bank-eligibility"];
    proof {
        assert(ids_view(ev@) =~= seq!["ftld-bank-eligibility"@]);
    }
    let requirements = vec![
        requirement(
            "bank-regulated-entity",
            EligibilityKind::RegulatedSectorCredential,
            "government-regulated-bank",
            "The registrant must be a government-regulated bank or banking-sector entity.",
            ev,
        ),
    ];
    proof {
        lemma_atomic_requirements(requirements@);
        let e = EligibilityExpression::All(requirements);
        assert(requirements_of(e).map_values(|x: EligibilityRequirement| requirement_view(x))
            =~= bank_view().5.unwrap().1);
    }
    PolicyProfile {
        id: "ftld-bank-v1",
        extends: None,
        offering_state: verified(OfferingState::Accepting, ev),
        public_access: verified(PublicAccess::Conditional, ev),
        application_channel: verified(ApplicationChannel::Registrar, ev),
        eligibility: Some(EligibilityExpression::All(requirements)),
        label_policy: None,
    }
}

/// The eligibility-gated policy of `gov.uk`.
fn govuk_profile() -> (r: PolicyProfile)
    ensures
        profile_entry(r) == govuk_view(),
        r.id@ == "govuk-v1"@,
        r.extends is None,
        claim_is(
            r.offering_state,
            ClaimStatus::Verified,
            Some(OfferingState::Accepting),
            seq!["govuk-naming-rules"@],
        ),
        claim_is(
            r.public_access,
            ClaimStatus::Verified,
            Some(PublicAccess::Conditional),
            seq!["govuk-naming-rules"@],
        ),
        claim_is(
            r.application_channel,
            ClaimStatus::Verified,
            Some(ApplicationChannel::ApprovalWorkflow),
            seq!["govuk-naming-rules"@],
        ),
        r.eligibility matches Some(EligibilityExpression::All(xs)) && xs@.len() == 2
            && requirement_is(
            xs@[0],
            "govuk-public-sector"@,
            EligibilityKind::EntityType,
            "uk-public-sector-body"@,
            "The registrant must be a UK central or local government body or another eligible public-sector organization."@,
            seq!["govuk-naming-rules"@],
        )
            && requirement_is(
            xs@[1],
            "govuk-name-approval"@,
            EligibilityKind::AuthorityApproval,
            "gov-uk-naming-approval"@,
            "The requested name must be approved under the GOV.UK domain naming rules."@,
            seq!["govuk-naming-rules"@],
        ),
        r.label_policy is None,
{
    let ev: &'static [&'static str] = &["govuk-naming-rules"];
    proof {
        assert(ids_view(ev@) =~= seq!["govuk-naming-rules"@]);
    }
    let requirements = vec![
        requirement(
            "govuk-public-sector",
            EligibilityKind::EntityType,
            "uk-public-sector-body",
            "The registrant must be a UK central or local government body or another eligible public-sector organization.",
            ev,
        ),
        requirement(
            "govuk-name-approval",
            EligibilityKind::AuthorityApproval,
            "gov-uk-naming-approval",
            "The requested name must be approved under the GOV.UK domain naming rules.",
            ev,
        ),
    ];
    proof {
        lemma_atomic_requirements(requirements@);
        let e = EligibilityExpression::All(requirements);
        assert(requirements_of(e).map_values(|x: EligibilityRequirement| requirement_view(x))
            =~= govuk_view().5.unwrap().1);
    }
    PolicyProfile {
        id: "govuk-v1",
        extends: None,
        offering_state: verified(OfferingState::Accepting, ev),
        public_access: verified(PublicAccess::Conditional, ev),
        application_channel: verified(ApplicationChannel::ApprovalWorkflow, ev),
        eligibility: Some(EligibilityExpression::All(requirements)),
        label_policy: None,
    }
}

/// The unresearched policy of `.edu`.
fn educause_profile() -> (r: PolicyProfile)
    ensures
        profile_entry(r) == educause_view(),
        r.id@ == "educause-unresearched-v1"@,
        r.extends is None,
        claim_is(r.offering_state, ClaimStatus::Unknown, None, Seq::empty()),
        claim_is(r.public_access, ClaimStatus::Unknown, None, Seq::empty()),
        claim_is(r.application_channel, ClaimStatus::Unknown, None, Seq::empty()),
        r.eligibility is None,
        r.label_policy is None,
{
    PolicyProfile {
        id: "educause-unresearched-v1",
        extends: None,
        offering_state: unknown(),
        public_access: unknown(),
        application_channel: unknown(),
        eligibility: None,
        label_policy: None,
    }
}

/// The infrastructure-only policy of `.arpa`.
fn arpa_profile() -> (r: PolicyProfile)
    ensures
        profile_entry(r) == arpa_view(),
        r.id@ == "arpa-infrastructure-v1"@,
        r.extends is None,
        claim_is(r.offering_state, ClaimStatus::Unknown, None, Seq::empty()),
        claim_is(
            r.public_access,
            ClaimStatus::Verified,
            Some(PublicAccess::Unavailable),
            seq!["rfc3172-arpa"@],
        ),
        claim_is(
            r.application_channel,
            ClaimStatus::Verified,
            Some(ApplicationChannel::Internal),
            seq!["rfc3172-arpa"@],
        ),
        r.eligibility is None,
        r.label_policy is None,
{
    let ev: &'static [&'static str] = &["rfc3172-arpa"];
    proof {
        assert(ids_view(ev@) =~= seq!["rfc3172-arpa"@]);
    }
    PolicyProfile {
        id: "arpa-infrastructure-v1",
        extends: None,
        offering_state: unknown(),
        public_access: verified(PublicAccess::Unavailable, ev),
        application_channel: verified(ApplicationChannel::Internal, ev),
        eligibility: None,
        label_policy: None,
    }
}

/// The unresearched baseline of an active Specification 13 brand root.
fn spec13_profile() -> (r: PolicyProfile)
    ensures
        profile_entry(r) == spec13_view(),
        r.id@ == "icann-active-spec13-baseline-v1"@,
        r.extends is None,
        claim_is(r.offering_state, ClaimStatus::Unknown, None, Seq::empty()),
        claim_is(r.public_access, ClaimStatus::Unknown, None, Seq::empty()),
        claim_is(r.application_channel, ClaimStatus::Unknown, None, Seq::empty()),
        r.eligibility is None,
        r.label_policy is None,
{
    PolicyProfile {
        id: "icann-active-spec13-baseline-v1",
        extends: None,
        offering_state: unknown(),
        public_access: unknown(),
        application_channel: unknown(),
        eligibility: None,
        label_policy: None,
    }
}

/// A product that takes its facts from a profile.
fn product(
    id: &'static str,
    operator_id: &'static str,
    profile: PolicyProfile,
    designations: &'static [Designation],
) -> (r: RegistrationProduct)
    ensures
        r.id == id,
        r.operator_id == operator_id,
        r.offering_state == profile.offering_state,
        r.public_access == profile.public_access,
        r.application_channel == profile.application_channel,
        r.eligibility == profile.eligibility,
        r.label_policy == profile.label_policy,
        r.designations == designations,
{
    RegistrationProduct {
        id,
        operator_id,
        offering_state: profile.offering_state,
        public_access: profile.public_access,
        application_channel: profile.application_channel,
        eligibility: profile.eligibility,
        label_policy: profile.label_policy,
        designations,
    }
}

impl Catalog {
    /// The catalog compiled into the library.
    #[verifier::rlimit(80)]
    pub fn pinned() -> (r: Catalog)
        ensures
            pinned_catalog(r),
            catalog_fits(r),
    {
        let evidence = vec![
            evidence_record(
                "psl",
                SourceKind::PublicSuffixList,
                "Public Suffix List",
                "https://publicsuffix.org/list/public_suffix_list.dat",
                "ICANN and PRIVATE sections",
                None,
            ),
            evidence_record(
                "iana_tlds",
                SourceKind::IanaCurrentRoot,
                "IANA",
                "https://data.iana.org/TLD/tlds-alpha-by-domain.txt",
                "current root-label list",
                None,
            ),
            evidence_record(
                "iana_root_db",
                SourceKind::IanaRootDatabase,
                "IANA",
                "https://www.iana.org/domains/root/db",
                "root zone database delegation records",
                None,
            ),
            evidence_record(
                "iana_special_use",
                SourceKind::SpecialUseRegistry,
                "IANA",
                "https://www.iana.org/assignments/special-use-domain-names/special-use-domain.csv",
                "Special-Use Domain Names registry",
                None,
            ),
            evidence_record(
                "icann_gtlds",
                SourceKind::RegistryAgreement,
                "ICANN",
                "https://www.icann.org/resources/registries/gtlds/v2/gtlds.json",
                "gTLD registry agreement dataset, specification13 field",
                None,
            ),
            evidence_record(
                "denic-public-applicants",
                SourceKind::RegistryPolicy,
                "DENIC eG",
                "https://www.denic.de/en/domains/de-domains/",
                "registration of .de domains through DENIC members",
                None,
            ),
            evidence_record(
                "dotgov-eligibility",
                SourceKind::GovernmentPolicy,
                "Cybersecurity and Infrastructure Security Agency",
                "https://get.gov/domains/eligibility/",
                "eligibility and authorizing-official requirements",
                None,
            ),
            evidence_record(
                "ftld-bank-eligibility",
                SourceKind::RegistryPolicy,
                "fTLD Registry Services",
                "https://www.register.bank/eligibility/",
                "eligibility requirements for .bank",
                None,
            ),
            evidence_record(
                "govuk-naming-rules",
                SourceKind::GovernmentPolicy,
                "Central Digital and Data Office",
                "https://www.gov.uk/guidance/apply-for-a-govuk-domain-name",
                "who can apply and naming approval",
                None,
            ),
            evidence_record(
                "rfc3172-arpa",
                SourceKind::StandardsDocument,
                "IETF",
                "https://www.rfc-editor.org/rfc/rfc3172",
                "section 2: use of .arpa for infrastructure only",
                None,
            ),
        ];
        let no_designations: &'static [Designation] = &[];
        let brand_idn: &'static [Designation] = &[Designation::BrandSpec13, Designation::IdnTld];
        let idn: &'static [Designation] = &[Designation::IdnTld];
        let brand: &'static [Designation] = &[Designation::BrandSpec13];
        proof {
            assert(no_designations@ =~= Seq::<Designation>::empty());
            assert(brand_idn@ =~= seq![Designation::BrandSpec13, Designation::IdnTld]);
            assert(idn@ =~= seq![Designation::IdnTld]);
            assert(brand@ =~= seq![Designation::BrandSpec13]);
        }
        let roots = vec![
            delegated_root("arpa", None, "infrastructure", RootFamily::Infrastructure, &["iana-manager-internet-architecture-board"], no_designations),
            delegated_root("bank", None, "generic", RootFamily::Generic, &["iana-manager-ftld-registry-services-llc"], no_designations),
            delegated_root("ck", None, "country-code", RootFamily::CountryCode, &["iana-manager-telecom-cook-islands"], no_designations),
            delegated_root("com", None, "generic", RootFamily::Generic, &["iana-manager-verisign-global-registry-services"], no_designations),
            delegated_root("de", None, "country-code", RootFamily::CountryCode, &["iana-manager-denic-eg"], no_designations),
            delegated_root("edu", None, "sponsored", RootFamily::Generic, &["iana-manager-educause"], no_designations),
            delegated_root("gov", None, "sponsored", RootFamily::Generic, &["iana-manager-cybersecurity-and-infrastructure-security-agency"], no_designations),
            delegated_root("io", None, "country-code", RootFamily::CountryCode, &["iana-manager-internet-computer-bureau-limited"], no_designations),
            delegated_root("net", None, "generic", RootFamily::Generic, &["iana-manager-verisign-global-registry-services"], no_designations),
            delegated_root("org", None, "generic", RootFamily::Generic, &["iana-manager-public-interest-registry"], no_designations),
            delegated_root("uk", None, "country-code", RootFamily::CountryCode, &["iana-manager-nominet-uk"], no_designations),
            delegated_root("xn--5su34j936bgsg", Some("香格里拉"), "generic", RootFamily::Generic, &["iana-manager-shangri-la-international-hotel-management-limited"], brand_idn),
            delegated_root("xn--vuq861b", Some("信息"), "generic", RootFamily::Generic, &["iana-manager-beijing-tele-info-technology-co-ltd"], idn),
            special_root("alt"),
            special_root("example"),
            special_root("invalid"),
            special_root("local"),
            special_root("localhost"),
            special_root("onion"),
            special_root("test"),
        ];
        let psl = PslRules {
            exact: vec![
                psl_rule("arpa", SuffixRuleKind::Exact, PslSection::Icann),
                psl_rule("bank", SuffixRuleKind::Exact, PslSection::Icann),
                psl_rule("com", SuffixRuleKind::Exact, PslSection::Icann),
                psl_rule("de", SuffixRuleKind::Exact, PslSection::Icann),
                psl_rule("edu", SuffixRuleKind::Exact, PslSection::Icann),
                psl_rule("gov", SuffixRuleKind::Exact, PslSection::Icann),
                psl_rule("io", SuffixRuleKind::Exact, PslSection::Icann),
                psl_rule("net", SuffixRuleKind::Exact, PslSection::Icann),
                psl_rule("org", SuffixRuleKind::Exact, PslSection::Icann),
                psl_rule("uk", SuffixRuleKind::Exact, PslSection::Icann),
                psl_rule("co.uk", SuffixRuleKind::Exact, PslSection::Icann),
                psl_rule("gov.uk", SuffixRuleKind::Exact, PslSection::Icann),
                psl_rule("xn--5su34j936bgsg", SuffixRuleKind::Exact, PslSection::Icann),
                psl_rule("xn--vuq861b", SuffixRuleKind::Exact, PslSection::Icann),
                psl_rule("github.io", SuffixRuleKind::Exact, PslSection::Private),
                psl_rule("service.gov.uk", SuffixRuleKind::Exact, PslSection::Private),
            ],
            wildcard: vec![psl_rule("ck", SuffixRuleKind::Wildcard, PslSection::Icann)],
            exception: vec![psl_rule("www.ck", SuffixRuleKind::Exception, PslSection::Icann)],
        };
        let special_use = vec![
            SpecialUseName { name: "alt" },
            SpecialUseName { name: "example" },
            SpecialUseName { name: "example.com" },
            SpecialUseName { name: "example.net" },
            SpecialUseName { name: "example.org" },
            SpecialUseName { name: "home.arpa" },
            SpecialUseName { name: "invalid" },
            SpecialUseName { name: "ipv4only.arpa" },
            SpecialUseName { name: "local" },
            SpecialUseName { name: "localhost" },
            SpecialUseName { name: "onion" },
            SpecialUseName { name: "resolver.arpa" },
            SpecialUseName { name: "test" },
        ];
        let profiles = vec![
            arpa_profile(),
            denic_open_profile(),
            dotgov_profile(),
            educause_profile(),
            bank_profile(),
            govuk_profile(),
            spec13_profile(),
        ];
        let products = vec![
            product("arpa-infrastructure", "internet-architecture-board", arpa_profile(), no_designations),
            product("bank-ftld", "ftld-registry-services", bank_profile(), no_designations),
            product("de-direct", "denic", denic_open_profile(), no_designations),
            product("dotgov", "cisa", dotgov_profile(), no_designations),
            product("edu-institutions", "educause", educause_profile(), no_designations),
            product("govuk", "cddo", govuk_profile(), no_designations),
            product(
                "icann-spec13-xn--5su34j936bgsg",
                "shangri-la-international-hotel-management-limited",
                spec13_profile(),
                brand,
            ),
        ];
        let product_by_suffix = vec![
            ProductSelector { suffix: "arpa", product_id: "arpa-infrastructure" },
            ProductSelector { suffix: "bank", product_id: "bank-ftld" },
            ProductSelector { suffix: "de", product_id: "de-direct" },
            ProductSelector { suffix: "edu", product_id: "edu-institutions" },
            ProductSelector { suffix: "gov", product_id: "dotgov" },
            ProductSelector { suffix: "gov.uk", product_id: "govuk" },
            ProductSelector { suffix: "xn--5su34j936bgsg", product_id: "icann-spec13-xn--5su34j936bgsg" },
        ];
        proof {
            assert(evidence@.map_values(|e: Evidence| evidence_entry(e)) =~= pinned_evidence());
            assert(root_entry(roots@[0]) == pinned_roots()[0]);
            assert(root_entry(roots@[1]) == pinned_roots()[1]);
            assert(root_entry(roots@[2]) == pinned_roots()[2]);
            assert(root_entry(roots@[3]) == pinned_roots()[3]);
            assert(root_entry(roots@[4]) == pinned_roots()[4]);
            assert(root_entry(roots@[5]) == pinned_roots()[5]);
            assert(root_entry(roots@[6]) == pinned_roots()[6]);
            assert(root_entry(roots@[7]) == pinned_roots()[7]);
            assert(root_entry(roots@[8]) == pinned_roots()[8]);
            assert(root_entry(roots@[9]) == pinned_roots()[9]);
            assert(root_entry(roots@[10]) == pinned_roots()[10]);
            assert(root_entry(roots@[11]) == pinned_roots()[11]);
            assert(root_entry(roots@[12]) == pinned_roots()[12]);
            assert(root_entry(roots@[13]) == pinned_roots()[13]);
            assert(root_entry(roots@[14]) == pinned_roots()[14]);
            assert(root_entry(roots@[15]) == pinned_roots()[15]);
            assert(root_entry(roots@[16]) == pinned_roots()[16]);
            assert(root_entry(roots@[17]) == pinned_roots()[17]);
            assert(root_entry(roots@[18]) == pinned_roots()[18]);
            assert(root_entry(roots@[19]) == pinned_roots()[19]);
            assert(roots@.map_values(|t: RootTld| root_entry(t)) =~= pinned_roots());
            assert(psl.exact@.map_values(|r: SuffixRule| rule_entry(r)) =~= pinned_exact_rules());
            assert(psl.wildcard@.map_values(|r: SuffixRule| rule_entry(r)) =~= pinned_wildcard_rules());
            assert(psl.exception@.map_values(|r: SuffixRule| rule_entry(r))
                =~= pinned_exception_rules());
            assert(special_use@.map_values(|n: SpecialUseName| n.name@) =~= pinned_special_use());
            assert(profiles@.map_values(|p: PolicyProfile| profile_entry(p)) =~= pinned_profiles());
            assert(products@.map_values(|p: RegistrationProduct| product_entry(p))
                =~= pinned_products());
            assert(product_by_suffix@.map_values(|x: ProductSelector| selector_entry(x))
                =~= pinned_selectors());
        }
        Catalog {
            evidence,
            roots,
            psl,
            special_use,
            profiles,
            products,
            product_by_suffix,
            product_one_label_below: Vec::new(),
        }
    }
}

} // verus!
