//! Stable lowercase names of the library's enumerations, as bindings and
//! reports print them.

use vstd::prelude::*;

use crate::types::{
    ApplicationChannel, CandidateStatus, ClaimStatus, Designation, EligibilityKind,
    EligibilityRequirementOutcome, EligibilityStatus, FindingCode, LabelPolicyStatus,
    NamespaceState, OfferingState, PslSection, PublicAccess, RootState, SourceKind, SuffixRole,
    SuffixRuleKind, SyntaxStatus,
};

verus! {

/// The stable name of a syntax status value.
pub open spec fn syntax_status_name(value: SyntaxStatus) -> Seq<char> {
    match value {
        SyntaxStatus::Valid => "valid"@,
        SyntaxStatus::Invalid => "invalid"@,
    }
}

/// Returns the stable name of a syntax status value.
pub fn syntax_status(value: SyntaxStatus) -> (r: &'static str)
    ensures
        r@ == syntax_status_name(value),
{
    match value {
        SyntaxStatus::Valid => "valid",
        SyntaxStatus::Invalid => "invalid",
    }
}

/// The stable name of a candidate status value.
pub open spec fn candidate_status_name(value: CandidateStatus) -> Seq<char> {
    match value {
        CandidateStatus::RegistrableDomain => "registrable_domain"@,
        CandidateStatus::BareSuffix => "bare_suffix"@,
        CandidateStatus::Subdomain => "subdomain"@,
        CandidateStatus::Unresolved => "unresolved"@,
    }
}

/// Returns the stable name of a candidate status value.
pub fn candidate_status(value: CandidateStatus) -> (r: &'static str)
    ensures
        r@ == candidate_status_name(value),
{
    match value {
        CandidateStatus::RegistrableDomain => "registrable_domain",
        CandidateStatus::BareSuffix => "bare_suffix",
        CandidateStatus::Subdomain => "subdomain",
        CandidateStatus::Unresolved => "unresolved",
    }
}

/// The stable name of a claim status value.
pub open spec fn claim_status_name(value: ClaimStatus) -> Seq<char> {
    match value {
        ClaimStatus::Verified => "verified"@,
        ClaimStatus::Unknown => "unknown"@,
        ClaimStatus::Stale => "stale"@,
        ClaimStatus::Conflicting => "conflicting"@,
    }
}

/// Returns the stable name of a claim status value.
pub fn claim_status(value: ClaimStatus) -> (r: &'static str)
    ensures
        r@ == claim_status_name(value),
{
    match value {
        ClaimStatus::Verified => "verified",
        ClaimStatus::Unknown => "unknown",
        ClaimStatus::Stale => "stale",
        ClaimStatus::Conflicting => "conflicting",
    }
}

/// The stable name of a root state value.
pub open spec fn root_state_name(value: RootState) -> Seq<char> {
    match value {
        RootState::Delegated => "delegated"@,
        RootState::SpecialUse => "special_use"@,
        RootState::Absent => "absent"@,
    }
}

/// Returns the stable name of a root state value.
pub fn root_state(value: RootState) -> (r: &'static str)
    ensures
        r@ == root_state_name(value),
{
    match value {
        RootState::Delegated => "delegated",
        RootState::SpecialUse => "special_use",
        RootState::Absent => "absent",
    }
}

/// The stable name of a namespace state value.
pub open spec fn namespace_state_name(value: NamespaceState) -> Seq<char> {
    match value {
        NamespaceState::Ordinary => "ordinary"@,
        NamespaceState::SpecialUse => "special_use"@,
    }
}

/// Returns the stable name of a namespace state value.
pub fn namespace_state(value: NamespaceState) -> (r: &'static str)
    ensures
        r@ == namespace_state_name(value),
{
    match value {
        NamespaceState::Ordinary => "ordinary",
        NamespaceState::SpecialUse => "special_use",
    }
}

/// The stable name of an offering state value.
pub open spec fn offering_state_name(value: OfferingState) -> Seq<char> {
    match value {
        OfferingState::Accepting => "accepting"@,
        OfferingState::Paused => "paused"@,
        OfferingState::RenewalOnly => "renewal_only"@,
        OfferingState::NotLaunched => "not_launched"@,
        OfferingState::Closed => "closed"@,
    }
}

/// Returns the stable name of an offering state value.
pub fn offering_state(value: OfferingState) -> (r: &'static str)
    ensures
        r@ == offering_state_name(value),
{
    match value {
        OfferingState::Accepting => "accepting",
        OfferingState::Paused => "paused",
        OfferingState::RenewalOnly => "renewal_only",
        OfferingState::NotLaunched => "not_launched",
        OfferingState::Closed => "closed",
    }
}

/// The stable name of a public access value.
pub open spec fn public_access_name(value: PublicAccess) -> Seq<char> {
    match value {
        PublicAccess::Open => "open"@,
        PublicAccess::Conditional => "conditional"@,
        PublicAccess::ControlledGroup => "controlled_group"@,
        PublicAccess::Unavailable => "unavailable"@,
    }
}

/// Returns the stable name of a public access value.
pub fn public_access(value: PublicAccess) -> (r: &'static str)
    ensures
        r@ == public_access_name(value),
{
    match value {
        PublicAccess::Open => "open",
        PublicAccess::Conditional => "conditional",
        PublicAccess::ControlledGroup => "controlled_group",
        PublicAccess::Unavailable => "unavailable",
    }
}

/// The stable name of an application channel value.
pub open spec fn application_channel_name(value: ApplicationChannel) -> Seq<char> {
    match value {
        ApplicationChannel::Registrar => "registrar"@,
        ApplicationChannel::RegistryDirect => "registry_direct"@,
        ApplicationChannel::ApprovalWorkflow => "approval_workflow"@,
        ApplicationChannel::DelegatedAuthority => "delegated_authority"@,
        ApplicationChannel::Internal => "internal"@,
    }
}

/// Returns the stable name of an application channel value.
pub fn application_channel(value: ApplicationChannel) -> (r: &'static str)
    ensures
        r@ == application_channel_name(value),
{
    match value {
        ApplicationChannel::Registrar => "registrar",
        ApplicationChannel::RegistryDirect => "registry_direct",
        ApplicationChannel::ApprovalWorkflow => "approval_workflow",
        ApplicationChannel::DelegatedAuthority => "delegated_authority",
        ApplicationChannel::Internal => "internal",
    }
}

/// The stable name of an eligibility status value.
pub open spec fn eligibility_status_name(value: EligibilityStatus) -> Seq<char> {
    match value {
        EligibilityStatus::Satisfied => "satisfied"@,
        EligibilityStatus::Unsatisfied => "unsatisfied"@,
        EligibilityStatus::Required => "required"@,
        EligibilityStatus::Unknown => "unknown"@,
        EligibilityStatus::NotApplicable => "not_applicable"@,
    }
}

/// Returns the stable name of an eligibility status value.
pub fn eligibility_status(value: EligibilityStatus) -> (r: &'static str)
    ensures
        r@ == eligibility_status_name(value),
{
    match value {
        EligibilityStatus::Satisfied => "satisfied",
        EligibilityStatus::Unsatisfied => "unsatisfied",
        EligibilityStatus::Required => "required",
        EligibilityStatus::Unknown => "unknown",
        EligibilityStatus::NotApplicable => "not_applicable",
    }
}

/// The stable name of an eligibility kind value.
pub open spec fn eligibility_kind_name(value: EligibilityKind) -> Seq<char> {
    match value {
        EligibilityKind::Residence => "residence"@,
        EligibilityKind::Citizenship => "citizenship"@,
        EligibilityKind::LegalPresence => "legal_presence"@,
        EligibilityKind::EntityType => "entity_type"@,
        EligibilityKind::RegulatedSectorCredential => "regulated_sector_credential"@,
        EligibilityKind::CommunityMembership => "community_membership"@,
        EligibilityKind::NamingEntitlement => "naming_entitlement"@,
        EligibilityKind::IntendedUse => "intended_use"@,
        EligibilityKind::AuthorityApproval => "authority_approval"@,
    }
}

/// Returns the stable name of an eligibility kind value.
pub fn eligibility_kind(value: EligibilityKind) -> (r: &'static str)
    ensures
        r@ == eligibility_kind_name(value),
{
    match value {
        EligibilityKind::Residence => "residence",
        EligibilityKind::Citizenship => "citizenship",
        EligibilityKind::LegalPresence => "legal_presence",
        EligibilityKind::EntityType => "entity_type",
        EligibilityKind::RegulatedSectorCredential => "regulated_sector_credential",
        EligibilityKind::CommunityMembership => "community_membership",
        EligibilityKind::NamingEntitlement => "naming_entitlement",
        EligibilityKind::IntendedUse => "intended_use",
        EligibilityKind::AuthorityApproval => "authority_approval",
    }
}

/// The stable name of an eligibility requirement outcome value.
pub open spec fn eligibility_requirement_outcome_name(value: EligibilityRequirementOutcome) -> Seq<char> {
    match value {
        EligibilityRequirementOutcome::Satisfied => "satisfied"@,
        EligibilityRequirementOutcome::Unsatisfied => "unsatisfied"@,
        EligibilityRequirementOutcome::Unknown => "unknown"@,
    }
}

/// Returns the stable name of an eligibility requirement outcome value.
pub fn eligibility_requirement_outcome(value: EligibilityRequirementOutcome) -> (r: &'static str)
    ensures
        r@ == eligibility_requirement_outcome_name(value),
{
    match value {
        EligibilityRequirementOutcome::Satisfied => "satisfied",
        EligibilityRequirementOutcome::Unsatisfied => "unsatisfied",
        EligibilityRequirementOutcome::Unknown => "unknown",
    }
}

/// The stable name of a label policy status value.
pub open spec fn label_policy_status_name(value: LabelPolicyStatus) -> Seq<char> {
    match value {
        LabelPolicyStatus::Pass => "pass"@,
        LabelPolicyStatus::Fail => "fail"@,
        LabelPolicyStatus::Partial => "partial"@,
        LabelPolicyStatus::Unknown => "unknown"@,
    }
}

/// Returns the stable name of a label policy status value.
pub fn label_policy_status(value: LabelPolicyStatus) -> (r: &'static str)
    ensures
        r@ == label_policy_status_name(value),
{
    match value {
        LabelPolicyStatus::Pass => "pass",
        LabelPolicyStatus::Fail => "fail",
        LabelPolicyStatus::Partial => "partial",
        LabelPolicyStatus::Unknown => "unknown",
    }
}

/// The stable name of a PSL section value.
pub open spec fn psl_section_name(value: PslSection) -> Seq<char> {
    match value {
        PslSection::Icann => "icann"@,
        PslSection::Private => "private"@,
    }
}

/// Returns the stable name of a PSL section value.
pub fn psl_section(value: PslSection) -> (r: &'static str)
    ensures
        r@ == psl_section_name(value),
{
    match value {
        PslSection::Icann => "icann",
        PslSection::Private => "private",
    }
}

/// The stable name of a suffix rule kind value.
pub open spec fn suffix_rule_kind_name(value: SuffixRuleKind) -> Seq<char> {
    match value {
        SuffixRuleKind::Exact => "exact"@,
        SuffixRuleKind::Wildcard => "wildcard"@,
        SuffixRuleKind::Exception => "exception"@,
        SuffixRuleKind::Default => "default"@,
    }
}

/// Returns the stable name of a suffix rule kind value.
pub fn suffix_rule_kind(value: SuffixRuleKind) -> (r: &'static str)
    ensures
        r@ == suffix_rule_kind_name(value),
{
    match value {
        SuffixRuleKind::Exact => "exact",
        SuffixRuleKind::Wildcard => "wildcard",
        SuffixRuleKind::Exception => "exception",
        SuffixRuleKind::Default => "default",
    }
}

/// The stable name of a suffix role value.
pub open spec fn suffix_role_name(value: SuffixRole) -> Seq<char> {
    match value {
        SuffixRole::RegistryBoundary => "registry_boundary"@,
        SuffixRole::PrivateServiceBoundary => "private_service_boundary"@,
    }
}

/// Returns the stable name of a suffix role value.
pub fn suffix_role(value: SuffixRole) -> (r: &'static str)
    ensures
        r@ == suffix_role_name(value),
{
    match value {
        SuffixRole::RegistryBoundary => "registry_boundary",
        SuffixRole::PrivateServiceBoundary => "private_service_boundary",
    }
}

/// The stable name of a designation value.
pub open spec fn designation_name(value: Designation) -> Seq<char> {
    match value {
        Designation::BrandSpec13 => "brand_spec13"@,
        Designation::CommunitySpec12 => "community_spec12"@,
        Designation::Geographic => "geographic"@,
        Designation::SponsoredLegacy => "sponsored_legacy"@,
        Designation::NonSponsored => "non_sponsored"@,
        Designation::ExclusiveUse => "exclusive_use"@,
        Designation::IdnTld => "idn_tld"@,
    }
}

/// Returns the stable name of a designation value.
pub fn designation(value: Designation) -> (r: &'static str)
    ensures
        r@ == designation_name(value),
{
    match value {
        Designation::BrandSpec13 => "brand_spec13",
        Designation::CommunitySpec12 => "community_spec12",
        Designation::Geographic => "geographic",
        Designation::SponsoredLegacy => "sponsored_legacy",
        Designation::NonSponsored => "non_sponsored",
        Designation::ExclusiveUse => "exclusive_use",
        Designation::IdnTld => "idn_tld",
    }
}

/// The stable name of a source kind value.
pub open spec fn source_kind_name(value: SourceKind) -> Seq<char> {
    match value {
        SourceKind::IanaCurrentRoot => "iana_current_root"@,
        SourceKind::IanaRootDatabase => "iana_root_database"@,
        SourceKind::PublicSuffixList => "public_suffix_list"@,
        SourceKind::RegistryAgreement => "registry_agreement"@,
        SourceKind::RegistryPolicy => "registry_policy"@,
        SourceKind::GovernmentPolicy => "government_policy"@,
        SourceKind::SpecialUseRegistry => "special_use_registry"@,
        SourceKind::StandardsDocument => "standards_document"@,
        SourceKind::RegistryIdnTable => "registry_idn_table"@,
        SourceKind::IanaIdnTable => "iana_idn_table"@,
        SourceKind::Secondary => "secondary"@,
    }
}

/// Returns the stable name of a source kind value.
pub fn source_kind(value: SourceKind) -> (r: &'static str)
    ensures
        r@ == source_kind_name(value),
{
    match value {
        SourceKind::IanaCurrentRoot => "iana_current_root",
        SourceKind::IanaRootDatabase => "iana_root_database",
        SourceKind::PublicSuffixList => "public_suffix_list",
        SourceKind::RegistryAgreement => "registry_agreement",
        SourceKind::RegistryPolicy => "registry_policy",
        SourceKind::GovernmentPolicy => "government_policy",
        SourceKind::SpecialUseRegistry => "special_use_registry",
        SourceKind::StandardsDocument => "standards_document",
        SourceKind::RegistryIdnTable => "registry_idn_table",
        SourceKind::IanaIdnTable => "iana_idn_table",
        SourceKind::Secondary => "secondary",
    }
}

/// The stable name of a finding code value.
pub open spec fn finding_code_name(value: FindingCode) -> Seq<char> {
    match value {
        FindingCode::InvalidIdna => "invalid_idna"@,
        FindingCode::InvalidDnsSyntax => "invalid_dns_syntax"@,
        FindingCode::RootAbsent => "root_absent"@,
        FindingCode::SpecialUseNamespace => "special_use_namespace"@,
        FindingCode::BareSuffix => "bare_suffix"@,
        FindingCode::Subdomain => "subdomain"@,
        FindingCode::NoRegistrationProduct => "no_registration_product"@,
        FindingCode::OfferingNotAccepting => "offering_not_accepting"@,
        FindingCode::PublicAccessUnavailable => "public_access_unavailable"@,
        FindingCode::EligibilityRequired => "eligibility_required"@,
        FindingCode::EligibilityFailed => "eligibility_failed"@,
        FindingCode::EligibilityUnknown => "eligibility_unknown"@,
        FindingCode::UnknownEligibilityRequirement => "unknown_eligibility_requirement"@,
        FindingCode::LabelPolicyFailed => "label_policy_failed"@,
        FindingCode::LabelPolicyIncomplete => "label_policy_incomplete"@,
        FindingCode::ClaimUnknown => "claim_unknown"@,
        FindingCode::ClaimStale => "claim_stale"@,
        FindingCode::ClaimConflicting => "claim_conflicting"@,
    }
}

/// Returns the stable name of a finding code value.
pub fn finding_code(value: FindingCode) -> (r: &'static str)
    ensures
        r@ == finding_code_name(value),
{
    match value {
        FindingCode::InvalidIdna => "invalid_idna",
        FindingCode::InvalidDnsSyntax => "invalid_dns_syntax",
        FindingCode::RootAbsent => "root_absent",
        FindingCode::SpecialUseNamespace => "special_use_namespace",
        FindingCode::BareSuffix => "bare_suffix",
        FindingCode::Subdomain => "subdomain",
        FindingCode::NoRegistrationProduct => "no_registration_product",
        FindingCode::OfferingNotAccepting => "offering_not_accepting",
        FindingCode::PublicAccessUnavailable => "public_access_unavailable",
        FindingCode::EligibilityRequired => "eligibility_required",
        FindingCode::EligibilityFailed => "eligibility_failed",
        FindingCode::EligibilityUnknown => "eligibility_unknown",
        FindingCode::UnknownEligibilityRequirement => "unknown_eligibility_requirement",
        FindingCode::LabelPolicyFailed => "label_policy_failed",
        FindingCode::LabelPolicyIncomplete => "label_policy_incomplete",
        FindingCode::ClaimUnknown => "claim_unknown",
        FindingCode::ClaimStale => "claim_stale",
        FindingCode::ClaimConflicting => "claim_conflicting",
    }
}

} // verus!
