//! Evidence-aware domain registration assessment over a pinned namespace catalog.
//!
//! Public Suffix List membership and root delegation are topology facts, not
//! proof that a registration product is open. Those facts stay separate from
//! registry policy, and a verdict stays indeterminate while any policy fact
//! that decides it is unknown.

pub mod catalog;
pub mod checker;
pub mod coverage;
pub mod eligibility;
pub mod evaluator;
pub mod evidence;
pub mod findings;
pub mod label_policy;
pub mod laws;
pub mod lookup;
pub mod names;
pub mod namespace;
pub mod normalize;
pub mod registry;
pub mod requirement_set;
pub mod selection;
pub mod text;
pub mod topology;
pub mod types;

pub use checker::{validate_ascii_domain, validate_ascii_label};
pub use evaluator::{derive_verdict, EvaluationInput};
pub use registry::Registry;
pub use requirement_set::RequirementSet;
pub use types::{
    ApplicationChannel, Assessment, CandidateStatus, Claim, ClaimCounts, ClaimStatus,
    Designation, EligibilityExpression, EligibilityKind, EligibilityRequirement,
    EligibilityRequirementAssessment, EligibilityRequirementOutcome, EligibilityStatus, Evidence,
    Finding, FindingCode, IdnProfile, IdnSupport, LabelPolicy, LabelPolicyStatus,
    LengthConstraint, LengthUnit, NamespaceState, OfferingState, PolicyCoverage, PolicyProfile,
    PslSection, PublicAccess, RegistrantContext, RegistrationProduct, RegistryStats,
    ReservedDisposition, ReservedLabel, RootCounts, RootFamily, RootState, RootTld,
    SelectorCounts, SourceKind, SuffixInfo, SuffixMatch, SuffixRole, SuffixRule, SuffixRuleKind,
    SyntaxStatus, TopologyCounts, Verdict,
};
