//! Requirements engineering: a record keeper for requirements elicited from
//! free text, analysed for clarity, verifiability and charter compliance,
//! collected into a specification, and traced to parents, children and test
//! cases.

use vstd::prelude::*;

use vstd::utf8::encode_utf8;

use crate::text::{
    contains_sub, dec3_str, dec3_string, lower_of, lowercase, spec_contains, spec_split, spec_trim,
    split_str, trim_str,
};
use crate::world::{duplicate_strings, StringMap};
use crate::AgentError;

verus! {

// ---------------------------------------------------------------------------
// The data model
// ---------------------------------------------------------------------------
/// The kind of a requirement.
#[derive(Clone, Copy, Debug, PartialEq, Eq, Structural)]
pub enum RequirementType {
    /// A functional requirement.
    Functional,
    /// A non-functional requirement of the given category.
    NonFunctional { category: NonFunctionalCategory },
    /// A system requirement.
    System,
    /// A business requirement.
    Business,
    /// A user requirement.
    User,
    /// A constraint.
    Constraint,
    /// An interface requirement.
    Interface,
}

/// The category of a non-functional requirement.
#[derive(Clone, Copy, Debug, PartialEq, Eq, Structural)]
pub enum NonFunctionalCategory {
    Performance,
    Security,
    Reliability,
    Availability,
    Maintainability,
    Scalability,
    Usability,
}

/// A requirement's priority, after the MoSCoW scheme.
#[derive(Clone, Copy, Debug, PartialEq, Eq, PartialOrd, Ord, Structural)]
pub enum RequirementPriority {
    /// Must have.
    Must,
    /// Should have.
    Should,
    /// Could have.
    Could,
    /// Won't have, this time.
    Wont,
}

/// How a requirement is verified.
#[derive(Clone, Copy, Debug, PartialEq, Eq, Structural)]
pub enum VerificationMethod {
    Inspection,
    Analysis,
    Demonstration,
    Test,
}

/// Where a requirement stands in its lifecycle.
#[derive(Clone, Copy, Debug, PartialEq, Eq, Structural)]
pub enum RequirementStatus {
    Proposed,
    Approved,
    InProgress,
    Verified,
    Completed,
    Rejected,
    Deferred,
}

/// An acceptance criterion in given/when/then form.
#[derive(Debug, Clone)]
pub struct AcceptanceCriterion {
    pub given: String,
    pub when_part: String,
    pub then_part: String,
    pub measurable: bool,
}

/// An `AcceptanceCriterion`, as a mathematical value.
#[verifier::ext_equal]
pub ghost struct AcceptanceCriterionView {
    pub given: Seq<char>,
    pub when_part: Seq<char>,
    pub then_part: Seq<char>,
    pub measurable: bool,
}

impl View for AcceptanceCriterion {
    type V = AcceptanceCriterionView;

    open spec fn view(&self) -> AcceptanceCriterionView {
        AcceptanceCriterionView {
            given: self.given@,
            when_part: self.when_part@,
            then_part: self.then_part@,
            measurable: self.measurable,
        }
    }
}

impl DeepView for AcceptanceCriterion {
    type V = AcceptanceCriterionView;

    open spec fn deep_view(&self) -> AcceptanceCriterionView {
        self.view()
    }
}

/// Traces from a requirement to its parents, children, relatives, design
/// elements and test cases.
#[derive(Debug, Clone)]
pub struct Traceability {
    pub parent_requirements: Vec<String>,
    pub child_requirements: Vec<String>,
    pub related_requirements: Vec<String>,
    pub design_elements: Vec<String>,
    pub test_cases: Vec<String>,
}

/// A `Traceability`, as a mathematical value.
#[verifier::ext_equal]
pub ghost struct TraceabilityView {
    pub parent_requirements: Seq<Seq<char>>,
    pub child_requirements: Seq<Seq<char>>,
    pub related_requirements: Seq<Seq<char>>,
    pub design_elements: Seq<Seq<char>>,
    pub test_cases: Seq<Seq<char>>,
}

impl View for Traceability {
    type V = TraceabilityView;

    open spec fn view(&self) -> TraceabilityView {
        TraceabilityView {
            parent_requirements: self.parent_requirements.deep_view(),
            child_requirements: self.child_requirements.deep_view(),
            related_requirements: self.related_requirements.deep_view(),
            design_elements: self.design_elements.deep_view(),
            test_cases: self.test_cases.deep_view(),
        }
    }
}

impl DeepView for Traceability {
    type V = TraceabilityView;

    open spec fn deep_view(&self) -> TraceabilityView {
        self.view()
    }
}

/// Traceability with nothing traced yet.
pub open spec fn empty_traceability() -> TraceabilityView {
    TraceabilityView {
        parent_requirements: Seq::empty(),
        child_requirements: Seq::empty(),
        related_requirements: Seq::empty(),
        design_elements: Seq::empty(),
        test_cases: Seq::empty(),
    }
}

impl Default for Traceability {
    /// Traceability with nothing traced yet.
    fn default() -> (r: Self)
        ensures
            r@ == empty_traceability(),
    {
        let r = Traceability {
            parent_requirements: Vec::new(),
            child_requirements: Vec::new(),
            related_requirements: Vec::new(),
            design_elements: Vec::new(),
            test_cases: Vec::new(),
        };
        proof {
            assert(r@ =~~= empty_traceability());
        }
        r
    }
}

/// One requirement of the specification.
#[derive(Debug, Clone)]
pub struct Requirement {
    pub id: String,
    pub req_type: RequirementType,
    pub description: String,
    pub priority: RequirementPriority,
    pub stakeholders: Vec<String>,
    pub acceptance_criteria: Vec<AcceptanceCriterion>,
    pub traceability: Traceability,
    pub verification_method: VerificationMethod,
    pub status: RequirementStatus,
    pub metadata: StringMap,
}

/// A `Requirement`, as a mathematical value.
#[verifier::ext_equal]
pub ghost struct RequirementView {
    pub id: Seq<char>,
    pub req_type: RequirementType,
    pub description: Seq<char>,
    pub priority: RequirementPriority,
    pub stakeholders: Seq<Seq<char>>,
    pub acceptance_criteria: Seq<AcceptanceCriterionView>,
    pub traceability: TraceabilityView,
    pub verification_method: VerificationMethod,
    pub status: RequirementStatus,
    pub metadata: Map<Seq<char>, Seq<char>>,
}

impl View for Requirement {
    type V = RequirementView;

    open spec fn view(&self) -> RequirementView {
        RequirementView {
            id: self.id@,
            req_type: self.req_type,
            description: self.description@,
            priority: self.priority,
            stakeholders: self.stakeholders.deep_view(),
            acceptance_criteria: self.acceptance_criteria.deep_view(),
            traceability: self.traceability@,
            verification_method: self.verification_method,
            status: self.status,
            metadata: self.metadata@,
        }
    }
}

impl DeepView for Requirement {
    type V = RequirementView;

    open spec fn deep_view(&self) -> RequirementView {
        self.view()
    }
}

/// How much influence a stakeholder has.
#[derive(Clone, Copy, Debug, PartialEq, Eq, Structural)]
pub enum InfluenceLevel {
    High,
    Medium,
    Low,
}

/// A stakeholder of the project.
#[derive(Debug, Clone)]
pub struct Stakeholder {
    pub name: String,
    pub role: String,
    pub interests: Vec<String>,
    pub influence: InfluenceLevel,
}

/// A `Stakeholder`, as a mathematical value.
#[verifier::ext_equal]
pub ghost struct StakeholderView {
    pub name: Seq<char>,
    pub role: Seq<char>,
    pub interests: Seq<Seq<char>>,
    pub influence: InfluenceLevel,
}

impl View for Stakeholder {
    type V = StakeholderView;

    open spec fn view(&self) -> StakeholderView {
        StakeholderView {
            name: self.name@,
            role: self.role@,
            interests: self.interests.deep_view(),
            influence: self.influence,
        }
    }
}

impl DeepView for Stakeholder {
    type V = StakeholderView;

    open spec fn deep_view(&self) -> StakeholderView {
        self.view()
    }
}

/// The stakeholders identified for the project.
#[derive(Debug, Clone)]
pub struct StakeholderAnalysis {
    pub stakeholders: Vec<Stakeholder>,
}

/// A `StakeholderAnalysis`, as a mathematical value.
#[verifier::ext_equal]
pub ghost struct StakeholderAnalysisView {
    pub stakeholders: Seq<StakeholderView>,
}

impl View for StakeholderAnalysis {
    type V = StakeholderAnalysisView;

    open spec fn view(&self) -> StakeholderAnalysisView {
        StakeholderAnalysisView { stakeholders: self.stakeholders.deep_view() }
    }
}

/// What lies inside and outside the system.
#[derive(Debug, Clone)]
pub struct SystemBoundary {
    pub in_scope: Vec<String>,
    pub out_of_scope: Vec<String>,
    pub external_interfaces: Vec<String>,
}

/// A `SystemBoundary`, as a mathematical value.
#[verifier::ext_equal]
pub ghost struct SystemBoundaryView {
    pub in_scope: Seq<Seq<char>>,
    pub out_of_scope: Seq<Seq<char>>,
    pub external_interfaces: Seq<Seq<char>>,
}

impl View for SystemBoundary {
    type V = SystemBoundaryView;

    open spec fn view(&self) -> SystemBoundaryView {
        SystemBoundaryView {
            in_scope: self.in_scope.deep_view(),
            out_of_scope: self.out_of_scope.deep_view(),
            external_interfaces: self.external_interfaces.deep_view(),
        }
    }
}

/// A whole requirements specification.
#[derive(Debug, Clone)]
pub struct RequirementsSpecification {
    pub project_name: String,
    pub version: String,
    pub requirements: Vec<Requirement>,
    pub stakeholder_analysis: StakeholderAnalysis,
    pub system_boundary: SystemBoundary,
    pub glossary: StringMap,
}

/// A `RequirementsSpecification`, as a mathematical value.
#[verifier::ext_equal]
pub ghost struct RequirementsSpecificationView {
    pub project_name: Seq<char>,
    pub version: Seq<char>,
    pub requirements: Seq<RequirementView>,
    pub stakeholder_analysis: StakeholderAnalysisView,
    pub system_boundary: SystemBoundaryView,
    pub glossary: Map<Seq<char>, Seq<char>>,
}

impl View for RequirementsSpecification {
    type V = RequirementsSpecificationView;

    open spec fn view(&self) -> RequirementsSpecificationView {
        RequirementsSpecificationView {
            project_name: self.project_name@,
            version: self.version@,
            requirements: self.requirements.deep_view(),
            stakeholder_analysis: self.stakeholder_analysis@,
            system_boundary: self.system_boundary@,
            glossary: self.glossary@,
        }
    }
}

/// What analysing one requirement reports.
#[derive(Debug, Clone)]
pub struct AnalysisResult {
    pub requirement_id: String,
    pub is_valid: bool,
    pub issues: Vec<String>,
    pub recommendations: Vec<String>,
}

/// An `AnalysisResult`, as a mathematical value.
#[verifier::ext_equal]
pub ghost struct AnalysisResultView {
    pub requirement_id: Seq<char>,
    pub is_valid: bool,
    pub issues: Seq<Seq<char>>,
    pub recommendations: Seq<Seq<char>>,
}

impl View for AnalysisResult {
    type V = AnalysisResultView;

    open spec fn view(&self) -> AnalysisResultView {
        AnalysisResultView {
            requirement_id: self.requirement_id@,
            is_valid: self.is_valid,
            issues: self.issues.deep_view(),
            recommendations: self.recommendations.deep_view(),
        }
    }
}

/// What validating the whole specification reports.
#[derive(Debug, Clone)]
pub struct ValidationReport {
    pub total_requirements: usize,
    pub valid_requirements: usize,
    pub issues: Vec<String>,
}

/// A `ValidationReport`, as a mathematical value.
#[verifier::ext_equal]
pub ghost struct ValidationReportView {
    pub total_requirements: nat,
    pub valid_requirements: nat,
    pub issues: Seq<Seq<char>>,
}

impl View for ValidationReport {
    type V = ValidationReportView;

    open spec fn view(&self) -> ValidationReportView {
        ValidationReportView {
            total_requirements: self.total_requirements as nat,
            valid_requirements: self.valid_requirements as nat,
            issues: self.issues.deep_view(),
        }
    }
}

/// One row of the traceability matrix.
#[derive(Debug, Clone)]
pub struct TraceabilityEntry {
    pub requirement_id: String,
    pub parent_ids: Vec<String>,
    pub child_ids: Vec<String>,
    pub test_case_ids: Vec<String>,
}

/// A `TraceabilityEntry`, as a mathematical value.
#[verifier::ext_equal]
pub ghost struct TraceabilityEntryView {
    pub requirement_id: Seq<char>,
    pub parent_ids: Seq<Seq<char>>,
    pub child_ids: Seq<Seq<char>>,
    pub test_case_ids: Seq<Seq<char>>,
}

impl View for TraceabilityEntry {
    type V = TraceabilityEntryView;

    open spec fn view(&self) -> TraceabilityEntryView {
        TraceabilityEntryView {
            requirement_id: self.requirement_id@,
            parent_ids: self.parent_ids.deep_view(),
            child_ids: self.child_ids.deep_view(),
            test_case_ids: self.test_case_ids.deep_view(),
        }
    }
}

impl DeepView for TraceabilityEntry {
    type V = TraceabilityEntryView;

    open spec fn deep_view(&self) -> TraceabilityEntryView {
        self.view()
    }
}

/// The traceability matrix: one entry per requirement, in requirement
/// order.
#[derive(Debug, Clone)]
pub struct TraceabilityMatrix {
    pub requirements: Vec<TraceabilityEntry>,
}

// ---------------------------------------------------------------------------
// The analysis rules
// ---------------------------------------------------------------------------
/// The description is too short to be clear: under ten bytes in its UTF-8
/// form (the cast mirrors `str::len`).
pub open spec fn clarity_issue(r: RequirementView) -> bool {
    (encode_utf8(r.description).len() as usize) < 10
}

/// No acceptance criteria, so nothing is verifiable.
pub open spec fn verifiability_issue(r: RequirementView) -> bool {
    r.acceptance_criteria.len() == 0
}

/// The lowercased description asks for automatic decisions without a human.
pub open spec fn charter_auto_issue(r: RequirementView) -> bool {
    spec_contains(lower_of(r.description), "自動判断"@) && !spec_contains(
        lower_of(r.description),
        "人間"@,
    )
}

/// The lowercased description asks for all data, against data minimisation.
pub open spec fn charter_data_issue(r: RequirementView) -> bool {
    spec_contains(lower_of(r.description), "すべてのデータ"@) || spec_contains(
        lower_of(r.description),
        "全データ"@,
    )
}

/// A security requirement without acceptance criteria.
pub open spec fn charter_security_issue(r: RequirementView) -> bool {
    r.req_type == (RequirementType::NonFunctional { category: NonFunctionalCategory::Security })
        && r.acceptance_criteria.len() == 0
}

/// The issues charter review adds, in their fixed order.
pub open spec fn charter_issues(r: RequirementView) -> Seq<Seq<char>> {
    (if charter_auto_issue(r) {
        seq!["憲章違反: 自動判断には人間の承認が必要です"@]
    } else {
        Seq::<Seq<char>>::empty()
    }) + (if charter_data_issue(r) {
        seq!["憲章推奨: 必要最小限のデータ収集を検討してください"@]
    } else {
        Seq::<Seq<char>>::empty()
    }) + (if charter_security_issue(r) {
        seq!["セキュリティ要求には明確な受入基準が必要です"@]
    } else {
        Seq::<Seq<char>>::empty()
    })
}

/// All issues analysis reports for a requirement, in their fixed order:
/// clarity, verifiability, then the charter issues when enforcement is on.
pub open spec fn issues_spec(enforce: bool, r: RequirementView) -> Seq<Seq<char>> {
    (if clarity_issue(r) {
        seq!["要求の記述が短すぎます（明確性）"@]
    } else {
        Seq::<Seq<char>>::empty()
    }) + (if verifiability_issue(r) {
        seq!["受入基準が定義されていません（検証可能性）"@]
    } else {
        Seq::<Seq<char>>::empty()
    }) + (if enforce {
        charter_issues(r)
    } else {
        Seq::<Seq<char>>::empty()
    })
}

/// The recommendations analysis attaches: acceptance criteria when none
/// exist, a parent trace for everything but business requirements, and
/// named stakeholders when none are given.
pub open spec fn recommendations_spec(r: RequirementView) -> Seq<Seq<char>> {
    (if r.acceptance_criteria.len() == 0 {
        seq!["Given-When-Then形式の受入基準を追加してください"@]
    } else {
        Seq::<Seq<char>>::empty()
    }) + (if r.traceability.parent_requirements.len() == 0 && r.req_type
        != RequirementType::Business {
        seq!["上位要求とのトレーサビリティを確立してください"@]
    } else {
        Seq::<Seq<char>>::empty()
    }) + (if r.stakeholders.len() == 0 {
        seq!["ステークホルダーを明記してください"@]
    } else {
        Seq::<Seq<char>>::empty()
    })
}

/// What analysing a requirement returns: its id, whether no issues were
/// found, the issues, and the recommendations.
pub open spec fn analysis_spec(enforce: bool, r: RequirementView) -> AnalysisResultView {
    AnalysisResultView {
        requirement_id: r.id,
        is_valid: issues_spec(enforce, r).len() == 0,
        issues: issues_spec(enforce, r),
        recommendations: recommendations_spec(r),
    }
}

// ---------------------------------------------------------------------------
// The extraction rules
// ---------------------------------------------------------------------------
/// Whether a sentence states a requirement: it speaks of necessity,
/// obligation or action.
pub open spec fn sentence_matches(s: Seq<char>) -> bool {
    spec_contains(s, "必要"@) || spec_contains(s, "べき"@) || spec_contains(s, "する"@)
}

/// The requirement extracted from the sentence at position `i` (ids count
/// from one over all sentences, matching or not).
pub open spec fn requirement_at(i: nat, sentence: Seq<char>, stakeholder: Seq<char>) -> RequirementView {
    RequirementView {
        id: "REQ-"@ + dec3_str(i + 1),
        req_type: RequirementType::User,
        description: spec_trim(sentence),
        priority: RequirementPriority::Should,
        stakeholders: seq![stakeholder],
        acceptance_criteria: Seq::empty(),
        traceability: empty_traceability(),
        verification_method: VerificationMethod::Test,
        status: RequirementStatus::Proposed,
        metadata: Map::empty(),
    }
}

/// The requirements extracted from a sentence list: one per matching
/// sentence, in sentence order.
pub open spec fn extracted_from(sentences: Seq<Seq<char>>, stakeholder: Seq<char>) -> Seq<
    RequirementView,
>
    decreases sentences.len(),
{
    if sentences.len() == 0 {
        Seq::empty()
    } else {
        extracted_from(sentences.drop_last(), stakeholder) + (if sentence_matches(
            sentences.last(),
        ) {
            seq![requirement_at((sentences.len() - 1) as nat, sentences.last(), stakeholder)]
        } else {
            Seq::<RequirementView>::empty()
        })
    }
}

/// The requirements extracted from free text: the text is split into
/// sentences at the full stop, and each matching sentence becomes one
/// requirement.
pub open spec fn extract_spec(text: Seq<char>, stakeholder: Seq<char>) -> Seq<RequirementView> {
    extracted_from(spec_split(text, '。'), stakeholder)
}

// ---------------------------------------------------------------------------
// The validation rules
// ---------------------------------------------------------------------------
/// How many of the requirements analyse without issues.
pub open spec fn valid_count(enforce: bool, rs: Seq<RequirementView>) -> nat
    decreases rs.len(),
{
    if rs.len() == 0 {
        0
    } else {
        valid_count(enforce, rs.drop_last()) + (if issues_spec(enforce, rs.last()).len() == 0 {
            1nat
        } else {
            0nat
        })
    }
}

/// The issues of all invalid requirements, in requirement order.
pub open spec fn invalid_issues(enforce: bool, rs: Seq<RequirementView>) -> Seq<Seq<char>>
    decreases rs.len(),
{
    if rs.len() == 0 {
        Seq::empty()
    } else {
        invalid_issues(enforce, rs.drop_last()) + (if issues_spec(enforce, rs.last()).len() == 0 {
            Seq::<Seq<char>>::empty()
        } else {
            issues_spec(enforce, rs.last())
        })
    }
}

/// The matrix row for one requirement.
pub open spec fn entry_for(r: RequirementView) -> TraceabilityEntryView {
    TraceabilityEntryView {
        requirement_id: r.id,
        parent_ids: r.traceability.parent_requirements,
        child_ids: r.traceability.child_requirements,
        test_case_ids: r.traceability.test_cases,
    }
}

/// The specification a fresh engineer starts from.
pub open spec fn initial_specification(project_name: Seq<char>) -> RequirementsSpecificationView {
    RequirementsSpecificationView {
        project_name,
        version: "1.0.0"@,
        requirements: Seq::empty(),
        stakeholder_analysis: StakeholderAnalysisView { stakeholders: Seq::empty() },
        system_boundary: SystemBoundaryView {
            in_scope: Seq::empty(),
            out_of_scope: Seq::empty(),
            external_interfaces: Seq::empty(),
        },
        glossary: Map::empty(),
    }
}

// ---------------------------------------------------------------------------
// The engineer
// ---------------------------------------------------------------------------
/// Keeps one requirements specification and analyses what goes into it.
pub struct RequirementsEngineer {
    pub specification: RequirementsSpecification,
    pub enforce_charter: bool,
}

impl RequirementsEngineer {
    /// An engineer over an empty specification for the named project.
    pub fn new(project_name: String, enforce_charter: bool) -> (r: Self)
        ensures
            r.enforce_charter == enforce_charter,
            r.specification@ == initial_specification(project_name@),
    {
        let specification = RequirementsSpecification {
            project_name,
            version: "1.0.0".to_owned(),
            requirements: Vec::new(),
            stakeholder_analysis: StakeholderAnalysis { stakeholders: Vec::new() },
            system_boundary: SystemBoundary {
                in_scope: Vec::new(),
                out_of_scope: Vec::new(),
                external_interfaces: Vec::new(),
            },
            glossary: StringMap::new(),
        };
        proof {
            assert(specification@ =~~= initial_specification(specification.project_name@));
        }
        RequirementsEngineer { specification, enforce_charter }
    }

    /// Extracts requirements from free text on behalf of a stakeholder,
    /// exactly as `extract_spec` describes. The specification itself does
    /// not change; extraction never fails.
    pub fn elicit_requirements(&mut self, input: &str, stakeholder: &str) -> (r: Result<
        Vec<Requirement>,
        AgentError,
    >)
        ensures
            r matches Ok(rs) && rs.deep_view() == extract_spec(input@, stakeholder@),
            *final(self) == *old(self),
    {
        self.extract_requirements_from_text(input, stakeholder)
    }

    /// Analyses one requirement, exactly as `analysis_spec` describes:
    /// clarity, verifiability and, when enforcement is on, the charter
    /// rules; analysis never fails.
    pub fn analyze_requirement(&self, requirement: &Requirement) -> (r: Result<
        AnalysisResult,
        AgentError,
    >)
        ensures
            r matches Ok(a) && a@ == analysis_spec(self.enforce_charter, requirement@),
    {
        let ghost seg_clarity: Seq<Seq<char>> = if clarity_issue(requirement@) {
            seq!["要求の記述が短すぎます（明確性）"@]
        } else {
            Seq::<Seq<char>>::empty()
        };
        let ghost seg_verifiability: Seq<Seq<char>> = if verifiability_issue(requirement@) {
            seq!["受入基準が定義されていません（検証可能性）"@]
        } else {
            Seq::<Seq<char>>::empty()
        };
        let mut issues: Vec<String> = Vec::new();
        if requirement.description.as_str().len() < 10 {
            issues.push("要求の記述が短すぎます（明確性）".to_owned());
        }
        proof {
            assert(issues.deep_view() =~~= seg_clarity);
        }
        if requirement.acceptance_criteria.is_empty() {
            issues.push("受入基準が定義されていません（検証可能性）".to_owned());
        }
        proof {
            assert(issues.deep_view() =~~= seg_clarity + seg_verifiability);
        }
        if self.enforce_charter {
            match self.validate_against_charter(requirement, &mut issues) {
                Ok(()) => (),
                Err(e) => {
                    return Err(e);
                },
            }
        }
        proof {
            assert(issues.deep_view() =~~= issues_spec(self.enforce_charter, requirement@));
        }
        let is_valid = issues.is_empty();
        let recommendations = self.generate_recommendations(requirement);
        Ok(
            AnalysisResult {
                requirement_id: requirement.id.clone(),
                is_valid,
                issues,
                recommendations,
            },
        )
    }

    /// Adds a requirement to the specification; nothing else changes, and
    /// nothing already recorded is touched.
    pub fn add_requirement(&mut self, requirement: Requirement) -> (r: Result<(), AgentError>)
        ensures
            r == Ok::<(), AgentError>(()),
            final(self).enforce_charter == old(self).enforce_charter,
            final(self).specification@ == (RequirementsSpecificationView {
                requirements: old(self).specification@.requirements.push(requirement@),
                ..old(self).specification@
            }),
    {
        self.specification.requirements.push(requirement);
        proof {
            assert(self.specification.requirements.deep_view() =~= old(
                self,
            ).specification.requirements.deep_view().push(requirement@));
        }
        Ok(())
    }

    /// Validates every requirement of the specification: how many are
    /// valid, and the issues of the invalid ones, in order. Validation
    /// never fails.
    pub fn validate_requirements(&self) -> (r: Result<ValidationReport, AgentError>)
        ensures
            r matches Ok(v) && v@ == (ValidationReportView {
                total_requirements: self.specification@.requirements.len(),
                valid_requirements: valid_count(
                    self.enforce_charter,
                    self.specification@.requirements,
                ),
                issues: invalid_issues(self.enforce_charter, self.specification@.requirements),
            }),
    {
        let ghost rs = self.specification@.requirements;
        let total_requirements = self.specification.requirements.len();
        let mut valid_requirements: usize = 0;
        let mut issues: Vec<String> = Vec::new();
        let mut i: usize = 0;
        proof {
            assert(issues.deep_view() =~~= invalid_issues(self.enforce_charter, rs.take(0)));
        }
        while i < total_requirements
            invariant
                i <= total_requirements,
                total_requirements == rs.len(),
                rs == self.specification@.requirements,
                valid_requirements <= i,
                valid_requirements == valid_count(self.enforce_charter, rs.take(i as int)),
                issues.deep_view() == invalid_issues(self.enforce_charter, rs.take(i as int)),
            decreases total_requirements - i,
        {
            let analysis = match self.analyze_requirement(&self.specification.requirements[i]) {
                Ok(a) => a,
                Err(e) => {
                    return Err(e);
                },
            };
            proof {
                assert(rs.take(i + 1).drop_last() =~= rs.take(i as int));
            }
            if analysis.is_valid {
                valid_requirements += 1;
                proof {
                    assert(issues.deep_view() =~~= invalid_issues(
                        self.enforce_charter,
                        rs.take(i + 1),
                    ));
                }
            } else {
                let mut analysis = analysis;
                issues.append(&mut analysis.issues);
                proof {
                    assert(issues.deep_view() =~~= invalid_issues(
                        self.enforce_charter,
                        rs.take(i + 1),
                    ));
                }
            }
            i += 1;
        }
        proof {
            assert(rs.take(total_requirements as int) =~= rs);
        }
        Ok(ValidationReport { total_requirements, valid_requirements, issues })
    }

    /// The traceability matrix: one row per requirement, in order, tracing
    /// parents, children and test cases.
    pub fn analyze_traceability(&self) -> (m: TraceabilityMatrix)
        ensures
            m.requirements.deep_view() == self.specification@.requirements.map_values(
                |r: RequirementView| entry_for(r),
            ),
    {
        let ghost target = self.specification@.requirements.map_values(
            |r: RequirementView| entry_for(r),
        );
        let n = self.specification.requirements.len();
        let mut entries: Vec<TraceabilityEntry> = Vec::new();
        let mut i: usize = 0;
        proof {
            assert(entries.deep_view() =~~= target.take(0));
        }
        while i < n
            invariant
                i <= n,
                n == self.specification.requirements@.len(),
                entries@.len() == i,
                target == self.specification@.requirements.map_values(
                    |r: RequirementView| entry_for(r),
                ),
                entries.deep_view() == target.take(i as int),
            decreases n - i,
        {
            let req = &self.specification.requirements[i];
            entries.push(
                TraceabilityEntry {
                    requirement_id: req.id.clone(),
                    parent_ids: duplicate_strings(&req.traceability.parent_requirements),
                    child_ids: duplicate_strings(&req.traceability.child_requirements),
                    test_case_ids: duplicate_strings(&req.traceability.test_cases),
                },
            );
            proof {
                assert(entries.deep_view() =~~= target.take(i + 1));
            }
            i += 1;
        }
        proof {
            assert(target.take(n as int) =~~= target);
        }
        TraceabilityMatrix { requirements: entries }
    }

    /// The current specification.
    pub fn export_specification(&self) -> (r: &RequirementsSpecification)
        ensures
            r@ == self.specification@,
    {
        &self.specification
    }

    /// Extracts one `User` requirement per matching sentence of `text`,
    /// split at the full stop; ids number the sentences from one.
    fn extract_requirements_from_text(&self, text: &str, stakeholder: &str) -> (r: Result<
        Vec<Requirement>,
        AgentError,
    >)
        ensures
            r matches Ok(rs) && rs.deep_view() == extract_spec(text@, stakeholder@),
    {
        let ghost pieces = spec_split(text@, '。');
        let sentences = split_str(text, '。');
        let n = sentences.len();
        let mut requirements: Vec<Requirement> = Vec::new();
        let mut i: usize = 0;
        proof {
            assert(requirements.deep_view() =~~= extracted_from(pieces.take(0), stakeholder@));
        }
        while i < n
            invariant
                i <= n,
                n == sentences@.len(),
                pieces == sentences.deep_view(),
                requirements.deep_view() == extracted_from(pieces.take(i as int), stakeholder@),
            decreases n - i,
        {
            let sentence = sentences[i].as_str();
            proof {
                assert(pieces.take(i + 1).drop_last() =~= pieces.take(i as int));
                assert(pieces.take(i + 1).last() == pieces[i as int]);
            }
            if contains_sub(sentence, "必要") || contains_sub(sentence, "べき") || contains_sub(
                sentence,
                "する",
            ) {
                let mut id = "REQ-".to_owned();
                let number = dec3_string((i + 1) as u64);
                id.append(number.as_str());
                let mut stakeholders: Vec<String> = Vec::new();
                stakeholders.push(stakeholder.to_owned());
                proof {
                    assert(stakeholders.deep_view() =~~= seq![stakeholder@]);
                }
                let req = Requirement {
                    id,
                    req_type: RequirementType::User,
                    description: trim_str(sentence).to_owned(),
                    priority: RequirementPriority::Should,
                    stakeholders,
                    acceptance_criteria: Vec::new(),
                    traceability: Traceability::default(),
                    verification_method: VerificationMethod::Test,
                    status: RequirementStatus::Proposed,
                    metadata: StringMap::new(),
                };
                proof {
                    assert(req@ =~~= requirement_at(i as nat, pieces[i as int], stakeholder@));
                }
                requirements.push(req);
            }
            proof {
                assert(requirements.deep_view() =~~= extracted_from(
                    pieces.take(i + 1),
                    stakeholder@,
                ));
            }
            i += 1;
        }
        proof {
            assert(pieces.take(n as int) =~= pieces);
        }
        Ok(requirements)
    }

    /// Appends the charter issues for a requirement, in their fixed order:
    /// automatic decisions without a human, unminimised data collection,
    /// and security requirements without acceptance criteria.
    fn validate_against_charter(&self, requirement: &Requirement, issues: &mut Vec<String>) -> (r:
        Result<(), AgentError>)
        ensures
            r == Ok::<(), AgentError>(()),
            final(issues).deep_view() == old(issues).deep_view() + charter_issues(requirement@),
    {
        let ghost base = issues.deep_view();
        let ghost seg_auto: Seq<Seq<char>> = if charter_auto_issue(requirement@) {
            seq!["憲章違反: 自動判断には人間の承認が必要です"@]
        } else {
            Seq::<Seq<char>>::empty()
        };
        let ghost seg_data: Seq<Seq<char>> = if charter_data_issue(requirement@) {
            seq!["憲章推奨: 必要最小限のデータ収集を検討してください"@]
        } else {
            Seq::<Seq<char>>::empty()
        };
        let desc_lower = lowercase(requirement.description.as_str());
        let lower = desc_lower.as_str();
        if contains_sub(lower, "自動判断") && !contains_sub(lower, "人間") {
            issues.push("憲章違反: 自動判断には人間の承認が必要です".to_owned());
        }
        proof {
            assert(issues.deep_view() =~~= base + seg_auto);
        }
        if contains_sub(lower, "すべてのデータ") || contains_sub(lower, "全データ") {
            issues.push("憲章推奨: 必要最小限のデータ収集を検討してください".to_owned());
        }
        proof {
            assert(issues.deep_view() =~~= base + seg_auto + seg_data);
        }
        let security = match requirement.req_type {
            RequirementType::NonFunctional { category: NonFunctionalCategory::Security } => true,
            _ => false,
        };
        if security && requirement.acceptance_criteria.is_empty() {
            issues.push("セキュリティ要求には明確な受入基準が必要です".to_owned());
        }
        proof {
            assert(issues.deep_view() =~~= base + charter_issues(requirement@));
        }
        Ok(())
    }

    /// The recommendations for a requirement, exactly as
    /// `recommendations_spec` describes.
    fn generate_recommendations(&self, requirement: &Requirement) -> (r: Vec<String>)
        ensures
            r.deep_view() == recommendations_spec(requirement@),
    {
        let ghost seg_criteria: Seq<Seq<char>> = if requirement@.acceptance_criteria.len() == 0 {
            seq!["Given-When-Then形式の受入基準を追加してください"@]
        } else {
            Seq::<Seq<char>>::empty()
        };
        let ghost seg_parent: Seq<Seq<char>> = if requirement@.traceability.parent_requirements.len()
            == 0 && requirement@.req_type != RequirementType::Business {
            seq!["上位要求とのトレーサビリティを確立してください"@]
        } else {
            Seq::<Seq<char>>::empty()
        };
        let mut recommendations: Vec<String> = Vec::new();
        if requirement.acceptance_criteria.is_empty() {
            recommendations.push("Given-When-Then形式の受入基準を追加してください".to_owned());
        }
        proof {
            assert(recommendations.deep_view() =~~= seg_criteria);
        }
        let is_business = match requirement.req_type {
            RequirementType::Business => true,
            _ => false,
        };
        if requirement.traceability.parent_requirements.is_empty() && !is_business {
            recommendations.push("上位要求とのトレーサビリティを確立してください".to_owned());
        }
        proof {
            assert(recommendations.deep_view() =~~= seg_criteria + seg_parent);
        }
        if requirement.stakeholders.is_empty() {
            recommendations.push("ステークホルダーを明記してください".to_owned());
        }
        proof {
            assert(recommendations.deep_view() =~~= recommendations_spec(requirement@));
        }
        recommendations
    }
}

} // verus!
