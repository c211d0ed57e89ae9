//! Intent resolution: turning a free-text instruction into a structured
//! goal. Classification is a pure rule match over a closed vocabulary of
//! marker substrings, checked in a fixed priority order, so the same input
//! always resolves to the same goal.

use vstd::prelude::*;

use crate::text::{contains_sub, spec_contains, spec_trim, trim_str};
use crate::AgentError;

verus! {

/// What kind of work a goal asks for.
#[derive(Clone, Copy, Debug, PartialEq, Eq, Structural)]
pub enum GoalCategory {
    /// Gathering and understanding information.
    Understanding,
    /// Producing or changing code.
    CodeGeneration,
    /// Designing a system.
    SystemDesign,
    /// Running an organisation.
    OrganizationalManagement,
    /// Supporting a decision.
    DecisionSupport,
}

/// How urgent a goal is, from `Low` up to `Critical`.
#[derive(Clone, Copy, Debug, PartialEq, Eq, PartialOrd, Ord, Structural)]
pub enum Priority {
    Low,
    Medium,
    High,
    Critical,
}

/// A resolved goal: the trimmed instruction, a step-back question that
/// reframes it, and the derived category, priority and constraints.
#[derive(Debug, Clone)]
pub struct Goal {
    pub description: String,
    pub essential_question: String,
    pub category: GoalCategory,
    pub priority: Priority,
    pub constraints: Vec<String>,
}

/// A `Goal`, as a mathematical value.
#[verifier::ext_equal]
pub ghost struct GoalView {
    pub description: Seq<char>,
    pub essential_question: Seq<char>,
    pub category: GoalCategory,
    pub priority: Priority,
    pub constraints: Seq<Seq<char>>,
}

impl View for Goal {
    type V = GoalView;

    open spec fn view(&self) -> GoalView {
        GoalView {
            description: self.description@,
            essential_question: self.essential_question@,
            category: self.category,
            priority: self.priority,
            constraints: self.constraints.deep_view(),
        }
    }
}

// ---------------------------------------------------------------------------
// The classification rules
// ---------------------------------------------------------------------------
/// The step-back question for a trimmed instruction `d`: the first matching
/// marker group (read/retrieve, modify/change, create/generate) picks its
/// fixed question; otherwise the generic question is asked.
pub open spec fn question_for(d: Seq<char>) -> Seq<char> {
    if spec_contains(d, "読み込"@) || spec_contains(d, "取得"@) {
        "どのような情報を得て、何を実現したいのか?"@
    } else if spec_contains(d, "修正"@) || spec_contains(d, "変更"@) {
        "この変更によって何を達成したいのか?"@
    } else if spec_contains(d, "作成"@) || spec_contains(d, "生成"@) {
        "なぜこれが必要で、どのような価値を生むのか?"@
    } else {
        "この要求の本質的な目的は何か?"@
    }
}

/// The category for a trimmed instruction `d`, first matching marker wins;
/// instructions matching nothing count as `Understanding`.
pub open spec fn category_for(d: Seq<char>) -> GoalCategory {
    if spec_contains(d, "理解"@) || spec_contains(d, "調査"@) || spec_contains(d, "確認"@) {
        GoalCategory::Understanding
    } else if spec_contains(d, "コード"@) || spec_contains(d, "実装"@) || spec_contains(d, "修正"@) {
        GoalCategory::CodeGeneration
    } else if spec_contains(d, "設計"@) || spec_contains(d, "アーキテクチャ"@) {
        GoalCategory::SystemDesign
    } else if spec_contains(d, "組織"@) || spec_contains(d, "運営"@) {
        GoalCategory::OrganizationalManagement
    } else if spec_contains(d, "判断"@) || spec_contains(d, "決定"@) {
        GoalCategory::DecisionSupport
    } else {
        GoalCategory::Understanding
    }
}

/// The priority for a trimmed instruction `d`: urgency markers beat
/// importance markers beat deferral markers; otherwise `Medium`.
pub open spec fn priority_for(d: Seq<char>) -> Priority {
    if spec_contains(d, "緊急"@) || spec_contains(d, "至急"@) {
        Priority::Critical
    } else if spec_contains(d, "重要"@) || spec_contains(d, "優先"@) {
        Priority::High
    } else if spec_contains(d, "後で"@) || spec_contains(d, "余裕"@) {
        Priority::Low
    } else {
        Priority::Medium
    }
}

/// The constraints for a trimmed instruction `d`: one fixed constraint per
/// marker found (safety, explainability, record-keeping), independently, in
/// this fixed order.
pub open spec fn constraints_for(d: Seq<char>) -> Seq<Seq<char>> {
    (if spec_contains(d, "安全"@) {
        seq!["安全性を確保すること"@]
    } else {
        Seq::<Seq<char>>::empty()
    }) + (if spec_contains(d, "説明"@) {
        seq!["説明可能性を維持すること"@]
    } else {
        Seq::<Seq<char>>::empty()
    }) + (if spec_contains(d, "記録"@) {
        seq!["プロセスを記録すること"@]
    } else {
        Seq::<Seq<char>>::empty()
    })
}

/// A trimmed instruction violates the charter when it asks for automatic
/// decisions without mentioning a human.
pub open spec fn charter_violation(d: Seq<char>) -> bool {
    spec_contains(d, "自動判断"@) && !spec_contains(d, "人間"@)
}

/// A trimmed instruction deserves a data-minimisation advisory when it
/// mentions data collection without a minimality qualifier.
pub open spec fn data_collection_flag(d: Seq<char>) -> bool {
    spec_contains(d, "データ収集"@) && !spec_contains(d, "最小限"@)
}

/// The goal a trimmed instruction `d` resolves to.
pub open spec fn goal_for(d: Seq<char>) -> GoalView {
    GoalView {
        description: d,
        essential_question: question_for(d),
        category: category_for(d),
        priority: priority_for(d),
        constraints: constraints_for(d),
    }
}

/// What resolution returns for `input`: an error for an empty instruction,
/// an error for a charter violation when enforcement is on, and otherwise
/// the goal the classification rules give.
pub open spec fn resolve_spec(enforce: bool, input: Seq<char>) -> Result<GoalView, AgentError> {
    let d = spec_trim(input);
    if d.len() == 0 {
        Err(AgentError::EmptyInput)
    } else if enforce && charter_violation(d) {
        Err(AgentError::CharterViolation)
    } else {
        Ok(goal_for(d))
    }
}

// ---------------------------------------------------------------------------
// The resolver
// ---------------------------------------------------------------------------
/// Resolution is deterministic: with the input text and the charter
/// setting fixed, any two successful resolutions yield identical goals,
/// field for field. `IntentResolver::resolve` returns exactly
/// `resolve_spec` of its input, so this covers repeated calls.
pub proof fn lemma_resolve_deterministic(
    enforce: bool,
    input: Seq<char>,
    g1: GoalView,
    g2: GoalView,
)
    requires
        resolve_spec(enforce, input) == Ok::<GoalView, AgentError>(g1),
        resolve_spec(enforce, input) == Ok::<GoalView, AgentError>(g2),
    ensures
        g1 == g2,
{
}

/// Resolves instructions into goals, optionally refusing those that
/// violate the charter.
pub struct IntentResolver {
    pub enforce_charter: bool,
}

impl IntentResolver {
    /// A resolver; `enforce_charter` decides whether charter rules reject
    /// instructions.
    pub fn new(enforce_charter: bool) -> (r: Self)
        ensures
            r.enforce_charter == enforce_charter,
    {
        IntentResolver { enforce_charter }
    }

    /// Resolves `input` into a goal, exactly as `resolve_spec` describes:
    /// empty input is refused, a charter violation is refused when
    /// enforcement is on, and otherwise the goal is the pure classification
    /// of the trimmed input.
    pub fn resolve(&self, input: &str) -> (r: Result<Goal, AgentError>)
        ensures
            match r {
                Ok(g) => resolve_spec(self.enforce_charter, input@) == Ok::<GoalView, AgentError>(
                    g@,
                ),
                Err(e) => resolve_spec(self.enforce_charter, input@) == Err::<GoalView, AgentError>(
                    e,
                ),
            },
    {
        let trimmed = trim_str(input);
        if trimmed.is_empty() {
            return Err(AgentError::EmptyInput);
        }
        let description = trimmed.to_owned();
        let essential_question = self.generate_step_back_question(trimmed);
        let category = self.infer_category(trimmed);
        let priority = self.determine_priority(trimmed);
        let constraints = self.extract_constraints(trimmed);
        if self.enforce_charter {
            match self.validate_against_charter(trimmed) {
                Ok(()) => (),
                Err(e) => {
                    return Err(e);
                },
            }
        }
        Ok(Goal { description, essential_question, category, priority, constraints })
    }

    /// The step-back question for an already-trimmed instruction.
    fn generate_step_back_question(&self, input: &str) -> (r: String)
        ensures
            r@ == question_for(input@),
    {
        if contains_sub(input, "読み込") || contains_sub(input, "取得") {
            "どのような情報を得て、何を実現したいのか?".to_owned()
        } else if contains_sub(input, "修正") || contains_sub(input, "変更") {
            "この変更によって何を達成したいのか?".to_owned()
        } else if contains_sub(input, "作成") || contains_sub(input, "生成") {
            "なぜこれが必要で、どのような価値を生むのか?".to_owned()
        } else {
            "この要求の本質的な目的は何か?".to_owned()
        }
    }

    /// The category for an already-trimmed instruction.
    fn infer_category(&self, input: &str) -> (r: GoalCategory)
        ensures
            r == category_for(input@),
    {
        if contains_sub(input, "理解") || contains_sub(input, "調査") || contains_sub(input, "確認") {
            GoalCategory::Understanding
        } else if contains_sub(input, "コード") || contains_sub(input, "実装") || contains_sub(
            input,
            "修正",
        ) {
            GoalCategory::CodeGeneration
        } else if contains_sub(input, "設計") || contains_sub(input, "アーキテクチャ") {
            GoalCategory::SystemDesign
        } else if contains_sub(input, "組織") || contains_sub(input, "運営") {
            GoalCategory::OrganizationalManagement
        } else if contains_sub(input, "判断") || contains_sub(input, "決定") {
            GoalCategory::DecisionSupport
        } else {
            GoalCategory::Understanding
        }
    }

    /// The priority for an already-trimmed instruction.
    fn determine_priority(&self, input: &str) -> (r: Priority)
        ensures
            r == priority_for(input@),
    {
        if contains_sub(input, "緊急") || contains_sub(input, "至急") {
            Priority::Critical
        } else if contains_sub(input, "重要") || contains_sub(input, "優先") {
            Priority::High
        } else if contains_sub(input, "後で") || contains_sub(input, "余裕") {
            Priority::Low
        } else {
            Priority::Medium
        }
    }

    /// The constraints for an already-trimmed instruction.
    fn extract_constraints(&self, input: &str) -> (r: Vec<String>)
        ensures
            r.deep_view() == constraints_for(input@),
    {
        let ghost seg1: Seq<Seq<char>> = if spec_contains(input@, "安全"@) {
            seq!["安全性を確保すること"@]
        } else {
            Seq::<Seq<char>>::empty()
        };
        let ghost seg2: Seq<Seq<char>> = if spec_contains(input@, "説明"@) {
            seq!["説明可能性を維持すること"@]
        } else {
            Seq::<Seq<char>>::empty()
        };
        let ghost seg3: Seq<Seq<char>> = if spec_contains(input@, "記録"@) {
            seq!["プロセスを記録すること"@]
        } else {
            Seq::<Seq<char>>::empty()
        };
        let mut constraints: Vec<String> = Vec::new();
        if contains_sub(input, "安全") {
            constraints.push("安全性を確保すること".to_owned());
        }
        proof {
            assert(constraints.deep_view() =~~= seg1);
        }
        if contains_sub(input, "説明") {
            constraints.push("説明可能性を維持すること".to_owned());
        }
        proof {
            assert(constraints.deep_view() =~~= seg1 + seg2);
        }
        if contains_sub(input, "記録") {
            constraints.push("プロセスを記録すること".to_owned());
        }
        proof {
            assert(constraints.deep_view() =~~= seg1 + seg2 + seg3);
        }
        constraints
    }

    /// Refuses an already-trimmed instruction that violates the charter.
    fn validate_against_charter(&self, input: &str) -> (r: Result<(), AgentError>)
        ensures
            r == if charter_violation(input@) {
                Err::<(), AgentError>(AgentError::CharterViolation)
            } else {
                Ok::<(), AgentError>(())
            },
    {
        if contains_sub(input, "自動判断") && !contains_sub(input, "人間") {
            Err(AgentError::CharterViolation)
        } else {
            Ok(())
        }
    }

    /// Whether `input` deserves the non-fatal data-minimisation advisory:
    /// it mentions data collection without a minimality qualifier while
    /// charter enforcement is on. Advisories never abort a run.
    pub fn data_collection_warning(&self, input: &str) -> (r: bool)
        ensures
            r == (self.enforce_charter && data_collection_flag(spec_trim(input@))),
    {
        let trimmed = trim_str(input);
        self.enforce_charter && contains_sub(trimmed, "データ収集") && !contains_sub(trimmed, "最小限")
    }
}

impl Default for IntentResolver {
    /// A resolver with charter enforcement on.
    fn default() -> (r: Self)
        ensures
            r.enforce_charter,
    {
        IntentResolver::new(true)
    }
}

} // verus!
