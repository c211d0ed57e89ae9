//! The world transformer: six phases applied strictly in order. The first
//! three only describe (understand, generate, allocate); the last three
//! mutate the world (execute appends history and, under the charter, one
//! decision; integrate writes one metadata entry; learn appends one
//! learning). After the sixth phase the version advances by exactly one.

use vstd::prelude::*;

use crate::command::{ExecutionPlan, ExecutionStrategy, PlanView, TaskView};
use crate::text::{dec_str, push_dec};
use crate::world::{Decision, DecisionView, Learning, LearningView, World, WorldView};
use crate::AgentError;

verus! {

/// The confidence, in thousandths, recorded on every learning.
pub const LEARNING_CONFIDENCE: u32 = 850;

/// The six phases, in their fixed order.
#[derive(Clone, Copy, Debug, PartialEq, Eq, Structural)]
pub enum TransformationPhase {
    /// Describing the current world.
    Understand,
    /// Rendering one artifact per task.
    Generate,
    /// Describing the chosen strategy.
    Allocate,
    /// Recording the tasks in the history.
    Execute,
    /// Writing the integration summary into the metadata.
    Integrate,
    /// Appending one learning.
    Learn,
}

/// What one phase reports: which phase ran, whether it succeeded, a
/// message, and its artifacts.
#[derive(Debug, Clone)]
pub struct TransformationResult {
    pub phase: TransformationPhase,
    pub success: bool,
    pub message: String,
    pub artifacts: Vec<String>,
}

/// A `TransformationResult`, as a mathematical value.
#[verifier::ext_equal]
pub ghost struct TransformationResultView {
    pub phase: TransformationPhase,
    pub success: bool,
    pub message: Seq<char>,
    pub artifacts: Seq<Seq<char>>,
}

impl View for TransformationResult {
    type V = TransformationResultView;

    open spec fn view(&self) -> TransformationResultView {
        TransformationResultView {
            phase: self.phase,
            success: self.success,
            message: self.message@,
            artifacts: self.artifacts.deep_view(),
        }
    }
}

// ---------------------------------------------------------------------------
// Timestamps
// ---------------------------------------------------------------------------
/// The wall clock the mutating phases stamp their records with.
pub struct Utc;

/// A captured instant, rendered on demand.
#[derive(Debug, Clone)]
pub struct DateTime;

impl Utc {
    /// The current instant.
    pub fn now() -> DateTime {
        DateTime
    }
}

impl DateTime {
    /// Relies on std::time::SystemTime::now, rendered through its debug
    /// form. The text depends on the clock, so nothing is stated of it.
    #[verifier::external_body]
    pub fn to_rfc3339(&self) -> String {
        format!("{:?}", std::time::SystemTime::now())
    }
}

// ---------------------------------------------------------------------------
// What each phase produces, as mathematics
// ---------------------------------------------------------------------------
/// The summary the understand phase renders.
pub open spec fn theta1_context(p: PlanView, w: WorldView) -> Seq<char> {
    "World Version: "@ + dec_str(w.version) + ", Tasks: "@ + dec_str(p.tasks.len()) + ", Knowledge: "@
        + dec_str(w.knowledge.principles.len()) + " principles"@
}

/// The artifact the generate phase renders for one task.
pub open spec fn generate_artifact(t: TaskView) -> Seq<char> {
    "Task "@ + t.id + ": "@ + t.prompt
}

/// The label the allocate phase gives a strategy.
pub open spec fn strategy_label(s: ExecutionStrategy) -> Seq<char> {
    match s {
        ExecutionStrategy::Sequential => "逐次実行"@,
        ExecutionStrategy::Parallel => "並列実行"@,
        ExecutionStrategy::Adaptive => "適応的実行"@,
    }
}

/// The history entry the execute phase appends for one task.
pub open spec fn history_entry(t: TaskView) -> Seq<char> {
    "Executed: "@ + t.id + " - "@ + t.description
}

/// The history entries the execute phase appends, in task order.
pub open spec fn executed_entries(p: PlanView) -> Seq<Seq<char>> {
    p.tasks.map_values(|t: TaskView| history_entry(t))
}

/// The integrate phase's summary of `artifacts` artifacts at version `v`.
pub open spec fn integration_line(artifacts: nat, v: nat) -> Seq<char> {
    "Integrated "@ + dec_str(artifacts) + " artifacts into World v"@ + dec_str(v)
}

/// The integration summary for a whole plan at version `v`.
pub open spec fn integration_summary(p: PlanView, v: nat) -> Seq<char> {
    integration_line(p.tasks.len(), v)
}

/// The content of the learning recorded for a plan applied at version `v`.
pub open spec fn learning_content(p: PlanView, v: nat) -> Seq<char> {
    "Goal: "@ + p.goal.description + " -> Result: "@ + integration_summary(p, v)
}

/// The decision the execute phase records for a plan, apart from its
/// timestamp, which the clock supplies.
pub open spec fn plan_decision(d: DecisionView, p: PlanView) -> bool {
    &&& d.purpose == p.goal.description
    &&& d.input == p.goal.essential_question
    &&& d.options == p.tasks.map_values(|t: TaskView| t.description)
    &&& d.rationale == "統一エージェント方程式に基づく自動実行"@
    &&& d.approver == "System"@
    &&& d.impact_scope == dec_str(p.tasks.len()) + " tasks"@
    &&& d.alternatives == Seq::<Seq<char>>::empty()
    &&& d.revocation_conditions == seq!["エラー発生時"@]
}

/// The learning recorded for a plan applied at version `v`, apart from its
/// timestamp, which the clock supplies.
pub open spec fn plan_learning(l: LearningView, p: PlanView, v: nat) -> bool {
    &&& l.content == learning_content(p, v)
    &&& l.source == "UnifiedAgentFormula"@
    &&& l.confidence == LEARNING_CONFIDENCE
}

/// How applying one plan relates the world before (`w0`) to the world
/// after (`w1`): the version advances by one; the history grows by exactly
/// one entry per task, in task order; under charter enforcement exactly one
/// decision summarising the plan is appended; exactly one learning is
/// appended; the integration summary is written under `last_integration`;
/// and nothing else changes.
pub open spec fn apply_rel(enforce: bool, p: PlanView, w0: WorldView, w1: WorldView) -> bool {
    &&& w1.version == w0.version + 1
    &&& w1.filesystem == w0.filesystem
    &&& w1.context.working_directory == w0.context.working_directory
    &&& w1.context.environment == w0.context.environment
    &&& w1.context.history == w0.context.history + executed_entries(p)
    &&& w1.knowledge.principles == w0.knowledge.principles
    &&& (enforce ==> w1.knowledge.decisions.len() == w0.knowledge.decisions.len() + 1
        && w1.knowledge.decisions.drop_last() == w0.knowledge.decisions && plan_decision(
        w1.knowledge.decisions.last(),
        p,
    ))
    &&& (!enforce ==> w1.knowledge.decisions == w0.knowledge.decisions)
    &&& w1.knowledge.learnings.len() == w0.knowledge.learnings.len() + 1
    &&& w1.knowledge.learnings.drop_last() == w0.knowledge.learnings
    &&& plan_learning(w1.knowledge.learnings.last(), p, w0.version)
    &&& w1.metadata == w0.metadata.insert("last_integration"@, integration_summary(p, w0.version))
}

// ---------------------------------------------------------------------------
// The transformer
// ---------------------------------------------------------------------------
/// Applies execution plans to worlds through the six-phase pipeline.
pub struct WorldTransformer {
    pub enforce_charter: bool,
}

impl WorldTransformer {
    /// A transformer; `enforce_charter` decides whether the execute phase
    /// records a decision.
    pub fn new(enforce_charter: bool) -> (r: Self)
        ensures
            r.enforce_charter == enforce_charter,
    {
        WorldTransformer { enforce_charter }
    }

    /// Applies `plan` to `world`: the six phases run strictly in order and
    /// the version then advances by one. The pipeline never fails; the
    /// error channel exists for forward compatibility. The whole effect on
    /// the world is pinned down by `apply_rel`.
    pub fn apply(&self, plan: ExecutionPlan, world: World) -> (r: Result<World, AgentError>)
        requires
            world.version < usize::MAX,
        ensures
            r matches Ok(w) && apply_rel(self.enforce_charter, plan@, world@, w@),
    {
        let mut world = world;
        let _understand_result = match self.theta1_understand(&plan, &world) {
            Ok(t) => t,
            Err(e) => {
                return Err(e);
            },
        };
        let _generate_result = match self.theta2_generate(&plan, &world) {
            Ok(t) => t,
            Err(e) => {
                return Err(e);
            },
        };
        let _allocate_result = match self.theta3_allocate(&plan, &world) {
            Ok(t) => t,
            Err(e) => {
                return Err(e);
            },
        };
        let execute_result = match self.theta4_execute(&plan, &mut world) {
            Ok(t) => t,
            Err(e) => {
                return Err(e);
            },
        };
        let integrate_result = match self.theta5_integrate(&plan, &mut world, &execute_result) {
            Ok(t) => t,
            Err(e) => {
                return Err(e);
            },
        };
        let _learn_result = match self.theta6_learn(&plan, &mut world, &integrate_result) {
            Ok(t) => t,
            Err(e) => {
                return Err(e);
            },
        };
        world.advance();
        Ok(world)
    }

    /// Understand: describes the current world; no mutation, never fails.
    fn theta1_understand(&self, plan: &ExecutionPlan, world: &World) -> (r: Result<
        TransformationResult,
        AgentError,
    >)
        ensures
            r matches Ok(t) && t@ == (TransformationResultView {
                phase: TransformationPhase::Understand,
                success: true,
                message: "世界状態を理解しました: "@ + theta1_context(plan@, world@),
                artifacts: seq![theta1_context(plan@, world@)],
            }),
    {
        let mut context = "World Version: ".to_owned();
        push_dec(&mut context, world.version as u64);
        context.append(", Tasks: ");
        push_dec(&mut context, plan.tasks.len() as u64);
        context.append(", Knowledge: ");
        push_dec(&mut context, world.knowledge.principles.len() as u64);
        context.append(" principles");
        proof {
            assert(context@ =~= theta1_context(plan@, world@));
        }
        let mut message = "世界状態を理解しました: ".to_owned();
        message.append(context.as_str());
        let mut artifacts: Vec<String> = Vec::new();
        artifacts.push(context);
        proof {
            assert(artifacts.deep_view() =~~= seq![theta1_context(plan@, world@)]);
        }
        Ok(
            TransformationResult {
                phase: TransformationPhase::Understand,
                success: true,
                message,
                artifacts,
            },
        )
    }

    /// Generate: renders one artifact per task; no mutation, never fails.
    fn theta2_generate(&self, plan: &ExecutionPlan, _world: &World) -> (r: Result<
        TransformationResult,
        AgentError,
    >)
        ensures
            r matches Ok(t) && t@ == (TransformationResultView {
                phase: TransformationPhase::Generate,
                success: true,
                message: dec_str(plan@.tasks.len()) + "個のタスクプロンプトを生成しました"@,
                artifacts: plan@.tasks.map_values(|tk: TaskView| generate_artifact(tk)),
            }),
    {
        let ghost target = plan@.tasks.map_values(|tk: TaskView| generate_artifact(tk));
        let n = plan.tasks.len();
        let mut artifacts: Vec<String> = Vec::new();
        let mut i: usize = 0;
        proof {
            assert(artifacts.deep_view() =~~= target.take(0));
        }
        while i < n
            invariant
                i <= n,
                n == plan.tasks@.len(),
                artifacts@.len() == i,
                target == plan@.tasks.map_values(|tk: TaskView| generate_artifact(tk)),
                artifacts.deep_view() == target.take(i as int),
            decreases n - i,
        {
            let task = &plan.tasks[i];
            let mut line = "Task ".to_owned();
            line.append(task.id.as_str());
            line.append(": ");
            line.append(task.prompt.as_str());
            artifacts.push(line);
            proof {
                assert(artifacts.deep_view() =~~= target.take(i + 1));
            }
            i += 1;
        }
        proof {
            assert(target.take(n as int) =~~= target);
        }
        let mut message = String::new();
        push_dec(&mut message, n as u64);
        message.append("個のタスクプロンプトを生成しました");
        proof {
            assert(message@ =~= dec_str(plan@.tasks.len()) + "個のタスクプロンプトを生成しました"@);
        }
        Ok(
            TransformationResult {
                phase: TransformationPhase::Generate,
                success: true,
                message,
                artifacts,
            },
        )
    }

    /// Allocate: describes the chosen strategy; no mutation, never fails.
    fn theta3_allocate(&self, plan: &ExecutionPlan, _world: &World) -> (r: Result<
        TransformationResult,
        AgentError,
    >)
        ensures
            r matches Ok(t) && t@ == (TransformationResultView {
                phase: TransformationPhase::Allocate,
                success: true,
                message: "実行戦略を決定: "@ + strategy_label(plan@.strategy),
                artifacts: seq![strategy_label(plan@.strategy)],
            }),
    {
        let strategy_desc: String = match plan.strategy {
            ExecutionStrategy::Sequential => "逐次実行".to_owned(),
            ExecutionStrategy::Parallel => "並列実行".to_owned(),
            ExecutionStrategy::Adaptive => "適応的実行".to_owned(),
        };
        let mut message = "実行戦略を決定: ".to_owned();
        message.append(strategy_desc.as_str());
        let mut artifacts: Vec<String> = Vec::new();
        artifacts.push(strategy_desc);
        proof {
            assert(artifacts.deep_view() =~~= seq![strategy_label(plan@.strategy)]);
        }
        Ok(
            TransformationResult {
                phase: TransformationPhase::Allocate,
                success: true,
                message,
                artifacts,
            },
        )
    }

    /// Execute: appends one history entry per task, in task order, and,
    /// under the charter, records exactly one decision summarising the
    /// plan. Nothing else about the world changes; never fails.
    fn theta4_execute(&self, plan: &ExecutionPlan, world: &mut World) -> (r: Result<
        TransformationResult,
        AgentError,
    >)
        ensures
            r matches Ok(t) && ({
                let w0 = old(world)@;
                let w1 = final(world)@;
                &&& t@.phase == TransformationPhase::Execute
                &&& t@.success
                &&& t@.message == dec_str(plan@.tasks.len()) + "個のタスクを実行しました"@
                &&& t@.artifacts == plan@.tasks.map_values(|tk: TaskView| tk.id)
                &&& w1.context.history == w0.context.history + executed_entries(plan@)
                &&& w1.context.working_directory == w0.context.working_directory
                &&& w1.context.environment == w0.context.environment
                &&& w1.version == w0.version
                &&& w1.filesystem == w0.filesystem
                &&& w1.metadata == w0.metadata
                &&& w1.knowledge.principles == w0.knowledge.principles
                &&& w1.knowledge.learnings == w0.knowledge.learnings
                &&& (self.enforce_charter ==> w1.knowledge.decisions.len()
                    == w0.knowledge.decisions.len() + 1 && w1.knowledge.decisions.drop_last()
                    == w0.knowledge.decisions && plan_decision(
                    w1.knowledge.decisions.last(),
                    plan@,
                ))
                &&& (!self.enforce_charter ==> w1.knowledge.decisions == w0.knowledge.decisions)
            }),
    {
        let ghost w0 = world@;
        let ghost ids = plan@.tasks.map_values(|tk: TaskView| tk.id);
        let ghost entries = executed_entries(plan@);
        let n = plan.tasks.len();
        let mut executed_tasks: Vec<String> = Vec::new();
        let mut i: usize = 0;
        proof {
            assert(executed_tasks.deep_view() =~~= ids.take(0));
            assert(world@.context.history =~= w0.context.history + entries.take(0));
        }
        while i < n
            invariant
                i <= n,
                n == plan.tasks@.len(),
                executed_tasks@.len() == i,
                ids == plan@.tasks.map_values(|tk: TaskView| tk.id),
                entries == executed_entries(plan@),
                executed_tasks.deep_view() == ids.take(i as int),
                world@.context.history == w0.context.history + entries.take(i as int),
                world@.context.working_directory == w0.context.working_directory,
                world@.context.environment == w0.context.environment,
                world@.version == w0.version,
                world@.filesystem == w0.filesystem,
                world@.metadata == w0.metadata,
                world@.knowledge == w0.knowledge,
            decreases n - i,
        {
            let task = &plan.tasks[i];
            let mut entry = "Executed: ".to_owned();
            entry.append(task.id.as_str());
            entry.append(" - ");
            entry.append(task.description.as_str());
            proof {
                assert(entry@ =~= history_entry(plan@.tasks[i as int]));
            }
            let ghost history_before = world@.context.history;
            world.context.history.push(entry);
            executed_tasks.push(task.id.clone());
            proof {
                assert(executed_tasks.deep_view() =~~= ids.take(i + 1));
                assert(world@.context.history =~~= history_before.push(entry@));
                assert(entries[i as int] == history_entry(plan@.tasks[i as int]));
                assert(entries.take(i + 1) =~= entries.take(i as int).push(entries[i as int]));
                assert(world@.context.history =~~= w0.context.history + entries.take(i + 1));
            }
            i += 1;
        }
        proof {
            assert(ids.take(n as int) =~~= ids);
            assert(entries.take(n as int) =~~= entries);
        }
        if self.enforce_charter {
            let ghost descriptions = plan@.tasks.map_values(|tk: TaskView| tk.description);
            let mut options: Vec<String> = Vec::new();
            let mut k: usize = 0;
            proof {
                assert(options.deep_view() =~~= descriptions.take(0));
            }
            while k < n
                invariant
                    k <= n,
                    n == plan.tasks@.len(),
                    options@.len() == k,
                    descriptions == plan@.tasks.map_values(|tk: TaskView| tk.description),
                    options.deep_view() == descriptions.take(k as int),
                decreases n - k,
            {
                options.push(plan.tasks[k].description.clone());
                proof {
                    assert(options.deep_view() =~~= descriptions.take(k + 1));
                }
                k += 1;
            }
            proof {
                assert(descriptions.take(n as int) =~~= descriptions);
            }
            let mut impact_scope = String::new();
            push_dec(&mut impact_scope, n as u64);
            impact_scope.append(" tasks");
            let mut revocation_conditions: Vec<String> = Vec::new();
            revocation_conditions.push("エラー発生時".to_owned());
            proof {
                assert(revocation_conditions.deep_view() =~~= seq!["エラー発生時"@]);
            }
            let decision = Decision {
                timestamp: Utc::now().to_rfc3339(),
                purpose: plan.goal.description.clone(),
                input: plan.goal.essential_question.clone(),
                options,
                rationale: "統一エージェント方程式に基づく自動実行".to_owned(),
                approver: "System".to_owned(),
                impact_scope,
                alternatives: Vec::new(),
                revocation_conditions,
            };
            proof {
                assert(decision@.alternatives =~= Seq::<Seq<char>>::empty());
            }
            world.record_decision(decision);
            proof {
                assert(world@.knowledge.decisions.drop_last() =~= old(
                    world,
                )@.knowledge.decisions);
            }
        }
        let mut message = String::new();
        push_dec(&mut message, n as u64);
        message.append("個のタスクを実行しました");
        proof {
            assert(message@ =~= dec_str(plan@.tasks.len()) + "個のタスクを実行しました"@);
        }
        Ok(
            TransformationResult {
                phase: TransformationPhase::Execute,
                success: true,
                message,
                artifacts: executed_tasks,
            },
        )
    }

    /// Integrate: writes the integration summary under the metadata key
    /// `last_integration`. Nothing else about the world changes; never
    /// fails.
    fn theta5_integrate(
        &self,
        _plan: &ExecutionPlan,
        world: &mut World,
        execute_result: &TransformationResult,
    ) -> (r: Result<TransformationResult, AgentError>)
        ensures
            r matches Ok(t) && ({
                let line = integration_line(execute_result@.artifacts.len(), old(world)@.version);
                &&& t@ == (TransformationResultView {
                    phase: TransformationPhase::Integrate,
                    success: true,
                    message: line,
                    artifacts: Seq::empty(),
                })
                &&& final(world)@ == (WorldView {
                    metadata: old(world)@.metadata.insert("last_integration"@, line),
                    ..old(world)@
                })
            }),
    {
        let mut integration_summary = "Integrated ".to_owned();
        push_dec(&mut integration_summary, execute_result.artifacts.len() as u64);
        integration_summary.append(" artifacts into World v");
        push_dec(&mut integration_summary, world.version as u64);
        proof {
            assert(integration_summary@ =~= integration_line(
                execute_result@.artifacts.len(),
                world@.version,
            ));
        }
        let message = integration_summary.clone();
        world.metadata.insert("last_integration".to_owned(), integration_summary);
        let artifacts: Vec<String> = Vec::new();
        proof {
            assert(artifacts.deep_view() =~~= Seq::<Seq<char>>::empty());
        }
        Ok(
            TransformationResult {
                phase: TransformationPhase::Integrate,
                success: true,
                message,
                artifacts,
            },
        )
    }

    /// Learn: appends exactly one learning, whose content records the goal
    /// and the integration message, with fixed source and confidence.
    /// Nothing else about the world changes; never fails.
    fn theta6_learn(
        &self,
        plan: &ExecutionPlan,
        world: &mut World,
        integrate_result: &TransformationResult,
    ) -> (r: Result<TransformationResult, AgentError>)
        ensures
            r matches Ok(t) && ({
                let w0 = old(world)@;
                let w1 = final(world)@;
                &&& t@.phase == TransformationPhase::Learn
                &&& t@.success
                &&& t@.message == "学習を記録しました (Total: "@ + dec_str(w1.knowledge.learnings.len())
                    + " learnings)"@
                &&& t@.artifacts == Seq::<Seq<char>>::empty()
                &&& w1.knowledge.learnings.len() == w0.knowledge.learnings.len() + 1
                &&& w1.knowledge.learnings.drop_last() == w0.knowledge.learnings
                &&& (w1.knowledge.learnings.last()).content == "Goal: "@ + plan@.goal.description
                    + " -> Result: "@ + integrate_result@.message
                &&& (w1.knowledge.learnings.last()).source == "UnifiedAgentFormula"@
                &&& (w1.knowledge.learnings.last()).confidence == LEARNING_CONFIDENCE
                &&& w1.version == w0.version
                &&& w1.filesystem == w0.filesystem
                &&& w1.context == w0.context
                &&& w1.metadata == w0.metadata
                &&& w1.knowledge.principles == w0.knowledge.principles
                &&& w1.knowledge.decisions == w0.knowledge.decisions
            }),
    {
        let mut content = "Goal: ".to_owned();
        content.append(plan.goal.description.as_str());
        content.append(" -> Result: ");
        content.append(integrate_result.message.as_str());
        let learning = Learning {
            timestamp: Utc::now().to_rfc3339(),
            content,
            source: "UnifiedAgentFormula".to_owned(),
            confidence: LEARNING_CONFIDENCE,
        };
        world.record_learning(learning);
        proof {
            assert(world@.knowledge.learnings.drop_last() =~= old(world)@.knowledge.learnings);
        }
        let mut message = "学習を記録しました (Total: ".to_owned();
        push_dec(&mut message, world.knowledge.learnings.len() as u64);
        message.append(" learnings)");
        let artifacts: Vec<String> = Vec::new();
        proof {
            assert(artifacts.deep_view() =~~= Seq::<Seq<char>>::empty());
            assert(message@ =~= "学習を記録しました (Total: "@ + dec_str(
                world@.knowledge.learnings.len(),
            ) + " learnings)"@);
        }
        Ok(
            TransformationResult {
                phase: TransformationPhase::Learn,
                success: true,
                message,
                artifacts,
            },
        )
    }
}

impl Default for WorldTransformer {
    /// A transformer with charter enforcement on.
    fn default() -> (r: Self)
        ensures
            r.enforce_charter,
    {
        WorldTransformer::new(true)
    }
}

} // verus!
