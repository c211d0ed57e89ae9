//! The command stack: decomposing a goal into an ordered execution plan.
//! Three stages always run in order: structuring picks a fixed task
//! template per goal category, prompt generation renders one fixed prompt
//! per task type, and strategy selection follows the goal's priority.

use vstd::prelude::*;

use crate::intent::{Goal, GoalCategory, GoalView, Priority};
use crate::text::{dec_str, push_dec};
use crate::world::duplicate_strings;
use crate::AgentError;

verus! {

/// The kind of work a single task performs.
#[derive(Clone, Copy, Debug, PartialEq, Eq, Structural)]
pub enum TaskType {
    /// Reading a file.
    FileRead,
    /// Writing a file.
    FileWrite,
    /// Producing code.
    CodeGeneration,
    /// Checking or testing.
    Validation,
    /// Analysing material.
    Analysis,
    /// Recording a decision.
    Decision,
}

/// Where a task stands. The planner creates every task `Pending`; the
/// transformer reads tasks without mutating them, so the other states are
/// reserved for extensions.
#[derive(Clone, Copy, Debug, PartialEq, Eq, Structural)]
pub enum TaskStatus {
    Pending,
    InProgress,
    Completed,
    Failed,
}

/// How a plan's tasks are meant to be scheduled. The current policy only
/// produces `Sequential` and `Adaptive`; `Parallel` is a reachable value
/// reserved for extensions.
#[derive(Clone, Copy, Debug, PartialEq, Eq, Structural)]
pub enum ExecutionStrategy {
    Sequential,
    Parallel,
    Adaptive,
}

/// One step of a plan: an id unique within the plan, dependencies naming
/// only ids of earlier tasks, and a prompt rendered from type and
/// description.
#[derive(Debug, Clone)]
pub struct Task {
    pub id: String,
    pub description: String,
    pub task_type: TaskType,
    pub dependencies: Vec<String>,
    pub prompt: String,
    pub status: TaskStatus,
}

/// A `Task`, as a mathematical value.
#[verifier::ext_equal]
pub ghost struct TaskView {
    pub id: Seq<char>,
    pub description: Seq<char>,
    pub task_type: TaskType,
    pub dependencies: Seq<Seq<char>>,
    pub prompt: Seq<char>,
    pub status: TaskStatus,
}

impl View for Task {
    type V = TaskView;

    open spec fn view(&self) -> TaskView {
        TaskView {
            id: self.id@,
            description: self.description@,
            task_type: self.task_type,
            dependencies: self.dependencies.deep_view(),
            prompt: self.prompt@,
            status: self.status,
        }
    }
}

impl DeepView for Task {
    type V = TaskView;

    open spec fn deep_view(&self) -> TaskView {
        self.view()
    }
}

/// An ordered plan for one iteration: the goal it serves, its tasks, and
/// the chosen strategy.
#[derive(Debug, Clone)]
pub struct ExecutionPlan {
    pub goal: Goal,
    pub tasks: Vec<Task>,
    pub strategy: ExecutionStrategy,
}

/// An `ExecutionPlan`, as a mathematical value.
#[verifier::ext_equal]
pub ghost struct PlanView {
    pub goal: GoalView,
    pub tasks: Seq<TaskView>,
    pub strategy: ExecutionStrategy,
}

impl View for ExecutionPlan {
    type V = PlanView;

    open spec fn view(&self) -> PlanView {
        PlanView { goal: self.goal@, tasks: self.tasks.deep_view(), strategy: self.strategy }
    }
}

// ---------------------------------------------------------------------------
// The decomposition rules
// ---------------------------------------------------------------------------
/// The id of the task at position `i`: `task_0`, `task_1`, and so on.
pub open spec fn task_id(i: nat) -> Seq<char> {
    "task_"@ + dec_str(i)
}

/// A freshly structured task: prompt still empty, status `Pending`.
pub open spec fn pending_task(
    i: nat,
    description: Seq<char>,
    task_type: TaskType,
    dependencies: Seq<Seq<char>>,
) -> TaskView {
    TaskView {
        id: task_id(i),
        description,
        task_type,
        dependencies,
        prompt: Seq::empty(),
        status: TaskStatus::Pending,
    }
}

/// The fixed task template for a goal: understanding reads then analyses;
/// code generation reads, generates, then validates; decision support
/// reads, analyses, then records a decision; any other category gets a
/// single analysis task echoing the goal description.
pub open spec fn structure_for(g: GoalView) -> Seq<TaskView> {
    match g.category {
        GoalCategory::Understanding => seq![
            pending_task(0, "情報収集"@, TaskType::FileRead, Seq::empty()),
            pending_task(1, "分析・理解"@, TaskType::Analysis, seq![task_id(0)]),
        ],
        GoalCategory::CodeGeneration => seq![
            pending_task(0, "既存コードの読み込み"@, TaskType::FileRead, Seq::empty()),
            pending_task(1, "コード生成"@, TaskType::CodeGeneration, seq![task_id(0)]),
            pending_task(2, "検証"@, TaskType::Validation, seq![task_id(1)]),
        ],
        GoalCategory::DecisionSupport => seq![
            pending_task(0, "情報収集"@, TaskType::FileRead, Seq::empty()),
            pending_task(1, "選択肢の分析"@, TaskType::Analysis, seq![task_id(0)]),
            pending_task(2, "意思決定記録の作成"@, TaskType::Decision, seq![task_id(1)]),
        ],
        _ => seq![pending_task(0, g.description, TaskType::Analysis, Seq::empty())],
    }
}

/// The prompt rendered for a task: one fixed template per task type,
/// followed by the task's description.
pub open spec fn prompt_for(task_type: TaskType, description: Seq<char>) -> Seq<char> {
    match task_type {
        TaskType::FileRead => "以下のファイルを読み込んで分析してください:\n"@ + description,
        TaskType::FileWrite => "以下の内容でファイルを作成してください:\n"@ + description,
        TaskType::CodeGeneration => "以下の要件に基づいてコードを生成してください:\n"@ + description,
        TaskType::Validation => "以下の内容を検証してください:\n"@ + description,
        TaskType::Analysis => "以下について分析してください:\n"@ + description,
        TaskType::Decision => "以下の意思決定を記録してください（目的・入力・選択肢・根拠を含む）:\n"@ + description,
    }
}

/// A task with its prompt filled in.
pub open spec fn with_prompt(t: TaskView) -> TaskView {
    TaskView { prompt: prompt_for(t.task_type, t.description), ..t }
}

/// The template for a goal with every prompt filled in.
pub open spec fn planned_tasks(g: GoalView) -> Seq<TaskView> {
    structure_for(g).map_values(|t: TaskView| with_prompt(t))
}

/// The strategy for a priority: high or critical goals run adaptively,
/// everything else sequentially.
pub open spec fn strategy_for(p: Priority) -> ExecutionStrategy {
    if p == Priority::High || p == Priority::Critical {
        ExecutionStrategy::Adaptive
    } else {
        ExecutionStrategy::Sequential
    }
}

/// The plan a goal decomposes into.
pub open spec fn decompose_spec(g: GoalView) -> PlanView {
    PlanView { goal: g, tasks: planned_tasks(g), strategy: strategy_for(g.priority) }
}

// ---------------------------------------------------------------------------
// Plan well-formedness
// ---------------------------------------------------------------------------
/// The dependency at position `d` of task `k` names the id of a strictly
/// earlier task of the plan.
pub open spec fn dep_points_back(p: PlanView, k: int, d: int) -> bool {
    exists|m: int| 0 <= m < k && (#[trigger] p.tasks[m]).id == p.tasks[k].dependencies[d]
}

/// A well-formed plan: at least one task, no two tasks share an id, and
/// every dependency names the id of a strictly earlier task, so there are
/// no forward or cyclic references.
pub open spec fn plan_wf(p: PlanView) -> bool {
    &&& p.tasks.len() > 0
    &&& forall|i: int, j: int|
        0 <= i < j < p.tasks.len() ==> (#[trigger] p.tasks[i]).id != (#[trigger] p.tasks[j]).id
    &&& forall|k: int, d: int|
        0 <= k < p.tasks.len() && 0 <= d < p.tasks[k].dependencies.len() ==> #[trigger] dep_points_back(
            p,
            k,
            d,
        )
}

proof fn lemma_task_ids_distinct()
    ensures
        task_id(0) != task_id(1),
        task_id(0) != task_id(2),
        task_id(1) != task_id(2),
{
    reveal_strlit("task_");
    assert(task_id(0)[5] == '0');
    assert(task_id(1)[5] == '1');
    assert(task_id(2)[5] == '2');
}

/// Every goal decomposes into a well-formed plan: the task list is never
/// empty, task ids are unique, and dependencies only point backwards.
pub proof fn lemma_plan_well_formed(g: GoalView)
    ensures
        plan_wf(decompose_spec(g)),
{
    lemma_task_ids_distinct();
    let p = decompose_spec(g);
    let ts = structure_for(g);
    assert(forall|k: int| 0 <= k < ts.len() ==> #[trigger] p.tasks[k] == with_prompt(ts[k]));
    assert forall|k: int, d: int|
        0 <= k < p.tasks.len() && 0 <= d < p.tasks[k].dependencies.len() implies #[trigger] dep_points_back(
        p,
        k,
        d,
    ) by {
        if k == 1 {
            assert(p.tasks[1].dependencies == seq![task_id(0)]);
            assert(0 <= 0 < k && p.tasks[0].id == p.tasks[k].dependencies[d]);
        }
        if k == 2 {
            assert(p.tasks[2].dependencies == seq![task_id(1)]);
            assert(0 <= 1 < k && p.tasks[1].id == p.tasks[k].dependencies[d]);
        }
    }
}

// ---------------------------------------------------------------------------
// The planner
// ---------------------------------------------------------------------------
/// Decomposes goals into execution plans.
pub struct CommandStack;

/// The id of the task at position `i`, as an owned string.
fn task_id_string(i: u64) -> (r: String)
    ensures
        r@ == task_id(i as nat),
{
    let mut r = "task_".to_owned();
    push_dec(&mut r, i);
    r
}

/// The prompt for a task of type `task_type` with the given description.
fn prompt_string(task_type: TaskType, description: &str) -> (r: String)
    ensures
        r@ == prompt_for(task_type, description@),
{
    let mut r = match task_type {
        TaskType::FileRead => "以下のファイルを読み込んで分析してください:\n".to_owned(),
        TaskType::FileWrite => "以下の内容でファイルを作成してください:\n".to_owned(),
        TaskType::CodeGeneration => "以下の要件に基づいてコードを生成してください:\n".to_owned(),
        TaskType::Validation => "以下の内容を検証してください:\n".to_owned(),
        TaskType::Analysis => "以下について分析してください:\n".to_owned(),
        TaskType::Decision => "以下の意思決定を記録してください（目的・入力・選択肢・根拠を含む）:\n".to_owned(),
    };
    r.append(description);
    r
}

impl CommandStack {
    /// A planner.
    pub fn new() -> Self {
        CommandStack
    }

    /// Decomposes `goal` into a plan, exactly as `decompose_spec`
    /// describes: the category's fixed task template, one rendered prompt
    /// per task, and the priority's strategy. Decomposition never fails.
    pub fn decompose(&self, goal: Goal) -> (r: Result<ExecutionPlan, AgentError>)
        ensures
            r matches Ok(p) && p@ == decompose_spec(goal@),
    {
        let ghost g = goal@;
        let task_tree = match self.structure_goal(&goal) {
            Ok(t) => t,
            Err(e) => {
                return Err(e);
            },
        };
        let prompted_tasks = match self.generate_prompts(task_tree) {
            Ok(t) => t,
            Err(e) => {
                return Err(e);
            },
        };
        let strategy = self.determine_strategy(&goal);
        Ok(ExecutionPlan { goal, tasks: prompted_tasks, strategy })
    }

    /// Structures a goal into its category's fixed task template; prompts
    /// stay empty for the next stage. This stage never fails.
    fn structure_goal(&self, goal: &Goal) -> (r: Result<Vec<Task>, AgentError>)
        ensures
            r matches Ok(ts) && ts.deep_view() == structure_for(goal@),
    {
        let mut tasks: Vec<Task> = Vec::new();
        match goal.category {
            GoalCategory::Understanding => {
                tasks.push(
                    Task {
                        id: task_id_string(0),
                        description: "情報収集".to_owned(),
                        task_type: TaskType::FileRead,
                        dependencies: Vec::new(),
                        prompt: String::new(),
                        status: TaskStatus::Pending,
                    },
                );
                let mut deps1: Vec<String> = Vec::new();
                deps1.push(task_id_string(0));
                tasks.push(
                    Task {
                        id: task_id_string(1),
                        description: "分析・理解".to_owned(),
                        task_type: TaskType::Analysis,
                        dependencies: deps1,
                        prompt: String::new(),
                        status: TaskStatus::Pending,
                    },
                );
            },
            GoalCategory::CodeGeneration => {
                tasks.push(
                    Task {
                        id: task_id_string(0),
                        description: "既存コードの読み込み".to_owned(),
                        task_type: TaskType::FileRead,
                        dependencies: Vec::new(),
                        prompt: String::new(),
                        status: TaskStatus::Pending,
                    },
                );
                let mut deps1: Vec<String> = Vec::new();
                deps1.push(task_id_string(0));
                tasks.push(
                    Task {
                        id: task_id_string(1),
                        description: "コード生成".to_owned(),
                        task_type: TaskType::CodeGeneration,
                        dependencies: deps1,
                        prompt: String::new(),
                        status: TaskStatus::Pending,
                    },
                );
                let mut deps2: Vec<String> = Vec::new();
                deps2.push(task_id_string(1));
                tasks.push(
                    Task {
                        id: task_id_string(2),
                        description: "検証".to_owned(),
                        task_type: TaskType::Validation,
                        dependencies: deps2,
                        prompt: String::new(),
                        status: TaskStatus::Pending,
                    },
                );
            },
            GoalCategory::DecisionSupport => {
                tasks.push(
                    Task {
                        id: task_id_string(0),
                        description: "情報収集".to_owned(),
                        task_type: TaskType::FileRead,
                        dependencies: Vec::new(),
                        prompt: String::new(),
                        status: TaskStatus::Pending,
                    },
                );
                let mut deps1: Vec<String> = Vec::new();
                deps1.push(task_id_string(0));
                tasks.push(
                    Task {
                        id: task_id_string(1),
                        description: "選択肢の分析".to_owned(),
                        task_type: TaskType::Analysis,
                        dependencies: deps1,
                        prompt: String::new(),
                        status: TaskStatus::Pending,
                    },
                );
                let mut deps2: Vec<String> = Vec::new();
                deps2.push(task_id_string(1));
                tasks.push(
                    Task {
                        id: task_id_string(2),
                        description: "意思決定記録の作成".to_owned(),
                        task_type: TaskType::Decision,
                        dependencies: deps2,
                        prompt: String::new(),
                        status: TaskStatus::Pending,
                    },
                );
            },
            _ => {
                tasks.push(
                    Task {
                        id: task_id_string(0),
                        description: goal.description.clone(),
                        task_type: TaskType::Analysis,
                        dependencies: Vec::new(),
                        prompt: String::new(),
                        status: TaskStatus::Pending,
                    },
                );
            },
        }
        proof {
            assert(tasks.deep_view() =~~= structure_for(goal@));
        }
        Ok(tasks)
    }

    /// Renders every task's prompt from its type and description; nothing
    /// else about the tasks changes. This stage never fails.
    fn generate_prompts(&self, tasks: Vec<Task>) -> (r: Result<Vec<Task>, AgentError>)
        ensures
            r matches Ok(ts) && ts.deep_view() == tasks.deep_view().map_values(
                |t: TaskView| with_prompt(t),
            ),
    {
        let ghost target = tasks.deep_view().map_values(|t: TaskView| with_prompt(t));
        let n = tasks.len();
        let mut prompted: Vec<Task> = Vec::new();
        let mut i: usize = 0;
        proof {
            assert(prompted.deep_view() =~~= target.take(0));
        }
        while i < n
            invariant
                i <= n,
                n == tasks@.len(),
                prompted@.len() == i,
                target == tasks.deep_view().map_values(|t: TaskView| with_prompt(t)),
                prompted.deep_view() == target.take(i as int),
            decreases n - i,
        {
            let t = &tasks[i];
            let prompt = prompt_string(t.task_type, t.description.as_str());
            prompted.push(
                Task {
                    id: t.id.clone(),
                    description: t.description.clone(),
                    task_type: t.task_type,
                    dependencies: duplicate_strings(&t.dependencies),
                    prompt,
                    status: t.status,
                },
            );
            proof {
                assert(prompted.deep_view() =~~= target.take(i + 1));
            }
            i += 1;
        }
        proof {
            assert(target.take(n as int) =~~= target);
        }
        Ok(prompted)
    }

    /// The execution strategy for a goal: adaptive when its priority is at
    /// least high, sequential otherwise.
    fn determine_strategy(&self, goal: &Goal) -> (r: ExecutionStrategy)
        ensures
            r == strategy_for(goal@.priority),
    {
        match goal.priority {
            Priority::High | Priority::Critical => ExecutionStrategy::Adaptive,
            _ => ExecutionStrategy::Sequential,
        }
    }
}

impl Default for CommandStack {
    /// The same planner `CommandStack::new` gives.
    fn default() -> Self {
        CommandStack::new()
    }
}

} // verus!
