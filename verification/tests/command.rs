use seize_core::command::{CommandStack, ExecutionStrategy, TaskStatus, TaskType};
use seize_core::intent::{Goal, GoalCategory, Priority};

fn goal_of(category: GoalCategory, priority: Priority) -> Goal {
    Goal {
        description: "コードを生成する".to_string(),
        essential_question: "何を実現したいのか?".to_string(),
        category,
        priority,
        constraints: vec![],
    }
}

#[test]
fn test_command_decomposition() {
    let stack = CommandStack::new();
    let goal = Goal {
        description: "コードを生成する".to_string(),
        essential_question: "何を実現したいのか?".to_string(),
        category: GoalCategory::CodeGeneration,
        priority: Priority::Medium,
        constraints: vec![],
    };

    let plan = stack.decompose(goal).unwrap();
    assert_eq!(plan.tasks.len(), 3); // Read, Generate, Validate
}

#[test]
fn code_generation_template_is_read_generate_validate() {
    let stack = CommandStack::new();
    let plan = stack.decompose(goal_of(GoalCategory::CodeGeneration, Priority::Medium)).unwrap();
    assert_eq!(plan.tasks.len(), 3);
    assert_eq!(plan.tasks[0].task_type, TaskType::FileRead);
    assert_eq!(plan.tasks[1].task_type, TaskType::CodeGeneration);
    assert_eq!(plan.tasks[2].task_type, TaskType::Validation);
    assert_eq!(plan.tasks[0].id, "task_0");
    assert_eq!(plan.tasks[1].id, "task_1");
    assert_eq!(plan.tasks[2].id, "task_2");
    assert!(plan.tasks[0].dependencies.is_empty());
    assert_eq!(plan.tasks[1].dependencies, vec!["task_0".to_string()]);
    assert_eq!(plan.tasks[2].dependencies, vec!["task_1".to_string()]);
}

#[test]
fn understanding_template_is_read_then_analyse() {
    let stack = CommandStack::new();
    let plan = stack.decompose(goal_of(GoalCategory::Understanding, Priority::Medium)).unwrap();
    assert_eq!(plan.tasks.len(), 2);
    assert_eq!(plan.tasks[0].task_type, TaskType::FileRead);
    assert_eq!(plan.tasks[1].task_type, TaskType::Analysis);
    assert_eq!(plan.tasks[1].dependencies, vec!["task_0".to_string()]);
    assert_eq!(plan.tasks[0].description, "情報収集");
    assert_eq!(plan.tasks[1].description, "分析・理解");
}

#[test]
fn decision_support_template_ends_with_a_decision() {
    let stack = CommandStack::new();
    let plan = stack.decompose(goal_of(GoalCategory::DecisionSupport, Priority::Medium)).unwrap();
    assert_eq!(plan.tasks.len(), 3);
    assert_eq!(plan.tasks[2].task_type, TaskType::Decision);
    assert_eq!(plan.tasks[2].dependencies, vec!["task_1".to_string()]);
}

#[test]
fn other_categories_get_one_analysis_task_echoing_the_goal() {
    let stack = CommandStack::new();
    let plan = stack.decompose(goal_of(GoalCategory::SystemDesign, Priority::Medium)).unwrap();
    assert_eq!(plan.tasks.len(), 1);
    assert_eq!(plan.tasks[0].task_type, TaskType::Analysis);
    assert_eq!(plan.tasks[0].description, "コードを生成する");
    assert!(plan.tasks[0].dependencies.is_empty());
}

#[test]
fn prompts_are_rendered_per_task_type() {
    let stack = CommandStack::new();
    let plan = stack.decompose(goal_of(GoalCategory::Understanding, Priority::Medium)).unwrap();
    assert_eq!(plan.tasks[0].prompt, "以下のファイルを読み込んで分析してください:\n情報収集");
    assert_eq!(plan.tasks[1].prompt, "以下について分析してください:\n分析・理解");
    for task in &plan.tasks {
        assert_eq!(task.status, TaskStatus::Pending);
    }
}

#[test]
fn strategy_follows_priority() {
    let stack = CommandStack::new();
    let medium = stack.decompose(goal_of(GoalCategory::Understanding, Priority::Medium)).unwrap();
    assert_eq!(medium.strategy, ExecutionStrategy::Sequential);
    let low = stack.decompose(goal_of(GoalCategory::Understanding, Priority::Low)).unwrap();
    assert_eq!(low.strategy, ExecutionStrategy::Sequential);
    let high = stack.decompose(goal_of(GoalCategory::Understanding, Priority::High)).unwrap();
    assert_eq!(high.strategy, ExecutionStrategy::Adaptive);
    let critical = stack.decompose(goal_of(GoalCategory::Understanding, Priority::Critical)).unwrap();
    assert_eq!(critical.strategy, ExecutionStrategy::Adaptive);
}
