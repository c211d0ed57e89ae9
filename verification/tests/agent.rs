use seize_core::agent::UnifiedAgent;
use seize_core::world::World;
use seize_core::AgentError;

#[test]
fn test_unified_agent() {
    let agent = UnifiedAgent::default();
    let world = World::new();

    let result = agent
        .run("ファイルを読み込んで分析してください", world)
        .unwrap();

    assert!(result.iterations > 0);
    assert!(result.final_world.version > 0);
}

#[test]
fn a_read_and_analyse_instruction_converges_after_one_iteration() {
    let agent = UnifiedAgent::new(10, 800);
    let result = agent.run("ファイルを読み込んで分析してください", World::new()).unwrap();

    assert_eq!(result.iterations, 1);
    assert!(result.converged);
    assert_eq!(result.initial_world.version, 0);
    assert_eq!(result.final_world.version, 1);
    assert_eq!(
        result.final_world.context.history,
        vec![
            "Executed: task_0 - 情報収集".to_string(),
            "Executed: task_1 - 分析・理解".to_string()
        ]
    );
    assert_eq!(result.final_world.knowledge.learnings.len(), 1);
    assert_eq!(result.final_world.knowledge.decisions.len(), 1);
}

#[test]
fn a_read_and_analyse_instruction_resolves_to_a_two_task_plan() {
    let resolver = seize_core::intent::IntentResolver::new(true);
    let goal = resolver.resolve("ファイルを読み込んで分析してください").unwrap();
    assert_eq!(goal.category, seize_core::intent::GoalCategory::Understanding);

    let plan = seize_core::command::CommandStack::new().decompose(goal).unwrap();
    assert_eq!(plan.tasks.len(), 2);
    assert_eq!(plan.tasks[0].task_type, seize_core::command::TaskType::FileRead);
    assert_eq!(plan.tasks[1].task_type, seize_core::command::TaskType::Analysis);
    assert_eq!(plan.tasks[1].dependencies, vec!["task_0".to_string()]);
}

#[test]
fn a_charter_violation_aborts_the_run() {
    let agent = UnifiedAgent::default();
    let err = agent.run("自動判断で全部進めてほしい", World::new()).unwrap_err();
    assert_eq!(err, AgentError::CharterViolation);
}

#[test]
fn empty_input_aborts_the_run() {
    let agent = UnifiedAgent::default();
    let err = agent.run("   ", World::new()).unwrap_err();
    assert_eq!(err, AgentError::EmptyInput);
}

#[test]
fn the_loop_never_exceeds_max_iterations() {
    // A single-task plan never satisfies the log test and scores
    // 1/3 per iteration, under a threshold of 0.8.
    let agent = UnifiedAgent::new(5, 800);
    let result = agent.run("システムを設計する", World::new()).unwrap();
    assert_eq!(result.iterations, 5);
    assert!(!result.converged);
    assert_eq!(result.final_world.version, 5);
    assert_eq!(result.final_world.context.history.len(), 5);
    assert_eq!(result.final_world.knowledge.learnings.len(), 5);
}

#[test]
fn a_low_threshold_converges_by_score() {
    // One history entry per iteration scores 1000/3000 of the scale, which
    // meets a threshold of 0.333 at the first iteration.
    let agent = UnifiedAgent::new(5, 333);
    let result = agent.run("システムを設計する", World::new()).unwrap();
    assert_eq!(result.iterations, 1);
    assert!(result.converged);
}

#[test]
fn zero_iterations_leave_the_world_untouched() {
    let agent = UnifiedAgent::new(0, 800);
    let result = agent.run("ファイルを読み込んで分析してください", World::new()).unwrap();
    assert_eq!(result.iterations, 0);
    assert!(!result.converged);
    assert_eq!(result.final_world.version, 0);
    assert!(result.final_world.context.history.is_empty());
}

#[test]
fn logs_only_grow_across_a_run() {
    let transformer = seize_core::transformation::WorldTransformer::new(true);
    let resolver = seize_core::intent::IntentResolver::new(true);
    let stack = seize_core::command::CommandStack::new();
    let goal = resolver.resolve("ファイルを読み込んで分析してください").unwrap();
    let plan = stack.decompose(goal).unwrap();
    let seeded = transformer.apply(plan, World::new()).unwrap();
    let history_before = seeded.context.history.clone();

    let agent = UnifiedAgent::new(3, 800);
    let result = agent.run("システムを設計する", seeded).unwrap();
    let history_after = &result.final_world.context.history;
    assert!(history_after.len() >= history_before.len());
    for (i, entry) in history_before.iter().enumerate() {
        assert_eq!(&history_after[i], entry);
    }
    assert!(result.final_world.knowledge.learnings.len() >= 1);
    assert!(result.final_world.knowledge.decisions.len() >= 1);
}

#[test]
fn status_renders_both_configuration_values() {
    let agent = UnifiedAgent::new(10, 800);
    assert_eq!(
        agent.status(),
        "UnifiedAgent { max_iterations: 10, convergence_threshold: 0.800 }"
    );
    let wide = UnifiedAgent::new(3, 1250);
    assert_eq!(
        wide.status(),
        "UnifiedAgent { max_iterations: 3, convergence_threshold: 1.250 }"
    );
}
