use seize_core::command::CommandStack;
use seize_core::intent::IntentResolver;
use seize_core::transformation::WorldTransformer;
use seize_core::world::World;

fn understanding_plan() -> seize_core::command::ExecutionPlan {
    let resolver = IntentResolver::new(true);
    let goal = resolver.resolve("ファイルを読み込んで分析してください").unwrap();
    CommandStack::new().decompose(goal).unwrap()
}

#[test]
fn apply_advances_the_version_once() {
    let transformer = WorldTransformer::new(true);
    let world = transformer.apply(understanding_plan(), World::new()).unwrap();
    assert_eq!(world.version, 1);
    let world = transformer.apply(understanding_plan(), world).unwrap();
    assert_eq!(world.version, 2);
}

#[test]
fn execute_appends_one_history_entry_per_task_in_order() {
    let transformer = WorldTransformer::new(true);
    let world = transformer.apply(understanding_plan(), World::new()).unwrap();
    assert_eq!(
        world.context.history,
        vec![
            "Executed: task_0 - 情報収集".to_string(),
            "Executed: task_1 - 分析・理解".to_string()
        ]
    );
}

#[test]
fn charter_enforcement_records_exactly_one_decision() {
    let enforcing = WorldTransformer::new(true);
    let world = enforcing.apply(understanding_plan(), World::new()).unwrap();
    assert_eq!(world.knowledge.decisions.len(), 1);
    let decision = &world.knowledge.decisions[0];
    assert_eq!(decision.purpose, "ファイルを読み込んで分析してください");
    assert_eq!(decision.input, "どのような情報を得て、何を実現したいのか?");
    assert_eq!(decision.options, vec!["情報収集".to_string(), "分析・理解".to_string()]);
    assert_eq!(decision.rationale, "統一エージェント方程式に基づく自動実行");
    assert_eq!(decision.approver, "System");
    assert_eq!(decision.impact_scope, "2 tasks");
    assert!(decision.alternatives.is_empty());
    assert_eq!(decision.revocation_conditions, vec!["エラー発生時".to_string()]);

    let lax = WorldTransformer::new(false);
    let world = lax.apply(understanding_plan(), World::new()).unwrap();
    assert!(world.knowledge.decisions.is_empty());
}

#[test]
fn integrate_writes_the_integration_summary() {
    let transformer = WorldTransformer::new(true);
    let world = transformer.apply(understanding_plan(), World::new()).unwrap();
    let summary = world.metadata.get("last_integration").unwrap();
    assert_eq!(summary, "Integrated 2 artifacts into World v0");
}

#[test]
fn a_second_application_overwrites_the_integration_summary() {
    let transformer = WorldTransformer::new(true);
    let world = transformer.apply(understanding_plan(), World::new()).unwrap();
    let world = transformer.apply(understanding_plan(), world).unwrap();
    let summary = world.metadata.get("last_integration").unwrap();
    assert_eq!(summary, "Integrated 2 artifacts into World v1");
}

#[test]
fn learn_appends_exactly_one_learning_with_fixed_fields() {
    let transformer = WorldTransformer::new(true);
    let world = transformer.apply(understanding_plan(), World::new()).unwrap();
    assert_eq!(world.knowledge.learnings.len(), 1);
    let learning = &world.knowledge.learnings[0];
    assert_eq!(
        learning.content,
        "Goal: ファイルを読み込んで分析してください -> Result: Integrated 2 artifacts into World v0"
    );
    assert_eq!(learning.source, "UnifiedAgentFormula");
    assert_eq!(learning.confidence, 850);
}

#[test]
fn principles_never_change_across_applications() {
    let transformer = WorldTransformer::new(true);
    let mut world = World::new();
    for _ in 0..3 {
        world = transformer.apply(understanding_plan(), world).unwrap();
    }
    assert_eq!(world.knowledge.principles.len(), 4);
    assert_eq!(world.knowledge.principles[0].name, "人間は判断する");
    assert_eq!(world.context.history.len(), 6);
    assert_eq!(world.knowledge.learnings.len(), 3);
    assert_eq!(world.knowledge.decisions.len(), 3);
}
