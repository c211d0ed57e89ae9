use seize_core::world::{Decision, Learning, PrincipleCategory, StringMap, World};

#[test]
fn a_fresh_world_has_version_zero_and_the_charter_principles() {
    let world = World::new();
    assert_eq!(world.version, 0);
    assert!(world.context.history.is_empty());
    assert_eq!(world.context.working_directory, ".");
    assert!(world.knowledge.learnings.is_empty());
    assert!(world.knowledge.decisions.is_empty());

    let principles = &world.knowledge.principles;
    assert_eq!(principles.len(), 4);
    assert_eq!(principles[0].name, "人間は判断する");
    assert_eq!(principles[0].category, PrincipleCategory::Human);
    assert_eq!(principles[1].name, "意図を持って問いを立てる");
    assert_eq!(principles[2].name, "公正と透明性");
    assert_eq!(principles[2].category, PrincipleCategory::Organization);
    assert_eq!(principles[3].name, "目的の明確化");
    assert_eq!(principles[3].category, PrincipleCategory::AIUtilization);
}

#[test]
fn advance_increments_the_version() {
    let mut world = World::new();
    world.advance();
    world.advance();
    assert_eq!(world.version, 2);
}

#[test]
fn recording_appends_to_the_logs() {
    let mut world = World::new();
    world.record_learning(Learning {
        timestamp: "t0".to_string(),
        content: "c0".to_string(),
        source: "s0".to_string(),
        confidence: 500,
    });
    world.record_decision(Decision {
        timestamp: "t1".to_string(),
        purpose: "p1".to_string(),
        input: "i1".to_string(),
        options: vec!["o1".to_string()],
        rationale: "r1".to_string(),
        approver: "a1".to_string(),
        impact_scope: "s1".to_string(),
        alternatives: vec![],
        revocation_conditions: vec![],
    });
    assert_eq!(world.knowledge.learnings.len(), 1);
    assert_eq!(world.knowledge.learnings[0].content, "c0");
    assert_eq!(world.knowledge.decisions.len(), 1);
    assert_eq!(world.knowledge.decisions[0].purpose, "p1");
}

#[test]
fn snapshot_copies_the_whole_state() {
    let mut world = World::new();
    world.context.history.push("entry".to_string());
    world.advance();
    let copy = world.snapshot();
    assert_eq!(copy.version, 1);
    assert_eq!(copy.context.history, vec!["entry".to_string()]);
    assert_eq!(copy.knowledge.principles.len(), 4);
}

#[test]
fn string_map_lookup_follows_the_latest_binding() {
    let mut map = StringMap::new();
    assert!(map.get("k").is_none());
    map.insert("k".to_string(), "v1".to_string());
    assert_eq!(map.get("k").unwrap(), "v1");
    map.insert("k".to_string(), "v2".to_string());
    assert_eq!(map.get("k").unwrap(), "v2");
    map.insert("other".to_string(), "w".to_string());
    assert_eq!(map.get("other").unwrap(), "w");
    assert_eq!(map.get("k").unwrap(), "v2");
    assert!(map.get("missing").is_none());
}
