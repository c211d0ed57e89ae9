use seize_core::intent::{GoalCategory, IntentResolver, Priority};
use seize_core::AgentError;

#[test]
fn test_intent_resolution() {
    let resolver = IntentResolver::default();
    let goal = resolver.resolve("ファイルを読み込んで内容を確認したい").unwrap();

    assert_eq!(goal.category, GoalCategory::Understanding);
    assert!(!goal.essential_question.is_empty());
}

#[test]
fn resolve_trims_and_keeps_description() {
    let resolver = IntentResolver::new(true);
    let goal = resolver.resolve("  コードを修正して  ").unwrap();
    assert_eq!(goal.description, "コードを修正して");
}

#[test]
fn step_back_question_follows_marker_priority() {
    let resolver = IntentResolver::new(false);
    let read = resolver.resolve("ファイルを読み込んでほしい").unwrap();
    assert_eq!(read.essential_question, "どのような情報を得て、何を実現したいのか?");
    let modify = resolver.resolve("コードを変更してほしい").unwrap();
    assert_eq!(modify.essential_question, "この変更によって何を達成したいのか?");
    let create = resolver.resolve("ドキュメントを作成してほしい").unwrap();
    assert_eq!(create.essential_question, "なぜこれが必要で、どのような価値を生むのか?");
    let other = resolver.resolve("何かいい感じにしてほしい").unwrap();
    assert_eq!(other.essential_question, "この要求の本質的な目的は何か?");
}

#[test]
fn category_first_match_wins() {
    let resolver = IntentResolver::new(false);
    // Both an understanding marker and a code marker: understanding wins.
    let goal = resolver.resolve("コードを調査してほしい").unwrap();
    assert_eq!(goal.category, GoalCategory::Understanding);
    let design = resolver.resolve("アーキテクチャを見直す").unwrap();
    assert_eq!(design.category, GoalCategory::SystemDesign);
    let org = resolver.resolve("組織をよくしたい").unwrap();
    assert_eq!(org.category, GoalCategory::OrganizationalManagement);
    let decide = resolver.resolve("どちらにするか決定したい").unwrap();
    assert_eq!(decide.category, GoalCategory::DecisionSupport);
}

#[test]
fn priority_markers() {
    let resolver = IntentResolver::new(false);
    assert_eq!(resolver.resolve("緊急でお願いします").unwrap().priority, Priority::Critical);
    assert_eq!(resolver.resolve("これは重要です").unwrap().priority, Priority::High);
    assert_eq!(resolver.resolve("後で構いません").unwrap().priority, Priority::Low);
    assert_eq!(resolver.resolve("普通にお願いします").unwrap().priority, Priority::Medium);
}

#[test]
fn constraints_appear_independently_in_fixed_order() {
    let resolver = IntentResolver::new(false);
    let all = resolver.resolve("安全に、説明しながら、記録してほしい").unwrap();
    assert_eq!(
        all.constraints,
        vec![
            "安全性を確保すること".to_string(),
            "説明可能性を維持すること".to_string(),
            "プロセスを記録すること".to_string()
        ]
    );
    let one = resolver.resolve("記録だけしてほしい").unwrap();
    assert_eq!(one.constraints, vec!["プロセスを記録すること".to_string()]);
    let none = resolver.resolve("普通にやってほしい").unwrap();
    assert!(none.constraints.is_empty());
}

#[test]
fn charter_violation_is_refused_only_under_enforcement() {
    let enforcing = IntentResolver::new(true);
    let err = enforcing.resolve("自動判断で進めてほしい").unwrap_err();
    assert_eq!(err, AgentError::CharterViolation);

    // Mentioning a human makes the same instruction acceptable.
    assert!(enforcing.resolve("自動判断の結果を人間が確認する").is_ok());

    // Without enforcement the instruction resolves.
    let lax = IntentResolver::new(false);
    assert!(lax.resolve("自動判断で進めてほしい").is_ok());
}

#[test]
fn empty_input_is_refused() {
    let resolver = IntentResolver::new(true);
    assert_eq!(resolver.resolve("").unwrap_err(), AgentError::EmptyInput);
    assert_eq!(resolver.resolve(" \t\n　").unwrap_err(), AgentError::EmptyInput);
}

#[test]
fn resolution_is_deterministic() {
    let resolver = IntentResolver::new(true);
    let a = resolver.resolve("緊急: 安全にコードを修正して記録する").unwrap();
    let b = resolver.resolve("緊急: 安全にコードを修正して記録する").unwrap();
    assert_eq!(a.description, b.description);
    assert_eq!(a.essential_question, b.essential_question);
    assert_eq!(a.category, b.category);
    assert_eq!(a.priority, b.priority);
    assert_eq!(a.constraints, b.constraints);
}

#[test]
fn data_collection_warning_needs_enforcement_and_marker() {
    let enforcing = IntentResolver::new(true);
    assert!(enforcing.data_collection_warning("ユーザーのデータ収集を行う"));
    assert!(!enforcing.data_collection_warning("必要最小限のデータ収集を行う"));
    assert!(!enforcing.data_collection_warning("ファイルを読む"));
    let lax = IntentResolver::new(false);
    assert!(!lax.data_collection_warning("ユーザーのデータ収集を行う"));
}
