use seize_core::requirements::{
    AcceptanceCriterion, NonFunctionalCategory, Requirement, RequirementPriority,
    RequirementStatus, RequirementType, RequirementsEngineer, Traceability, VerificationMethod,
};
use seize_core::world::StringMap;

fn bare_requirement(id: &str, req_type: RequirementType, description: &str) -> Requirement {
    Requirement {
        id: id.to_string(),
        req_type,
        description: description.to_string(),
        priority: RequirementPriority::Must,
        stakeholders: vec!["User".to_string()],
        acceptance_criteria: Vec::new(),
        traceability: Traceability::default(),
        verification_method: VerificationMethod::Test,
        status: RequirementStatus::Proposed,
        metadata: StringMap::new(),
    }
}

#[test]
fn test_requirements_elicitation() {
    let mut engineer = RequirementsEngineer::new("Test Project".to_string(), true);
    let input = "システムはユーザー認証機能を提供する必要がある。パフォーマンスは1秒以内であるべき。";

    let requirements = engineer.elicit_requirements(input, "Product Owner").unwrap();

    assert!(!requirements.is_empty());
    assert_eq!(requirements[0].stakeholders[0], "Product Owner");
}

#[test]
fn test_requirement_analysis() {
    let engineer = RequirementsEngineer::new("Test Project".to_string(), true);
    let mut req = Requirement {
        id: "REQ-001".to_string(),
        req_type: RequirementType::Functional,
        description: "ユーザー認証機能".to_string(),
        priority: RequirementPriority::Must,
        stakeholders: vec!["User".to_string()],
        acceptance_criteria: Vec::new(),
        traceability: Traceability::default(),
        verification_method: VerificationMethod::Test,
        status: RequirementStatus::Proposed,
        metadata: StringMap::new(),
    };

    let result = engineer.analyze_requirement(&req).unwrap();
    assert!(!result.is_valid); // no acceptance criteria yet

    req.acceptance_criteria.push(AcceptanceCriterion {
        given: "ユーザーがログインフォームにアクセスした時".to_string(),
        when_part: "正しいユーザー名とパスワードを入力する".to_string(),
        then_part: "システムにログインできる".to_string(),
        measurable: true,
    });

    let result2 = engineer.analyze_requirement(&req).unwrap();
    assert!(result2.is_valid);
}

#[test]
fn elicitation_numbers_requirements_by_sentence() {
    let mut engineer = RequirementsEngineer::new("P".to_string(), true);
    let input = "システムはユーザー認証機能を提供する必要がある。パフォーマンスは1秒以内であるべき。";
    let requirements = engineer.elicit_requirements(input, "Product Owner").unwrap();
    assert_eq!(requirements.len(), 2);
    assert_eq!(requirements[0].id, "REQ-001");
    assert_eq!(requirements[1].id, "REQ-002");
    assert_eq!(requirements[0].description, "システムはユーザー認証機能を提供する必要がある");
    assert_eq!(requirements[1].description, "パフォーマンスは1秒以内であるべき");
    assert_eq!(requirements[0].req_type, RequirementType::User);
    assert_eq!(requirements[0].priority, RequirementPriority::Should);
    assert_eq!(requirements[0].status, RequirementStatus::Proposed);
}

#[test]
fn sentences_without_requirement_markers_are_skipped() {
    let mut engineer = RequirementsEngineer::new("P".to_string(), true);
    let requirements = engineer.elicit_requirements("これはメモ。特になし。", "PO").unwrap();
    assert!(requirements.is_empty());
}

#[test]
fn a_short_description_is_flagged_for_clarity() {
    let engineer = RequirementsEngineer::new("P".to_string(), false);
    let req = bare_requirement("REQ-010", RequirementType::Functional, "short");
    let result = engineer.analyze_requirement(&req).unwrap();
    assert!(!result.is_valid);
    assert!(result.issues.contains(&"要求の記述が短すぎます（明確性）".to_string()));
}

#[test]
fn charter_review_flags_automatic_decisions_and_security_gaps() {
    let engineer = RequirementsEngineer::new("P".to_string(), true);
    let auto = bare_requirement(
        "REQ-020",
        RequirementType::Functional,
        "システムは自動判断でアクセスを拒否する",
    );
    let result = engineer.analyze_requirement(&auto).unwrap();
    assert!(result.issues.contains(&"憲章違反: 自動判断には人間の承認が必要です".to_string()));

    let data = bare_requirement(
        "REQ-021",
        RequirementType::Functional,
        "すべてのデータをサーバーに保存する",
    );
    let result = engineer.analyze_requirement(&data).unwrap();
    assert!(result.issues.contains(&"憲章推奨: 必要最小限のデータ収集を検討してください".to_string()));

    let security = bare_requirement(
        "REQ-022",
        RequirementType::NonFunctional { category: NonFunctionalCategory::Security },
        "通信はすべて暗号化されなければならない",
    );
    let result = engineer.analyze_requirement(&security).unwrap();
    assert!(result.issues.contains(&"セキュリティ要求には明確な受入基準が必要です".to_string()));

    // Without enforcement the charter issues disappear.
    let lax = RequirementsEngineer::new("P".to_string(), false);
    let result = lax.analyze_requirement(&auto).unwrap();
    assert!(!result.issues.iter().any(|i| i.starts_with("憲章")));
}

#[test]
fn recommendations_cover_criteria_traceability_and_stakeholders() {
    let engineer = RequirementsEngineer::new("P".to_string(), true);
    let mut req = bare_requirement(
        "REQ-030",
        RequirementType::Functional,
        "ユーザーはレポートを出力できる",
    );
    req.stakeholders.clear();
    let result = engineer.analyze_requirement(&req).unwrap();
    assert_eq!(
        result.recommendations,
        vec![
            "Given-When-Then形式の受入基準を追加してください".to_string(),
            "上位要求とのトレーサビリティを確立してください".to_string(),
            "ステークホルダーを明記してください".to_string()
        ]
    );

    // Business requirements are not asked for a parent trace.
    let business = bare_requirement(
        "REQ-031",
        RequirementType::Business,
        "売上を前年比で二倍にする",
    );
    let result = engineer.analyze_requirement(&business).unwrap();
    assert!(!result
        .recommendations
        .contains(&"上位要求とのトレーサビリティを確立してください".to_string()));
}

#[test]
fn validation_counts_valid_requirements_and_collects_issues() {
    let mut engineer = RequirementsEngineer::new("P".to_string(), true);
    let mut valid = bare_requirement(
        "REQ-040",
        RequirementType::Functional,
        "ユーザーはパスワードを変更できる",
    );
    valid.acceptance_criteria.push(AcceptanceCriterion {
        given: "設定画面".to_string(),
        when_part: "新しいパスワードを入力する".to_string(),
        then_part: "パスワードが更新される".to_string(),
        measurable: true,
    });
    engineer.add_requirement(valid).unwrap();
    engineer
        .add_requirement(bare_requirement("REQ-041", RequirementType::Functional, "short"))
        .unwrap();

    let report = engineer.validate_requirements().unwrap();
    assert_eq!(report.total_requirements, 2);
    assert_eq!(report.valid_requirements, 1);
    assert!(!report.issues.is_empty());
}

#[test]
fn the_traceability_matrix_has_one_row_per_requirement() {
    let mut engineer = RequirementsEngineer::new("P".to_string(), true);
    let mut req = bare_requirement(
        "REQ-050",
        RequirementType::Functional,
        "ユーザーはレポートを出力できる",
    );
    req.traceability.parent_requirements.push("REQ-001".to_string());
    req.traceability.test_cases.push("TC-001".to_string());
    engineer.add_requirement(req).unwrap();
    engineer
        .add_requirement(bare_requirement(
            "REQ-051",
            RequirementType::Functional,
            "ユーザーはレポートを保存できる",
        ))
        .unwrap();

    let matrix = engineer.analyze_traceability();
    assert_eq!(matrix.requirements.len(), 2);
    assert_eq!(matrix.requirements[0].requirement_id, "REQ-050");
    assert_eq!(matrix.requirements[0].parent_ids, vec!["REQ-001".to_string()]);
    assert_eq!(matrix.requirements[0].test_case_ids, vec!["TC-001".to_string()]);
    assert_eq!(matrix.requirements[1].requirement_id, "REQ-051");
    assert!(matrix.requirements[1].parent_ids.is_empty());
}

#[test]
fn export_returns_the_current_specification() {
    let mut engineer = RequirementsEngineer::new("Test Project".to_string(), true);
    engineer
        .add_requirement(bare_requirement(
            "REQ-060",
            RequirementType::Functional,
            "ユーザーはログアウトできる",
        ))
        .unwrap();
    let spec = engineer.export_specification();
    assert_eq!(spec.project_name, "Test Project");
    assert_eq!(spec.version, "1.0.0");
    assert_eq!(spec.requirements.len(), 1);
    assert_eq!(spec.requirements[0].id, "REQ-060");
}
