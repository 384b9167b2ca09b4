use xccute_decisions::guide::{DecisionGuideTemplate, DecisionGuideTemplateError, DecisionQuestionSpec};
use xccute_decisions::observation_tool::{grep_observation_tool, pgrep_observation_tool};
use xccute_decisions::path::{DecisionPathStep, DecisionPathTemplate};
use xccute_decisions::runtime_model::{OperationLink, OperationPlanLink};
use xccute_runtime::{
    RuntimeDecisionGuide, RuntimeDecisionQuestion, RuntimeObservationKind, RuntimeOperation,
    RuntimeOperationPlan,
};

fn op(logical_id: &str, program: &str, argv: &[&str]) -> RuntimeOperation {
    RuntimeOperation::new(
        logical_id,
        program.into(),
        argv.iter().map(|arg| (*arg).into()).collect(),
        format!("{} {}", program, argv.join(" ")),
    )
}

fn runtime_plan() -> RuntimeOperationPlan {
    RuntimeOperationPlan::new("fleet.review")
        .then(op("logs.grep_errors", "grep", &["ERROR", "fleet.log"]))
        .then(op("fleet.commit_receipt", "fleetctl", &["commit-receipt"]))
}

fn plan_link(plan: &RuntimeOperationPlan) -> OperationPlanLink {
    OperationPlanLink {
        plan_id: plan.plan_id.clone(),
        digest: plan.digest().as_str().to_string(),
        operations: plan
            .operations
            .iter()
            .map(|operation| OperationLink {
                logical_id: operation.logical_id.clone(),
                digest: operation.digest().as_str().to_string(),
            })
            .collect(),
    }
}

fn plan() -> OperationPlanLink {
    plan_link(&runtime_plan())
}

#[test]
fn decision_guide_template_materializes_runtime_guide_and_observation_plan() {
    let path = DecisionPathTemplate::new(
        "fleet.error_review",
        "Only continue if no blocking error evidence exists.",
    )
    .step(DecisionPathStep::required_observation(
        "ask.error_pattern",
        "grep.pattern_search",
        "check.errors",
        "logs.grep_errors",
        "Need one focused grep observation before deciding.",
    ))
    .step(DecisionPathStep::operation(
        "commit.receipt",
        "fleet.commit_receipt",
        "Commit only after an evidence-backed decision.",
    ));

    let guide = DecisionGuideTemplate::new(
        "fleet.error_review.guide",
        "Decide whether the Supervisor dry-run log is safe to commit.",
        path,
    )
    .ask(DecisionQuestionSpec::required(
        "check.errors",
        "logs.grep_errors",
        &grep_observation_tool(),
        "Did grep find blocking ERROR lines?",
    ));

    let runtime_guide = guide.materialize_runtime_guide(&plan()).expect("runtime guide");
    let observation_plan = guide
        .materialize_observation_plan(&plan(), "fleet.error_review.observations")
        .expect("observation plan");

    assert_eq!(runtime_guide.guide_id, "fleet.error_review.guide");
    assert_eq!(runtime_guide.questions.len(), 1);
    assert_eq!(observation_plan.requirements.len(), 1);
    assert_eq!(observation_plan.requirements[0].logical_id, "check.errors");
}

#[test]
fn decision_guide_template_rejects_missing_required_path_question() {
    let path = DecisionPathTemplate::new("fleet.error_review", "goal")
        .step(DecisionPathStep::required_observation(
            "ask.error_pattern",
            "grep.pattern_search",
            "check.errors",
            "logs.grep_errors",
            "Need the grep observation.",
        ));

    let guide = DecisionGuideTemplate::new("guide", "goal", path);

    let err = guide.materialize_runtime_guide(&plan()).unwrap_err();
    assert_eq!(
        err,
        DecisionGuideTemplateError::MissingRequiredPathQuestions {
            missing_question_ids: vec!["check.errors".to_string()],
        }
    );
}

#[test]
fn decision_guide_template_allows_optional_questions_without_making_them_required() {
    let path = DecisionPathTemplate::new("envd.probe", "Probe before selecting setup path.")
        .step(DecisionPathStep::required_observation(
            "ask.config",
            "grep.pattern_search",
            "check.config",
            "logs.grep_errors",
            "Need config evidence first.",
        ))
        .step(DecisionPathStep::optional_observation(
            "ask.worker",
            "pgrep.process_search",
            "check.worker",
            "fleet.pgrep_worker",
            "Optionally see if a worker is already running.",
        ));

    let guide = DecisionGuideTemplate::new("envd.probe.guide", "Probe with bounded evidence.", path)
        .ask(DecisionQuestionSpec::required(
            "check.config",
            "logs.grep_errors",
            &grep_observation_tool(),
            "Did config evidence exist?",
        ))
        .ask(DecisionQuestionSpec::optional(
            "check.worker",
            "fleet.pgrep_worker",
            &pgrep_observation_tool(),
            "Was the worker already running?",
        ));

    assert_eq!(guide.required_questions().len(), 1);
    assert_eq!(guide.optional_questions().len(), 1);
    assert!(guide.materialize_runtime_guide(&plan()).is_ok());
}

#[test]
fn decision_guide_template_digest_tracks_source_path_and_questions() {
    let path = DecisionPathTemplate::new("path", "goal")
        .step(DecisionPathStep::required_observation(
            "ask.a",
            "grep.pattern_search",
            "q.a",
            "op.a",
            "first",
        ));

    let first = DecisionGuideTemplate::new("guide", "goal", path.clone())
        .ask(DecisionQuestionSpec::required(
            "q.a",
            "op.a",
            &grep_observation_tool(),
            "question a",
        ));

    let second = DecisionGuideTemplate::new("guide", "goal", path)
        .ask(DecisionQuestionSpec::required(
            "q.a",
            "op.a",
            &grep_observation_tool(),
            "question a changed",
        ));

    assert_ne!(first.digest(), second.digest());
}

#[test]
fn materialized_guide_matches_the_runtime_guide_and_its_digest() {
    let path = DecisionPathTemplate::new("p", "g").step(DecisionPathStep::required_observation(
        "ask.errors",
        "grep.pattern_search",
        "check.errors",
        "logs.grep_errors",
        "why",
    ));
    let guide = DecisionGuideTemplate::new("guide.id", "guide goal", path)
        .ask(
            DecisionQuestionSpec::required(
                "check.errors",
                "logs.grep_errors",
                &grep_observation_tool(),
                "Any errors?",
            )
            .with_minimum_facts(2)
            .with_context_budget_hint(64),
        )
        .ask(DecisionQuestionSpec::optional(
            "check.worker",
            "fleet.commit_receipt",
            &pgrep_observation_tool(),
            "Worker up?",
        ));
    let mirror = guide.materialize_runtime_guide(&plan()).expect("guide");
    let runtime_plan = runtime_plan();
    let runtime = RuntimeDecisionGuide::new("guide.id", "guide goal", &runtime_plan)
        .ask(
            RuntimeDecisionQuestion::required(
                "check.errors",
                "logs.grep_errors",
                RuntimeObservationKind::PatternSearch,
                "Any errors?",
                grep_observation_tool().responsibility,
            )
            .with_minimum_facts(2)
            .with_context_budget_hint(64),
        )
        .ask(RuntimeDecisionQuestion::optional(
            "check.worker",
            "fleet.commit_receipt",
            RuntimeObservationKind::ProcessSearch,
            "Worker up?",
            pgrep_observation_tool().responsibility,
        ));
    assert_eq!(mirror.stable_material(), runtime.stable_material());
    assert_eq!(mirror.digest(), runtime.digest().as_str());
    assert_eq!(mirror.required_questions().len(), runtime.required_questions().count());

    let observations = guide.materialize_observation_plan(&plan(), "obs").expect("observations");
    let runtime_observations = runtime.to_observation_plan("obs");
    assert_eq!(observations.stable_material(), runtime_observations.stable_material());
    assert_eq!(observations.digest(), runtime_observations.digest().as_str());
    assert_eq!(mirror.to_observation_plan("obs".to_string()), observations);
}

#[test]
fn guide_coverage_reports_missing_operations_and_unexpected_required_questions() {
    let path = DecisionPathTemplate::new("p", "g").step(DecisionPathStep {
        step_id: "ask.errors".to_string(),
        kind: xccute_decisions::path::DecisionPathStepKind::RequiredObservation,
        tool_id: None,
        question_logical_id: Some("check.errors".to_string()),
        operation_logical_id: None,
        reason: "no operation named".to_string(),
    });
    let guide = DecisionGuideTemplate::new("guide", "goal", path);
    assert_eq!(
        guide.validate_path_coverage(),
        Err(DecisionGuideTemplateError::MissingRequiredPathOperations {
            missing_operation_ids: vec!["check.errors".to_string()],
        })
    );

    let empty_path = DecisionPathTemplate::new("p", "g");
    let extra = DecisionGuideTemplate::new("guide", "goal", empty_path).ask(DecisionQuestionSpec::required(
        "check.extra",
        "op.extra",
        &grep_observation_tool(),
        "Unasked by the path?",
    ));
    assert_eq!(
        extra.validate_path_coverage(),
        Err(DecisionGuideTemplateError::UnexpectedRequiredQuestion {
            question_ids: vec!["check.extra".to_string()],
        })
    );
    assert!(extra.materialize_observation_plan(&plan(), "obs").is_err());

    let nameless = DecisionGuideTemplate::new(
        "guide",
        "goal",
        DecisionPathTemplate::new("p", "g").step(DecisionPathStep {
            step_id: "step.bare".to_string(),
            kind: xccute_decisions::path::DecisionPathStepKind::RequiredObservation,
            tool_id: None,
            question_logical_id: None,
            operation_logical_id: None,
            reason: String::new(),
        }),
    );
    assert_eq!(
        nameless.validate_path_coverage(),
        Err(DecisionGuideTemplateError::MissingRequiredPathQuestions {
            missing_question_ids: vec!["step.bare".to_string()],
        })
    );
}

#[test]
fn required_question_must_match_the_path_operation() {
    let path = DecisionPathTemplate::new("p", "g").step(DecisionPathStep::required_observation(
        "ask",
        "grep.pattern_search",
        "check.errors",
        "logs.grep_errors",
        "why",
    ));
    let wrong_operation = DecisionGuideTemplate::new("guide", "goal", path.clone()).ask(
        DecisionQuestionSpec::required("check.errors", "other.op", &grep_observation_tool(), "q"),
    );
    assert_eq!(
        wrong_operation.validate_path_coverage(),
        Err(DecisionGuideTemplateError::MissingRequiredPathQuestions {
            missing_question_ids: vec!["check.errors".to_string()],
        })
    );
    let optional_only = DecisionGuideTemplate::new("guide", "goal", path).ask(
        DecisionQuestionSpec::optional("check.errors", "logs.grep_errors", &grep_observation_tool(), "q"),
    );
    assert!(optional_only.validate_path_coverage().is_err());
}

#[test]
fn question_spec_material_and_materialized_question() {
    let spec = DecisionQuestionSpec::required("q", "op", &grep_observation_tool(), "text?");
    let material = spec.stable_material();
    assert!(material.starts_with("xccute.decisions.question.spec.v1\n"));
    assert!(material.contains("logical_id.len=1\nlogical_id=q\n"));
    assert_eq!(spec.digest(), spec.digest());
    let question = spec.materialize();
    assert_eq!(question.logical_id, "q");
    assert_eq!(question.operation_logical_id, "op");
    assert!(question.required);
    assert_eq!(question.minimum_facts, 1);
    assert_eq!(question.context_budget_hint, 512);
    let tuned = spec.clone().with_minimum_facts(3).with_context_budget_hint(9);
    assert_eq!(tuned.minimum_facts, 3);
    assert_eq!(tuned.context_budget_hint, 9);
    assert_ne!(tuned.digest(), spec.digest());
}
