use xccute_decisions::path::{DecisionPathStep, DecisionPathStepKind, DecisionPathTemplate};

#[test]
fn decision_path_models_required_observation_before_operation() {
    let path = DecisionPathTemplate::new(
        "fleet.error_review",
        "Only continue if the logs do not contain blocking error evidence.",
    )
    .step(DecisionPathStep::required_observation(
        "ask.error_pattern",
        "grep.pattern_search",
        "check.errors",
        "logs.grep_errors",
        "Need one focused observation before deciding whether to continue.",
    ))
    .step(DecisionPathStep::operation(
        "commit.receipt",
        "fleet.commit_receipt",
        "Commit only after evidence-backed decision context exists.",
    ));

    assert_eq!(path.required_observation_count(), 1);
    assert!(path.includes_required_observation("check.errors"));
}

#[test]
fn decision_path_can_include_optional_observation_branches() {
    let path = DecisionPathTemplate::new("envd.probe", "Probe environment before selecting a setup path.")
        .step(DecisionPathStep::required_observation(
            "ask.config",
            "grep.pattern_search",
            "check.config",
            "envd.grep_config",
            "Find whether the config already names the desired runtime.",
        ))
        .step(DecisionPathStep::optional_observation(
            "ask.process",
            "pgrep.process_search",
            "check.worker",
            "envd.pgrep_worker",
            "Optionally see if a worker is already running before starting one.",
        ))
        .step(DecisionPathStep::branch(
            "branch.worker_state",
            "Use compact evidence to choose start, restart, or skip.",
        ));

    assert_eq!(path.required_observation_count(), 1);
    assert_eq!(path.optional_steps().len(), 1);
}

#[test]
fn decision_path_digest_is_order_sensitive() {
    let first = DecisionPathTemplate::new("path", "goal")
        .step(DecisionPathStep::required_observation(
            "ask.a",
            "grep.pattern_search",
            "q.a",
            "op.a",
            "first",
        ))
        .step(DecisionPathStep::operation("op.b", "operation.b", "second"));

    let second = DecisionPathTemplate::new("path", "goal")
        .step(DecisionPathStep::operation("op.b", "operation.b", "second"))
        .step(DecisionPathStep::required_observation(
            "ask.a",
            "grep.pattern_search",
            "q.a",
            "op.a",
            "first",
        ));

    assert_ne!(first.digest(), second.digest());
}

#[test]
fn path_step_labels_name_each_kind() {
    assert_eq!(DecisionPathStepKind::RequiredObservation.stable_label(), "required_observation");
    assert_eq!(DecisionPathStepKind::OptionalObservation.stable_label(), "optional_observation");
    assert_eq!(DecisionPathStepKind::Operation.stable_label(), "operation");
    assert_eq!(DecisionPathStepKind::Branch.stable_label(), "branch");
    assert_eq!(DecisionPathStepKind::Stop.stable_label(), "stop");
}

#[test]
fn path_counts_follow_appended_steps() {
    let empty = DecisionPathTemplate::new("p", "g");
    assert_eq!(empty.required_observation_count(), 0);
    assert!(empty.optional_steps().is_empty());
    assert!(!empty.includes_required_observation("q"));

    let path = empty
        .step(DecisionPathStep::optional_observation("s1", "t", "q.optional", "op", "r"))
        .step(DecisionPathStep::required_observation("s2", "t", "q.one", "op", "r"))
        .step(DecisionPathStep::required_observation("s3", "t", "q.two", "op", "r"))
        .step(DecisionPathStep::stop("s4", "r"));
    assert_eq!(path.required_observation_count(), 2);
    assert_eq!(path.optional_steps().len(), 1);
    assert_eq!(path.optional_steps()[0].step_id, "s1");
    assert!(path.includes_required_observation("q.two"));
    assert!(!path.includes_required_observation("q.optional"));
    assert!(path.steps[3].question_logical_id.is_none());
    assert!(path.steps[1].is_required_observation());
    assert!(!path.steps[0].is_required_observation());
}

#[test]
fn path_step_material_is_length_prefixed() {
    let step = DecisionPathStep::branch("b", "why");
    let material = step.stable_material();
    assert!(material.starts_with("xccute.decisions.path.step.v1\nstep_id.len=1\nstep_id=b\n"));
    assert!(material.contains("kind.len=6\nkind=branch\n"));
    assert!(material.contains("tool_id.len=0\ntool_id=\n"));
    assert!(material.contains("reason.len=3\nreason=why\n"));
    assert_eq!(step.digest().len(), 64);
    assert_ne!(step.digest(), material);
}

#[test]
fn path_template_material_lists_step_digests_in_order() {
    let path = DecisionPathTemplate::new("p", "g")
        .step(DecisionPathStep::stop("s0", "done"));
    let material = path.stable_material();
    let step_digest = path.steps[0].digest();
    assert!(material.starts_with("xccute.decisions.path.template.v1\npath_id.len=1\npath_id=p\ngoal.len=1\ngoal=g\n"));
    assert!(material.contains(&format!("step[0].digest={}\n", step_digest)));
    assert_eq!(path.digest(), path.digest());
}
