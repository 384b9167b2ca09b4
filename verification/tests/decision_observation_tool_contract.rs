use xccute_decisions::observation_tool::{
    awk_observation_tool, builtin_observation_tools, find_observation_tool, grep_observation_tool,
    observation_tool_by_id, pgrep_observation_tool, ps_observation_tool, sed_observation_tool,
    stat_observation_tool,
};
use xccute_decisions::runtime_model::ObservationKind;
use xccute_runtime::{RuntimeDecisionQuestion, RuntimeObservationKind};

#[test]
fn builtin_decision_tools_cover_search_transform_and_state_checks() {
    let tool_ids: Vec<_> = builtin_observation_tools()
        .into_iter()
        .map(|tool| tool.tool_id)
        .collect();

    assert!(tool_ids.contains(&"grep.pattern_search"));
    assert!(tool_ids.contains(&"pgrep.process_search"));
    assert!(tool_ids.contains(&"sed.text_transform"));
    assert!(tool_ids.contains(&"stat.file_check"));
}

#[test]
fn grep_tool_builds_required_pattern_search_question() {
    let question = grep_observation_tool().required_question(
        "check.errors",
        "logs.grep_errors",
        "Did grep find ERROR lines?",
    );

    assert_eq!(question.logical_id, "check.errors");
    assert_eq!(question.operation_logical_id, "logs.grep_errors");
    assert_eq!(question.kind, ObservationKind::PatternSearch);
    assert!(question.responsibility.contains("pattern"));
    assert!(question.required);
}

#[test]
fn pgrep_tool_can_make_optional_process_question() {
    let question = pgrep_observation_tool().default_optional_question(
        "check.worker",
        "fleet.pgrep_worker",
    );

    assert_eq!(question.kind, ObservationKind::ProcessSearch);
    assert!(!question.required);
    assert!(question.question.contains("pgrep"));
}

#[test]
fn decision_tool_digest_is_stable_and_tool_identity_sensitive() {
    let grep_a = grep_observation_tool().digest();
    let grep_b = grep_observation_tool().digest();
    let pgrep = pgrep_observation_tool().digest();

    assert_eq!(grep_a, grep_b);
    assert_ne!(grep_a, pgrep);
}

#[test]
fn decision_tool_lookup_is_by_stable_tool_id() {
    let tool = observation_tool_by_id("grep.pattern_search").expect("grep tool");

    assert_eq!(tool.program, "grep");
    assert_eq!(tool.kind, ObservationKind::PatternSearch);
    assert!(observation_tool_by_id("missing.tool").is_none());
}

#[test]
fn grep_tool_builds_source_question_spec() {
    let spec = grep_observation_tool().required_question_spec(
        "check.errors",
        "logs.grep_errors",
        "Did grep find ERROR lines?",
    );

    assert_eq!(spec.tool_id, "grep.pattern_search");
    assert!(spec.required);
    assert_eq!(spec.operation_logical_id, "logs.grep_errors");
}

#[test]
fn every_builtin_tool_is_found_by_its_own_id() {
    let tools = builtin_observation_tools();
    assert_eq!(tools.len(), 7);
    for tool in &tools {
        assert_eq!(observation_tool_by_id(tool.tool_id), Some(tool.clone()));
    }
    assert_eq!(tools[0], grep_observation_tool());
    assert_eq!(tools[1], pgrep_observation_tool());
    assert_eq!(tools[2], sed_observation_tool());
    assert_eq!(tools[3], awk_observation_tool());
    assert_eq!(tools[4], stat_observation_tool());
    assert_eq!(tools[5], find_observation_tool());
    assert_eq!(tools[6], ps_observation_tool());
    assert!(observation_tool_by_id("").is_none());
    assert!(observation_tool_by_id("grep").is_none());
}

#[test]
fn tool_kinds_and_labels_match_the_runtime() {
    let pairs = [
        (ObservationKind::PatternSearch, RuntimeObservationKind::PatternSearch),
        (ObservationKind::ProcessSearch, RuntimeObservationKind::ProcessSearch),
        (ObservationKind::TextTransform, RuntimeObservationKind::TextTransform),
        (ObservationKind::FileCheck, RuntimeObservationKind::FileCheck),
        (ObservationKind::CommandProbe, RuntimeObservationKind::CommandProbe),
        (
            ObservationKind::Custom("disk.quota".to_string()),
            RuntimeObservationKind::Custom("disk.quota".to_string()),
        ),
    ];
    for (kind, runtime_kind) in pairs {
        assert_eq!(kind.stable_label(), runtime_kind.stable_label());
    }
    assert_eq!(stat_observation_tool().kind, ObservationKind::FileCheck);
    assert_eq!(ps_observation_tool().kind, ObservationKind::ProcessSearch);
    assert_eq!(awk_observation_tool().kind, ObservationKind::TextTransform);
}

#[test]
fn tool_questions_match_runtime_questions_and_their_digests() {
    let tool = grep_observation_tool();
    let question = tool.required_question("check.errors", "logs.grep_errors", "Did grep find ERROR lines?");
    let runtime = RuntimeDecisionQuestion::required(
        "check.errors",
        "logs.grep_errors",
        RuntimeObservationKind::PatternSearch,
        "Did grep find ERROR lines?",
        tool.responsibility,
    );
    assert_eq!(question.minimum_facts, runtime.minimum_facts);
    assert_eq!(question.context_budget_hint, runtime.context_budget_hint);
    assert_eq!(question.stable_material(), runtime.stable_material());
    assert_eq!(question.digest(), runtime.digest().as_str());

    let optional = tool.default_optional_question("check.any", "logs.grep_any");
    let runtime_optional = RuntimeDecisionQuestion::optional(
        "check.any",
        "logs.grep_any",
        RuntimeObservationKind::PatternSearch,
        tool.default_question,
        tool.responsibility,
    );
    assert_eq!(optional.digest(), runtime_optional.digest().as_str());
    assert!(!optional.required);
    let requirement = optional.to_observation_requirement();
    assert_eq!(requirement.digest(), runtime_optional.to_observation_requirement().digest().as_str());
}

#[test]
fn default_question_specs_use_the_tool_question() {
    let tool = stat_observation_tool();
    let required = tool.default_required_question_spec("check.file", "fs.stat");
    let optional = tool.default_optional_question_spec("check.file", "fs.stat");
    assert_eq!(required.question, tool.default_question);
    assert!(required.required);
    assert!(!optional.required);
    assert_eq!(optional.tool_id, "stat.file_check");
    assert_eq!(required.minimum_facts, 1);
    assert_eq!(required.context_budget_hint, 512);
    let default_required = tool.default_required_question("check.file", "fs.stat");
    assert_eq!(default_required.question, tool.default_question);
    assert!(default_required.required);
}

#[test]
fn tool_material_is_length_prefixed() {
    let material = pgrep_observation_tool().stable_material();
    assert!(material.contains("tool_id.len=20\ntool_id=pgrep.process_search\n"));
    assert!(material.contains("program.len=5\nprogram=pgrep\n"));
    assert_eq!(pgrep_observation_tool().digest().len(), 64);
}
