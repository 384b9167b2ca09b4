use xccute_decisions::guide::{DecisionGuideTemplate, DecisionQuestionSpec};
use xccute_decisions::observation_tool::grep_observation_tool;
use xccute_decisions::path::{DecisionPathStep, DecisionPathTemplate};
use xccute_decisions::runbook::{DecisionRunbookInstance, DecisionRunbookMode, DecisionRunbookTemplate};
use xccute_decisions::runbook_journal::{
    DecisionRunbookJournal, DecisionRunbookJournalEntry, DecisionRunbookJournalError,
};
use xccute_decisions::runbook_record::{AcknowledgedPathLink, DecisionRunbookRecord, GuidedContextLink};
use xccute_decisions::runtime_model::{
    ConnectorCall, DecisionGuide, MaterialManifestLink, ObservationKind, OperationLink,
    OperationPlanLink, PlanMaterialContract,
};
use xccute_runtime::{
    ExitDisposition, ExitStatusDecision, RuntimeAcknowledgedDecisionPath, RuntimeConnectorCall,
    RuntimeConnectorExecutionIntent, RuntimeConnectorIdentity, RuntimeDecisionGuide,
    RuntimeDecisionQuestion, RuntimeExitStatus, RuntimeGuidedDecisionContext, RuntimeMaterialManifest,
    RuntimeObservationCall, RuntimeObservationEvidenceSet, RuntimeObservationFact,
    RuntimeObservationKind, RuntimeObservationPlan, RuntimeOperation, RuntimeOperationPlan,
    RuntimePlanMaterialContract, StableDigest,
};

fn op(logical_id: &str, program: &str, argv: &[&str]) -> RuntimeOperation {
    RuntimeOperation::new(
        logical_id,
        program.into(),
        argv.iter().map(|arg| (*arg).into()).collect(),
        format!("{} {}", program, argv.join(" ")),
    )
}

fn plan_link(plan: &RuntimeOperationPlan) -> OperationPlanLink {
    OperationPlanLink {
        plan_id: plan.plan_id.clone(),
        digest: plan.digest().as_str().to_string(),
        operations: plan
            .operations
            .iter()
            .map(|operation| OperationLink {
                logical_id: operation.logical_id.clone(),
                digest: operation.digest().as_str().to_string(),
            })
            .collect(),
    }
}

fn manifest_link(manifest: &RuntimeMaterialManifest) -> MaterialManifestLink {
    MaterialManifestLink {
        manifest_id: manifest.manifest_id.clone(),
        digest: manifest.digest().as_str().to_string(),
    }
}

fn runtime_kind(kind: &ObservationKind) -> RuntimeObservationKind {
    match kind {
        ObservationKind::PatternSearch => RuntimeObservationKind::PatternSearch,
        ObservationKind::ProcessSearch => RuntimeObservationKind::ProcessSearch,
        ObservationKind::TextTransform => RuntimeObservationKind::TextTransform,
        ObservationKind::FileCheck => RuntimeObservationKind::FileCheck,
        ObservationKind::CommandProbe => RuntimeObservationKind::CommandProbe,
        ObservationKind::Custom(value) => RuntimeObservationKind::Custom(value.clone()),
    }
}

fn runtime_guide(guide: &DecisionGuide, plan: &RuntimeOperationPlan) -> RuntimeDecisionGuide {
    let mut runtime = RuntimeDecisionGuide::new(guide.guide_id.clone(), guide.goal.clone(), plan);
    for question in &guide.questions {
        runtime = runtime.ask(RuntimeDecisionQuestion {
            logical_id: question.logical_id.clone(),
            operation_logical_id: question.operation_logical_id.clone(),
            kind: runtime_kind(&question.kind),
            question: question.question.clone(),
            responsibility: question.responsibility.clone(),
            required: question.required,
            minimum_facts: question.minimum_facts,
            context_budget_hint: question.context_budget_hint,
        });
    }
    assert_eq!(runtime.digest().as_str(), guide.digest());
    runtime
}

fn runtime_observation_plan(instance: &DecisionRunbookInstance, plan: &RuntimeOperationPlan) -> RuntimeObservationPlan {
    let runtime = runtime_guide(&instance.runtime_guide, plan)
        .to_observation_plan(instance.observation_plan.observation_plan_id.clone());
    assert_eq!(runtime.digest().as_str(), instance.observation_plan.digest());
    runtime
}

fn runtime_call(call: &ConnectorCall, plan: &RuntimeOperationPlan) -> RuntimeConnectorCall {
    let runtime = RuntimeConnectorCall::for_operation(
        RuntimeConnectorIdentity::new(call.connector.connector_id.clone(), call.connector.connector_kind.clone()),
        call.service.clone(),
        call.function.clone(),
        plan,
        plan.operation_by_logical_id(&call.operation_logical_id).expect("operation in plan"),
        call.requested_reason.clone(),
    )
    .expect("call forms");
    assert_eq!(runtime.digest().as_str(), call.digest());
    runtime
}

fn context_link(context: &RuntimeGuidedDecisionContext) -> GuidedContextLink {
    GuidedContextLink {
        guide_digest: context.guide_digest.as_str().to_string(),
        observation_plan_digest: context.observation_plan_digest.as_str().to_string(),
        digest: context.digest().as_str().to_string(),
    }
}

fn acknowledged_link(path: &RuntimeAcknowledgedDecisionPath) -> AcknowledgedPathLink {
    AcknowledgedPathLink {
        context_digest: path.context_digest.as_str().to_string(),
        transition_digest: path.transition_digest.as_str().to_string(),
        digest: path.digest().as_str().to_string(),
    }
}

fn material_contract(plan: &RuntimeOperationPlan) -> (RuntimeMaterialManifest, RuntimePlanMaterialContract) {
    let manifest = RuntimeMaterialManifest::new("nodeplan.materials");
    let contract = RuntimePlanMaterialContract::new(plan, &manifest);
    (manifest, contract)
}

fn materialize(
    runbook: DecisionRunbookTemplate,
    plan: &RuntimeOperationPlan,
    manifest: &RuntimeMaterialManifest,
    material_contract: &RuntimePlanMaterialContract,
) -> DecisionRunbookInstance {
    let plan_link = plan_link(plan);
    let manifest_link = manifest_link(manifest);
    let contract = PlanMaterialContract::new(&plan_link, &manifest_link);
    assert_eq!(contract.digest(), material_contract.digest().as_str());
    runbook
        .materialize(&plan_link, &manifest_link, &contract, "nodeplan.observations")
        .expect("observation-only runbook should materialize")
}

fn observation_runbook(runbook_id: &str) -> DecisionRunbookTemplate {
    DecisionRunbookTemplate::observation_only(
        runbook_id,
        "Only ask focused questions and acknowledge the decision path.",
        guide(),
    )
}

fn observation_context(
    plan: &RuntimeOperationPlan,
    manifest: &RuntimeMaterialManifest,
    material_contract: &RuntimePlanMaterialContract,
    instance: &DecisionRunbookInstance,
) -> RuntimeGuidedDecisionContext {
    let grep_operation = plan
        .operation_by_logical_id("logs.grep_errors")
        .expect("grep operation exists");
    let call = RuntimeConnectorCall::for_operation(
        RuntimeConnectorIdentity::new("nodeplan.local", "nodeplan"),
        "nodeplan-control",
        "grep_errors",
        plan,
        grep_operation,
        "collect bounded error evidence",
    )
    .expect("grep call should form");
    let intent = RuntimeConnectorExecutionIntent::prepare(call, material_contract, manifest)
        .expect("empty material manifest should satisfy gate");
    let runtime_guide = runtime_guide(&instance.runtime_guide, plan);
    let requirement = runtime_guide.questions[0].to_observation_requirement();
    let observation_call = RuntimeObservationCall::for_intent(
        &requirement,
        &intent,
        "check whether errors block dry-run apply",
    )
    .expect("observation call should form");
    let fact = RuntimeObservationFact::from_text(
        &observation_call,
        "fact.error_pattern",
        false,
        0,
        "",
        "grep found 0 ERROR lines",
        "no blocking error evidence, so continue",
    );
    let evidence = RuntimeObservationEvidenceSet::new(plan).with_fact(fact);

    RuntimeGuidedDecisionContext::from_evidence(
        &runtime_guide,
        &runtime_observation_plan(instance, plan),
        &evidence,
    )
    .expect("required evidence should form guided context")
}

fn observation_record(runbook_id: &str, acknowledged_reason: &str, recorded_reason: &str) -> DecisionRunbookRecord {
    let plan = plan();
    let (manifest, material_contract) = material_contract(&plan);
    let instance = materialize(observation_runbook(runbook_id), &plan, &manifest, &material_contract);
    let context = observation_context(&plan, &manifest, &material_contract, &instance);
    let transition = plan
        .transition_after(
            "logs.grep_errors",
            &ExitStatusDecision {
                status: RuntimeExitStatus::new(Some(0), true),
                disposition: ExitDisposition::Continue,
                reason: "observation found no blocking evidence".to_string(),
            },
        )
        .expect("observation transition should form");
    let acknowledged = RuntimeAcknowledgedDecisionPath::new(
        &context,
        &transition,
        acknowledged_reason,
    );

    DecisionRunbookRecord::observation_only(
        &instance,
        &context_link(&context),
        &acknowledged_link(&acknowledged),
        recorded_reason,
    )
    .expect("observation-only record should form")
}

fn plan() -> RuntimeOperationPlan {
    RuntimeOperationPlan::new("nodeplan.bootstrap")
        .then(op("logs.grep_errors", "grep", &["ERROR", "nodeplan.log"]))
        .then(op("nodeplan.apply_dry_run", "nodeplanctl", &["apply", "--dry-run"]))
        .then(op("nodeplan.commit_receipt", "nodeplanctl", &["receipt", "commit"]))
}

fn guide() -> DecisionGuideTemplate {
    let path = DecisionPathTemplate::new(
        "nodeplan.error_review.path",
        "Ask one bounded question before dry-run apply.",
    )
    .step(DecisionPathStep::required_observation(
        "ask.error_pattern",
        "grep.pattern_search",
        "check.errors",
        "logs.grep_errors",
        "Need focused error evidence before deciding.",
    ))
    .step(DecisionPathStep::operation(
        "apply.dry_run",
        "nodeplan.apply_dry_run",
        "Dry-run can happen after required evidence exists.",
    ));

    DecisionGuideTemplate::new(
        "nodeplan.error_review.guide",
        "Decide whether the NodePlan dry-run should run.",
        path,
    )
    .ask(DecisionQuestionSpec::required(
        "check.errors",
        "logs.grep_errors",
        &grep_observation_tool(),
        "Did grep find blocking ERROR lines?",
    ))
}

#[test]
fn journal_appends_records_into_ordered_digest_chain() {
    let first = observation_record(
        "nodeplan.error_review.runbook",
        "operator accepted grep evidence",
        "grep evidence showed no blocking errors",
    );
    let second = observation_record(
        "nodeplan.process_review.runbook",
        "operator accepted process evidence",
        "process evidence allowed next step",
    );

    let journal = DecisionRunbookJournal::new("nodeplan.bootstrap.journal")
        .append(&first, "grep found no blocking ERROR lines")
        .append(&second, "pgrep/process review allowed dry-run path");

    assert_eq!(journal.entries.len(), 2);
    assert_eq!(journal.entries[0].previous_entry_digest, None);
    assert_eq!(journal.entries[1].previous_entry_digest, Some(journal.entries[0].digest()));
    assert_eq!(journal.digest(), journal.digest());

    let replay = journal.replay_steps();
    assert_eq!(replay.len(), 2);
    assert_eq!(replay[0].compact_summary, "grep found no blocking ERROR lines");
    assert!(journal.compact_context().contains("pgrep/process review allowed"));

    let validated = DecisionRunbookJournal::try_from_entries(
        "nodeplan.bootstrap.journal",
        journal.entries.clone(),
    )
    .expect("valid append-only entries should validate");
    assert_eq!(validated.digest(), journal.digest());
}

#[test]
fn journal_rejects_broken_previous_entry_link() {
    let first = observation_record("nodeplan.error_review.runbook", "ack one", "record one");
    let second = observation_record("nodeplan.process_review.runbook", "ack two", "record two");
    let journal = DecisionRunbookJournal::new("nodeplan.bootstrap.journal")
        .append(&first, "first summary")
        .append(&second, "second summary");
    let mut entries = journal.entries.clone();
    entries[1].previous_entry_digest = Some(StableDigest::sha256("wrong previous digest").as_str().to_string());

    let result = DecisionRunbookJournal::try_from_entries("nodeplan.bootstrap.journal", entries);

    assert!(matches!(
        result,
        Err(DecisionRunbookJournalError::PreviousEntryDigestMismatch { index: 1, .. })
    ));
}

#[test]
fn journal_rejects_out_of_order_index() {
    let first = observation_record("nodeplan.error_review.runbook", "ack one", "record one");
    let journal = DecisionRunbookJournal::new("nodeplan.bootstrap.journal")
        .append(&first, "first summary");
    let mut entries = journal.entries.clone();
    entries[0].index = 7;

    let result = DecisionRunbookJournal::try_from_entries("nodeplan.bootstrap.journal", entries);

    assert!(matches!(
        result,
        Err(DecisionRunbookJournalError::EntryIndexMismatch {
            expected_index: 0,
            actual_index: 7,
        })
    ));
}

#[test]
fn journal_rejects_duplicate_record_digest() {
    let record = observation_record("nodeplan.error_review.runbook", "ack one", "record one");
    let first = DecisionRunbookJournalEntry::new(0, None, &record, "first summary");
    let second = DecisionRunbookJournalEntry::new(1, Some(first.digest()), &record, "second summary");

    let result = DecisionRunbookJournal::try_from_entries(
        "nodeplan.bootstrap.journal",
        vec![first, second],
    );

    assert!(matches!(
        result,
        Err(DecisionRunbookJournalError::DuplicateRecordDigest {
            first_index: 0,
            duplicate_index: 1,
            ..
        })
    ));
}

#[test]
fn journal_digest_tracks_order_and_compact_summary() {
    let first = observation_record("nodeplan.error_review.runbook", "ack one", "record one");
    let second = observation_record("nodeplan.process_review.runbook", "ack two", "record two");

    let journal_a = DecisionRunbookJournal::new("nodeplan.bootstrap.journal")
        .append(&first, "first summary")
        .append(&second, "second summary");
    let journal_b = DecisionRunbookJournal::new("nodeplan.bootstrap.journal")
        .append(&second, "second summary")
        .append(&first, "first summary");
    let journal_c = DecisionRunbookJournal::new("nodeplan.bootstrap.journal")
        .append(&first, "changed first summary")
        .append(&second, "second summary");

    assert_ne!(journal_a.digest(), journal_b.digest());
    assert_ne!(journal_a.digest(), journal_c.digest());
}

#[test]
fn appending_keeps_earlier_replay_and_adds_one_step() {
    let first = observation_record("nodeplan.error_review.runbook", "ack one", "record one");
    let second = observation_record("nodeplan.process_review.runbook", "ack two", "record two");
    let one = DecisionRunbookJournal::new("j").append(&first, "s1");
    let two = one.clone().append(&second, "s2");
    let replay_one = one.replay_steps();
    let replay_two = two.replay_steps();
    assert_eq!(replay_two.len(), 2);
    assert_eq!(replay_two[0], replay_one[0]);
    assert_eq!(replay_two[1].index, 1);
    assert_eq!(replay_two[1].runbook_id, "nodeplan.process_review.runbook");
    assert_eq!(replay_two[1].mode, DecisionRunbookMode::ObservationOnly);
    assert_eq!(replay_two[1].record_digest, second.digest());
    assert_eq!(replay_two[1].compact_summary, "s2");
    assert!(DecisionRunbookJournal::try_from_entries("j", two.entries.clone()).is_ok());
    assert_eq!(two.entries[1].previous_entry_digest, Some(two.entries[0].digest()));
}

#[test]
fn appending_the_same_record_twice_breaks_the_chain() {
    let record = observation_record("nodeplan.error_review.runbook", "ack one", "record one");
    let journal = DecisionRunbookJournal::new("j").append(&record, "a").append(&record, "b");
    let result = DecisionRunbookJournal::try_from_entries("j", journal.entries.clone());
    assert_eq!(
        result,
        Err(DecisionRunbookJournalError::DuplicateRecordDigest {
            first_index: 0,
            duplicate_index: 1,
            record_digest: record.digest(),
        })
    );
}

#[test]
fn journal_compact_context_and_material_layout() {
    let record = observation_record("nodeplan.error_review.runbook", "ack one", "record one");
    let journal = DecisionRunbookJournal::new("j").append(&record, "only summary");
    let context = journal.compact_context();
    assert!(context.contains("only summary"));
    assert!(context.contains("nodeplan.error_review.runbook"));
    let material = journal.stable_material();
    assert!(material.starts_with("xccute.decisions.runbook.journal.v1\njournal_id.len=1\njournal_id=j\n"));
    assert!(material.contains(&format!("entry[0].digest={}", journal.entries[0].digest())));
    let empty = DecisionRunbookJournal::new("j");
    assert!(empty.replay_steps().is_empty());
    assert!(DecisionRunbookJournal::try_from_entries("j", Vec::new()).is_ok());
    assert_ne!(empty.digest(), journal.digest());
    let entry = &journal.entries[0];
    assert_eq!(entry.record_digest, record.digest());
    assert_eq!(entry.contract_digest, record.contract_digest);
    assert_eq!(entry.compact_summary, "only summary");
    assert!(entry.stable_material().starts_with("xccute.decisions.runbook.journal.entry.v1\n"));
}
