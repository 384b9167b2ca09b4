use xccute_decisions::guide::{DecisionGuideTemplate, DecisionGuideTemplateError, DecisionQuestionSpec};
use xccute_decisions::observation_tool::grep_observation_tool;
use xccute_decisions::path::{DecisionPathStep, DecisionPathTemplate};
use xccute_decisions::runbook::{
    DecisionConnectorSpec, DecisionRunbookMode, DecisionRunbookTemplate, DecisionRunbookTemplateError,
};
use xccute_decisions::runtime_model::{
    ConnectorError, MaterialManifestLink, OperationLink, OperationPlanLink, PlanMaterialContract,
};
use xccute_runtime::{
    RuntimeConnectorCall, RuntimeConnectorIdentity, RuntimeMaterialManifest, RuntimeOperation,
    RuntimeOperationPlan, RuntimePlanMaterialContract,
};

fn op(logical_id: &str, program: &str, argv: &[&str]) -> RuntimeOperation {
    RuntimeOperation::new(
        logical_id,
        program.into(),
        argv.iter().map(|arg| (*arg).into()).collect(),
        format!("{} {}", program, argv.join(" ")),
    )
}

fn runtime_plan() -> RuntimeOperationPlan {
    RuntimeOperationPlan::new("nodeplan.bootstrap")
        .then(op("logs.grep_errors", "grep", &["ERROR", "nodeplan.log"]))
        .then(op("nodeplan.apply_dry_run", "nodeplanctl", &["apply", "--dry-run"]))
}

fn plan_link(plan: &RuntimeOperationPlan) -> OperationPlanLink {
    OperationPlanLink {
        plan_id: plan.plan_id.clone(),
        digest: plan.digest().as_str().to_string(),
        operations: plan
            .operations
            .iter()
            .map(|operation| OperationLink {
                logical_id: operation.logical_id.clone(),
                digest: operation.digest().as_str().to_string(),
            })
            .collect(),
    }
}

fn manifest_link(manifest: &RuntimeMaterialManifest) -> MaterialManifestLink {
    MaterialManifestLink {
        manifest_id: manifest.manifest_id.clone(),
        digest: manifest.digest().as_str().to_string(),
    }
}

fn plan() -> OperationPlanLink {
    plan_link(&runtime_plan())
}

fn material_contract(plan: &OperationPlanLink) -> (MaterialManifestLink, PlanMaterialContract) {
    let manifest = manifest_link(&RuntimeMaterialManifest::new("nodeplan.materials"));
    let contract = PlanMaterialContract::new(plan, &manifest);
    (manifest, contract)
}

fn guide() -> DecisionGuideTemplate {
    let path = DecisionPathTemplate::new(
        "nodeplan.error_review.path",
        "Ask one bounded question before dry-run apply.",
    )
    .step(DecisionPathStep::required_observation(
        "ask.error_pattern",
        "grep.pattern_search",
        "check.errors",
        "logs.grep_errors",
        "Need focused error evidence before deciding.",
    ))
    .step(DecisionPathStep::operation(
        "apply.dry_run",
        "nodeplan.apply_dry_run",
        "Dry-run can happen after required evidence exists.",
    ));

    DecisionGuideTemplate::new(
        "nodeplan.error_review.guide",
        "Decide whether the NodePlan dry-run should run.",
        path,
    )
    .ask(DecisionQuestionSpec::required(
        "check.errors",
        "logs.grep_errors",
        &grep_observation_tool(),
        "Did grep find blocking ERROR lines?",
    ))
}

#[test]
fn runbook_links_guide_plan_material_contract_and_connector_call() {
    let plan = plan();
    let (manifest, material_contract) = material_contract(&plan);
    let runbook = DecisionRunbookTemplate::connector_execution(
        "nodeplan.bootstrap.runbook",
        "NodePlan bootstrap should ask focused questions before dry-run apply.",
        guide(),
        DecisionConnectorSpec::nodeplan(
            "nodeplan.local",
            "apply_dry_run",
            "nodeplan.apply_dry_run",
            "Run only after required observation evidence is available.",
        ),
    );

    let instance = runbook
        .materialize(&plan, &manifest, &material_contract, "nodeplan.observations")
        .expect("valid runbook materializes");

    assert_eq!(instance.contract.mode, DecisionRunbookMode::ConnectorExecution);
    assert_eq!(instance.contract.plan_digest, plan.digest);
    assert_eq!(
        instance.contract.material_contract_digest,
        material_contract.digest()
    );
    assert_eq!(
        instance.connector_call.as_ref().unwrap().operation_logical_id,
        "nodeplan.apply_dry_run"
    );
    assert_eq!(
        instance.contract.connector_call_digest,
        Some(instance.connector_call.as_ref().unwrap().digest())
    );
    assert_eq!(instance.runtime_guide.required_questions().len(), 1);
    assert_eq!(instance.observation_plan.requirements.len(), 1);
}

#[test]
fn observation_only_runbook_has_no_connector_call_but_still_links_materials() {
    let plan = plan();
    let (manifest, material_contract) = material_contract(&plan);
    let runbook = DecisionRunbookTemplate::observation_only(
        "nodeplan.observe.runbook",
        "Collect bounded evidence without launching connector execution.",
        guide(),
    );

    let instance = runbook
        .materialize(&plan, &manifest, &material_contract, "nodeplan.observations")
        .expect("observation-only runbook materializes");

    assert_eq!(instance.contract.mode, DecisionRunbookMode::ObservationOnly);
    assert!(instance.connector_call.is_none());
    assert!(instance.contract.connector_spec_digest.is_none());
    assert!(instance.contract.connector_call_digest.is_none());
}

#[test]
fn connector_execution_runbook_requires_start_operation_to_exist_in_plan() {
    let plan = plan();
    let (manifest, material_contract) = material_contract(&plan);
    let runbook = DecisionRunbookTemplate::connector_execution(
        "nodeplan.bad.runbook",
        "Bad runbook points to an operation not present in the verified plan.",
        guide(),
        DecisionConnectorSpec::nodeplan(
            "nodeplan.local",
            "apply_dry_run",
            "nodeplan.missing_operation",
            "This should be rejected.",
        ),
    );

    let err = runbook
        .materialize(&plan, &manifest, &material_contract, "nodeplan.observations")
        .unwrap_err();

    assert_eq!(
        err,
        DecisionRunbookTemplateError::StartOperationNotInPlan {
            operation_logical_id: "nodeplan.missing_operation".to_string()
        }
    );
}

#[test]
fn runbook_rejects_plan_material_contract_from_a_different_plan() {
    let plan = plan();
    let other_plan = plan_link(
        &RuntimeOperationPlan::new("other.plan").then(op("logs.grep_errors", "grep", &["ERROR", "other.log"])),
    );
    let manifest = manifest_link(&RuntimeMaterialManifest::new("nodeplan.materials"));
    let wrong_contract = PlanMaterialContract::new(&other_plan, &manifest);
    let runbook = DecisionRunbookTemplate::observation_only(
        "nodeplan.observe.runbook",
        "This should reject the mismatched plan/material link.",
        guide(),
    );

    let err = runbook
        .materialize(&plan, &manifest, &wrong_contract, "nodeplan.observations")
        .unwrap_err();

    assert!(matches!(
        err,
        DecisionRunbookTemplateError::MaterialContractPlanMismatch { .. }
    ));
}

#[test]
fn runbook_digest_tracks_connector_function_changes() {
    let runbook_a = DecisionRunbookTemplate::connector_execution(
        "nodeplan.bootstrap.runbook",
        "NodePlan bootstrap should ask focused questions before apply.",
        guide(),
        DecisionConnectorSpec::nodeplan(
            "nodeplan.local",
            "apply_dry_run",
            "nodeplan.apply_dry_run",
            "Run dry-run.",
        ),
    );
    let runbook_b = DecisionRunbookTemplate::connector_execution(
        "nodeplan.bootstrap.runbook",
        "NodePlan bootstrap should ask focused questions before apply.",
        guide(),
        DecisionConnectorSpec::nodeplan(
            "nodeplan.local",
            "commit_receipt",
            "nodeplan.apply_dry_run",
            "Commit receipt.",
        ),
    );

    assert_ne!(runbook_a.digest(), runbook_b.digest());
}

#[test]
fn material_contract_and_connector_call_match_the_runtime() {
    let runtime_plan = runtime_plan();
    let runtime_manifest = RuntimeMaterialManifest::new("nodeplan.materials");
    let runtime_contract = RuntimePlanMaterialContract::new(&runtime_plan, &runtime_manifest);
    let plan = plan_link(&runtime_plan);
    let (_, contract) = material_contract(&plan);
    assert_eq!(contract.digest(), runtime_contract.digest().as_str());
    assert_eq!(contract.stable_material(), runtime_contract.stable_material());

    let spec = DecisionConnectorSpec::denv("denv.local", "apply", "nodeplan.apply_dry_run", "because");
    assert_eq!(spec.connector_kind, "denv");
    assert_eq!(spec.service, "denv-control");
    let call = spec.materialize_call(&plan).expect("call forms");
    let runtime_call = RuntimeConnectorCall::for_operation(
        RuntimeConnectorIdentity::new("denv.local", "denv"),
        "denv-control",
        "apply",
        &runtime_plan,
        runtime_plan.operation_by_logical_id("nodeplan.apply_dry_run").unwrap(),
        "because",
    )
    .expect("runtime call forms");
    assert_eq!(call.stable_material(), runtime_call.stable_material());
    assert_eq!(call.digest(), runtime_call.digest().as_str());
    assert_eq!(call.operation_digest, runtime_plan.operations[1].digest().as_str());
}

#[test]
fn connector_spec_operation_lookup_and_identity() {
    let plan = plan();
    let spec = DecisionConnectorSpec::new("c.id", "c.kind", "svc", "fn", "logs.grep_errors", "r");
    assert_eq!(spec.identity().connector_id, "c.id");
    assert_eq!(spec.identity().connector_kind, "c.kind");
    assert_eq!(spec.operation(&plan).expect("present").digest, plan.operations[0].digest);
    let missing = DecisionConnectorSpec::nodeplan("c", "f", "absent.op", "r");
    assert_eq!(missing.connector_kind, "nodeplan");
    assert_eq!(missing.service, "nodeplan-control");
    assert_eq!(
        missing.operation(&plan),
        Err(DecisionRunbookTemplateError::StartOperationNotInPlan {
            operation_logical_id: "absent.op".to_string()
        })
    );
    assert!(missing.materialize_call(&plan).is_err());
    assert_eq!(spec.digest(), spec.digest());
    assert_ne!(spec.digest(), missing.digest());
}

#[test]
fn runbook_shape_is_checked_before_anything_else() {
    let plan = plan();
    let (manifest, material_contract) = material_contract(&plan);
    let mut observation_with_connector = DecisionRunbookTemplate::observation_only("r", "p", guide());
    observation_with_connector.connector =
        Some(DecisionConnectorSpec::nodeplan("c", "f", "nodeplan.apply_dry_run", "r"));
    assert_eq!(
        observation_with_connector.validate_connector_shape(),
        Err(DecisionRunbookTemplateError::UnexpectedConnectorForObservationOnly)
    );
    assert_eq!(
        observation_with_connector
            .materialize(&plan, &manifest, &material_contract, "obs")
            .unwrap_err(),
        DecisionRunbookTemplateError::UnexpectedConnectorForObservationOnly
    );

    let mut execution_without_connector = DecisionRunbookTemplate::connector_execution(
        "r",
        "p",
        guide(),
        DecisionConnectorSpec::nodeplan("c", "f", "nodeplan.apply_dry_run", "r"),
    );
    execution_without_connector.connector = None;
    assert_eq!(
        execution_without_connector.validate_connector_shape(),
        Err(DecisionRunbookTemplateError::MissingConnectorForExecution)
    );
    assert_eq!(DecisionRunbookMode::ObservationOnly.stable_label(), "observation_only");
    assert_eq!(DecisionRunbookMode::ConnectorExecution.stable_label(), "connector_execution");
}

#[test]
fn runbook_reports_guide_and_manifest_errors() {
    let plan = plan();
    let (manifest, material_contract) = material_contract(&plan);
    let uncovered = DecisionGuideTemplate::new(
        "g",
        "goal",
        DecisionPathTemplate::new("p", "g").step(DecisionPathStep::required_observation(
            "s", "t", "q", "o", "r",
        )),
    );
    let runbook = DecisionRunbookTemplate::observation_only("r", "p", uncovered);
    assert_eq!(
        runbook.materialize(&plan, &manifest, &material_contract, "obs").unwrap_err(),
        DecisionRunbookTemplateError::Guide(DecisionGuideTemplateError::MissingRequiredPathQuestions {
            missing_question_ids: vec!["q".to_string()],
        })
    );

    let other_manifest = manifest_link(&RuntimeMaterialManifest::new("other.materials"));
    let err = DecisionRunbookTemplate::observation_only("r", "p", guide())
        .materialize(&plan, &other_manifest, &material_contract, "obs")
        .unwrap_err();
    assert_eq!(
        err,
        DecisionRunbookTemplateError::MaterialContractManifestMismatch {
            manifest_digest: other_manifest.digest.clone(),
            material_manifest_digest: material_contract.manifest_digest.clone(),
        }
    );
    let from_guide: DecisionRunbookTemplateError =
        DecisionGuideTemplateError::UnexpectedRequiredQuestion { question_ids: vec![] }.into();
    assert!(matches!(from_guide, DecisionRunbookTemplateError::Guide(_)));
    let from_connector: DecisionRunbookTemplateError = ConnectorError::OperationNotInPlan {
        logical_id: "o".to_string(),
    }
    .into();
    assert!(matches!(from_connector, DecisionRunbookTemplateError::Connector(_)));
}

#[test]
fn instance_digest_names_its_parts() {
    let plan = plan();
    let (manifest, material_contract) = material_contract(&plan);
    let instance = DecisionRunbookTemplate::observation_only("r", "p", guide())
        .materialize(&plan, &manifest, &material_contract, "obs")
        .expect("instance");
    assert_eq!(instance.contract.plan_id, "nodeplan.bootstrap");
    assert_eq!(instance.contract.guide_digest, guide().digest());
    assert_eq!(instance.contract.path_digest, guide().path.digest());
    assert_eq!(
        instance.contract.source_digest,
        DecisionRunbookTemplate::observation_only("r", "p", guide()).digest()
    );
    assert!(instance.contract.stable_material().contains("mode=observation_only\n"));
    assert_eq!(instance.digest(), instance.digest());
    assert_eq!(instance.observation_plan.observation_plan_id, "obs");
}

#[test]
fn connector_spec_material_changes_with_each_field() {
    let base = DecisionConnectorSpec::new("id", "kind", "svc", "fn", "op", "why");
    assert_eq!(base.stable_material(), base.clone().stable_material());
    let variants = [
        DecisionConnectorSpec::new("id2", "kind", "svc", "fn", "op", "why"),
        DecisionConnectorSpec::new("id", "kind2", "svc", "fn", "op", "why"),
        DecisionConnectorSpec::new("id", "kind", "svc2", "fn", "op", "why"),
        DecisionConnectorSpec::new("id", "kind", "svc", "fn2", "op", "why"),
        DecisionConnectorSpec::new("id", "kind", "svc", "fn", "op2", "why"),
        DecisionConnectorSpec::new("id", "kind", "svc", "fn", "op", "why2"),
        DecisionConnectorSpec::new("i", "dkind", "svc", "fn", "op", "why"),
    ];
    for variant in &variants {
        assert_ne!(variant.stable_material(), base.stable_material());
    }
    assert!(base.stable_material().starts_with("xccute.decisions.connector.spec.v1\nconnector_id.len=2\nconnector_id=id\n"));
}
