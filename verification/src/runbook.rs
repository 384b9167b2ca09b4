//! Decision runbooks for bundling guides, plans, material contracts, and
//! connector intent.
//!
//! A runbook is still source-level decision material. It does not execute. It
//! says which guide is allowed to ask questions, which runtime plan it applies
//! to, which material contract must gate the work, and which connector
//! operation is allowed to start the external call. Runtime remains
//! responsible for verifying materials, running connector calls, and producing
//! receipts.

use crate::guide::{DecisionGuideTemplate, DecisionGuideTemplateError};
use crate::runtime_model::{
    first_operation_index, ConnectorCall, ConnectorError, ConnectorIdentity, DecisionGuide,
    MaterialManifestLink, ObservationPlan, OperationLink, OperationPlanLink, PlanMaterialContract,
};
use crate::stable::{
    lemma_cancel_prefix, lemma_stable_fields_injective, opt_str, opt_text, push_stable_field,
    sha256_digest, sha256_hex, stable_field, stable_fields, text_fits, text_of,
};
use vstd::prelude::*;

verus! {

#[derive(Debug, Clone, Copy, PartialEq, Eq, Structural)]
pub enum DecisionRunbookMode {
    ObservationOnly,
    ConnectorExecution,
}

impl DecisionRunbookMode {
    pub open spec fn label_text(self) -> Seq<char> {
        match self {
            DecisionRunbookMode::ObservationOnly => "observation_only"@,
            DecisionRunbookMode::ConnectorExecution => "connector_execution"@,
        }
    }

    pub fn stable_label(&self) -> (label: &'static str)
        ensures
            label@ == self.label_text(),
    {
        match self {
            DecisionRunbookMode::ObservationOnly => "observation_only",
            DecisionRunbookMode::ConnectorExecution => "connector_execution",
        }
    }
}

#[derive(Debug, Clone, PartialEq, Eq)]
pub enum DecisionRunbookTemplateError {
    Guide(DecisionGuideTemplateError),
    MissingConnectorForExecution,
    UnexpectedConnectorForObservationOnly,
    StartOperationNotInPlan { operation_logical_id: String },
    MaterialContractPlanMismatch { plan_digest: String, material_plan_digest: String },
    MaterialContractManifestMismatch { manifest_digest: String, material_manifest_digest: String },
    Connector(ConnectorError),
}

impl From<DecisionGuideTemplateError> for DecisionRunbookTemplateError {
    fn from(value: DecisionGuideTemplateError) -> (error: Self) {
        DecisionRunbookTemplateError::Guide(value)
    }
}

impl vstd::std_specs::convert::FromSpecImpl<DecisionGuideTemplateError> for DecisionRunbookTemplateError {
    open spec fn obeys_from_spec() -> bool {
        true
    }

    open spec fn from_spec(v: DecisionGuideTemplateError) -> Self {
        DecisionRunbookTemplateError::Guide(v)
    }
}

impl From<ConnectorError> for DecisionRunbookTemplateError {
    fn from(value: ConnectorError) -> (error: Self) {
        DecisionRunbookTemplateError::Connector(value)
    }
}

impl vstd::std_specs::convert::FromSpecImpl<ConnectorError> for DecisionRunbookTemplateError {
    open spec fn obeys_from_spec() -> bool {
        true
    }

    open spec fn from_spec(v: ConnectorError) -> Self {
        DecisionRunbookTemplateError::Connector(v)
    }
}

pub type DecisionRunbookTemplateResult<T> = Result<T, DecisionRunbookTemplateError>;

#[derive(Debug, Clone, PartialEq, Eq)]
pub struct DecisionConnectorSpec {
    pub connector_id: String,
    pub connector_kind: String,
    pub service: String,
    pub function: String,
    pub operation_logical_id: String,
    pub requested_reason: String,
}

impl DecisionConnectorSpec {
    #[verifier::opaque]
    pub open spec fn material(self) -> Seq<char> {
        "xccute.decisions.connector.spec.v1\n"@
            + stable_field("connector_id"@, self.connector_id@)
            + stable_field("connector_kind"@, self.connector_kind@)
            + stable_field("service"@, self.service@)
            + stable_field("function"@, self.function@)
            + stable_field("operation_logical_id"@, self.operation_logical_id@)
            + stable_field("requested_reason"@, self.requested_reason@)
    }

    /// The connector call this spec starts for a plan: its identity, service,
    /// function and reason, for the plan's first operation with the spec's
    /// operation id.
    pub open spec fn is_call_for(self, plan: OperationPlanLink, call: ConnectorCall) -> bool {
        match first_operation_index(plan.operations@, self.operation_logical_id@) {
            Some(index) => call == ConnectorCall {
                connector: ConnectorIdentity {
                    connector_id: self.connector_id,
                    connector_kind: self.connector_kind,
                },
                service: self.service,
                function: self.function,
                plan_id: plan.plan_id,
                plan_digest: plan.digest,
                operation_logical_id: plan.operations@[index].logical_id,
                operation_digest: plan.operations@[index].digest,
                requested_reason: self.requested_reason,
            },
            None => false,
        }
    }

    pub fn new(
        connector_id: &str,
        connector_kind: &str,
        service: &str,
        function: &str,
        operation_logical_id: &str,
        requested_reason: &str,
    ) -> (spec: Self)
        ensures
            spec.connector_id@ == connector_id@,
            spec.connector_kind@ == connector_kind@,
            spec.service@ == service@,
            spec.function@ == function@,
            spec.operation_logical_id@ == operation_logical_id@,
            spec.requested_reason@ == requested_reason@,
    {
        DecisionConnectorSpec {
            connector_id: text_of(connector_id),
            connector_kind: text_of(connector_kind),
            service: text_of(service),
            function: text_of(function),
            operation_logical_id: text_of(operation_logical_id),
            requested_reason: text_of(requested_reason),
        }
    }

    /// A NodePlan connector: kind `nodeplan`, service `nodeplan-control`.
    pub fn nodeplan(
        connector_id: &str,
        function: &str,
        operation_logical_id: &str,
        requested_reason: &str,
    ) -> (spec: Self)
        ensures
            spec.connector_id@ == connector_id@,
            spec.connector_kind@ == "nodeplan"@,
            spec.service@ == "nodeplan-control"@,
            spec.function@ == function@,
            spec.operation_logical_id@ == operation_logical_id@,
            spec.requested_reason@ == requested_reason@,
    {
        Self::new(
            connector_id,
            "nodeplan",
            "nodeplan-control",
            function,
            operation_logical_id,
            requested_reason,
        )
    }

    /// A denv connector: kind `denv`, service `denv-control`.
    pub fn denv(
        connector_id: &str,
        function: &str,
        operation_logical_id: &str,
        requested_reason: &str,
    ) -> (spec: Self)
        ensures
            spec.connector_id@ == connector_id@,
            spec.connector_kind@ == "denv"@,
            spec.service@ == "denv-control"@,
            spec.function@ == function@,
            spec.operation_logical_id@ == operation_logical_id@,
            spec.requested_reason@ == requested_reason@,
    {
        Self::new(connector_id, "denv", "denv-control", function, operation_logical_id, requested_reason)
    }

    pub fn identity(&self) -> (identity: ConnectorIdentity)
        ensures
            identity.connector_id == self.connector_id,
            identity.connector_kind == self.connector_kind,
    {
        ConnectorIdentity::new(self.connector_id.clone(), self.connector_kind.clone())
    }

    /// The plan's first operation with this spec's operation id; refused when
    /// the plan has none.
    pub fn operation(&self, plan: &OperationPlanLink) -> (found: DecisionRunbookTemplateResult<OperationLink>)
        ensures
            match first_operation_index(plan.operations@, self.operation_logical_id@) {
                Some(index) => found == Ok::<OperationLink, DecisionRunbookTemplateError>(
                    plan.operations@[index],
                ),
                None => found == Err::<OperationLink, DecisionRunbookTemplateError>(
                    DecisionRunbookTemplateError::StartOperationNotInPlan {
                        operation_logical_id: self.operation_logical_id,
                    },
                ),
            },
    {
        match plan.operation_by_logical_id(self.operation_logical_id.as_str()) {
            Some(operation) => Ok(operation),
            None => Err(
                DecisionRunbookTemplateError::StartOperationNotInPlan {
                    operation_logical_id: self.operation_logical_id.clone(),
                },
            ),
        }
    }

    pub fn materialize_call(&self, plan: &OperationPlanLink) -> (call: DecisionRunbookTemplateResult<ConnectorCall>)
        ensures
            call is Ok <==> (first_operation_index(plan.operations@, self.operation_logical_id@)
                is Some),
            call matches Ok(c) ==> self.is_call_for(*plan, c),
            call matches Err(error) ==> error == (DecisionRunbookTemplateError::StartOperationNotInPlan {
                operation_logical_id: self.operation_logical_id,
            }),
    {
        let operation = match self.operation(plan) {
            Ok(operation) => operation,
            Err(error) => { return Err(error); },
        };
        let ghost index = first_operation_index(plan.operations@, self.operation_logical_id@)->0;
        proof {
            crate::runtime_model::lemma_first_operation_index(
                plan.operations@,
                self.operation_logical_id@,
            );
            assert(plan.operations@[index].digest@ == operation.digest@);
        }
        match ConnectorCall::for_operation(
            self.identity(),
            self.service.clone(),
            self.function.clone(),
            plan,
            &operation,
            self.requested_reason.clone(),
        ) {
            Ok(call) => Ok(call),
            Err(error) => Err(DecisionRunbookTemplateError::from(error)),
        }
    }

    pub fn stable_material(&self) -> (material: String)
        ensures
            material@ == self.material(),
    {
        let mut material = text_of("xccute.decisions.connector.spec.v1\n");
        push_stable_field(&mut material, "connector_id", self.connector_id.as_str());
        push_stable_field(&mut material, "connector_kind", self.connector_kind.as_str());
        push_stable_field(&mut material, "service", self.service.as_str());
        push_stable_field(&mut material, "function", self.function.as_str());
        push_stable_field(&mut material, "operation_logical_id", self.operation_logical_id.as_str());
        push_stable_field(&mut material, "requested_reason", self.requested_reason.as_str());
        proof {
            reveal(DecisionConnectorSpec::material);
        }
        material
    }

    pub fn digest(&self) -> (digest: String)
        ensures
            digest@ == sha256_hex(self.material()),
    {
        let material = self.stable_material();
        sha256_digest(material.as_str())
    }
}

/// The digest of an optional value's material, as a stable material writes it.
pub open spec fn opt_connector_digest(spec: Option<DecisionConnectorSpec>) -> Option<Seq<char>> {
    match spec {
        Some(c) => Some(sha256_hex(c.material())),
        None => None,
    }
}

pub open spec fn opt_call_digest(call: Option<ConnectorCall>) -> Option<Seq<char>> {
    match call {
        Some(c) => Some(sha256_hex(c.material())),
        None => None,
    }
}

/// The text of an optional digest: the digest, or nothing when absent.
pub open spec fn opt_digest_text(digest: Option<Seq<char>>) -> Seq<char> {
    match digest {
        Some(d) => d,
        None => ""@,
    }
}

#[derive(Debug, Clone, PartialEq, Eq)]
pub struct DecisionRunbookContract {
    pub runbook_id: String,
    pub purpose: String,
    pub mode: DecisionRunbookMode,
    pub guide_digest: String,
    pub path_digest: String,
    pub plan_id: String,
    pub plan_digest: String,
    pub material_contract_digest: String,
    pub connector_spec_digest: Option<String>,
    pub connector_call_digest: Option<String>,
    pub source_digest: String,
}

impl DecisionRunbookContract {
    #[verifier::opaque]
    pub open spec fn material(self) -> Seq<char> {
        "xccute.decisions.runbook.contract.v1\n"@
            + stable_field("runbook_id"@, self.runbook_id@)
            + stable_field("purpose"@, self.purpose@)
            + stable_field("mode"@, self.mode.label_text())
            + stable_field("guide_digest"@, self.guide_digest@)
            + stable_field("path_digest"@, self.path_digest@)
            + stable_field("plan_id"@, self.plan_id@)
            + stable_field("plan_digest"@, self.plan_digest@)
            + stable_field("material_contract_digest"@, self.material_contract_digest@)
            + stable_field("connector_spec_digest"@, opt_text(self.connector_spec_digest))
            + stable_field("connector_call_digest"@, opt_text(self.connector_call_digest))
            + stable_field("source_digest"@, self.source_digest@)
    }

    pub fn stable_material(&self) -> (material: String)
        ensures
            material@ == self.material(),
    {
        let mut material = text_of("xccute.decisions.runbook.contract.v1\n");
        push_stable_field(&mut material, "runbook_id", self.runbook_id.as_str());
        push_stable_field(&mut material, "purpose", self.purpose.as_str());
        push_stable_field(&mut material, "mode", self.mode.stable_label());
        push_stable_field(&mut material, "guide_digest", self.guide_digest.as_str());
        push_stable_field(&mut material, "path_digest", self.path_digest.as_str());
        push_stable_field(&mut material, "plan_id", self.plan_id.as_str());
        push_stable_field(&mut material, "plan_digest", self.plan_digest.as_str());
        push_stable_field(
            &mut material,
            "material_contract_digest",
            self.material_contract_digest.as_str(),
        );
        push_stable_field(
            &mut material,
            "connector_spec_digest",
            opt_str(&self.connector_spec_digest),
        );
        push_stable_field(
            &mut material,
            "connector_call_digest",
            opt_str(&self.connector_call_digest),
        );
        push_stable_field(&mut material, "source_digest", self.source_digest.as_str());
        proof {
            reveal(DecisionRunbookContract::material);
        }
        material
    }

    pub fn digest(&self) -> (digest: String)
        ensures
            digest@ == sha256_hex(self.material()),
    {
        let material = self.stable_material();
        sha256_digest(material.as_str())
    }
}

#[derive(Debug, Clone, PartialEq, Eq)]
pub struct DecisionRunbookInstance {
    pub contract: DecisionRunbookContract,
    pub runtime_guide: DecisionGuide,
    pub observation_plan: ObservationPlan,
    pub connector_call: Option<ConnectorCall>,
}

impl DecisionRunbookInstance {
    #[verifier::opaque]
    pub open spec fn material(self) -> Seq<char> {
        "xccute.decisions.runbook.instance.v1\n"@
            + stable_field("contract_digest"@, sha256_hex(self.contract.material()))
            + stable_field("runtime_guide_digest"@, sha256_hex(self.runtime_guide.material()))
            + stable_field(
                "observation_plan_digest"@,
                sha256_hex(self.observation_plan.material()),
            )
            + stable_field(
                "connector_call_digest"@,
                opt_digest_text(opt_call_digest(self.connector_call)),
            )
    }

    pub fn digest(&self) -> (digest: String)
        ensures
            digest@ == sha256_hex(self.material()),
    {
        let mut material = text_of("xccute.decisions.runbook.instance.v1\n");
        let contract_digest = self.contract.digest();
        push_stable_field(&mut material, "contract_digest", contract_digest.as_str());
        let guide_digest = self.runtime_guide.digest();
        push_stable_field(&mut material, "runtime_guide_digest", guide_digest.as_str());
        let observation_plan_digest = self.observation_plan.digest();
        push_stable_field(
            &mut material,
            "observation_plan_digest",
            observation_plan_digest.as_str(),
        );
        let connector_call_digest = match &self.connector_call {
            Some(call) => call.digest(),
            None => text_of(""),
        };
        push_stable_field(&mut material, "connector_call_digest", connector_call_digest.as_str());
        proof {
            reveal(DecisionRunbookInstance::material);
        }
        sha256_digest(material.as_str())
    }
}

#[derive(Debug, Clone, PartialEq, Eq)]
pub struct DecisionRunbookTemplate {
    pub runbook_id: String,
    pub purpose: String,
    pub mode: DecisionRunbookMode,
    pub guide: DecisionGuideTemplate,
    pub connector: Option<DecisionConnectorSpec>,
}

impl DecisionRunbookTemplate {
    /// The error a mode/connector mismatch is reported with, if any: an
    /// observation-only runbook must have no connector, a connector-execution
    /// runbook must have one.
    pub open spec fn shape_error(self) -> Option<DecisionRunbookTemplateError> {
        match (self.mode, self.connector) {
            (DecisionRunbookMode::ObservationOnly, None) => None,
            (DecisionRunbookMode::ObservationOnly, Some(_)) => Some(
                DecisionRunbookTemplateError::UnexpectedConnectorForObservationOnly,
            ),
            (DecisionRunbookMode::ConnectorExecution, Some(_)) => None,
            (DecisionRunbookMode::ConnectorExecution, None) => Some(
                DecisionRunbookTemplateError::MissingConnectorForExecution,
            ),
        }
    }

    /// Whether the runbook materializes against a plan, manifest and material
    /// contract: its shape is right, its guide covers its path, the material
    /// contract names this plan and this manifest, and the connector's start
    /// operation is in the plan.
    pub open spec fn materializes(
        self,
        plan: OperationPlanLink,
        manifest: MaterialManifestLink,
        material_contract: PlanMaterialContract,
    ) -> bool {
        &&& self.shape_error() is None
        &&& self.guide.covers_path()
        &&& material_contract.plan_digest@ == plan.digest@
        &&& material_contract.manifest_digest@ == manifest.digest@
        &&& (self.connector matches Some(c) ==> first_operation_index(
            plan.operations@,
            c.operation_logical_id@,
        ) is Some)
    }

    /// Whether an error is the one materialization reports: checks run in the
    /// order shape, path coverage, plan digest, manifest digest, start
    /// operation.
    pub open spec fn materialize_error(
        self,
        plan: OperationPlanLink,
        manifest: MaterialManifestLink,
        material_contract: PlanMaterialContract,
        error: DecisionRunbookTemplateError,
    ) -> bool {
        if self.shape_error() is Some {
            error == self.shape_error()->0
        } else if !self.guide.covers_path() {
            error matches DecisionRunbookTemplateError::Guide(guide_error)
                && self.guide.coverage_error(guide_error)
        } else if material_contract.plan_digest@ != plan.digest@ {
            error == (DecisionRunbookTemplateError::MaterialContractPlanMismatch {
                plan_digest: plan.digest,
                material_plan_digest: material_contract.plan_digest,
            })
        } else if material_contract.manifest_digest@ != manifest.digest@ {
            error == (DecisionRunbookTemplateError::MaterialContractManifestMismatch {
                manifest_digest: manifest.digest,
                material_manifest_digest: material_contract.manifest_digest,
            })
        } else {
            &&& self.connector is Some
            &&& error == (DecisionRunbookTemplateError::StartOperationNotInPlan {
                operation_logical_id: self.connector->0.operation_logical_id,
            })
        }
    }

    /// Whether an instance is the one this runbook materializes: the guide's
    /// runtime guide and observation plan, the connector's call, and a
    /// contract naming the runbook, guide, path, plan, material contract,
    /// connector spec, connector call and this template by their digests.
    pub open spec fn is_instance(
        self,
        plan: OperationPlanLink,
        material_contract: PlanMaterialContract,
        observation_plan_id: Seq<char>,
        instance: DecisionRunbookInstance,
    ) -> bool {
        &&& self.guide.is_runtime_guide(plan, instance.runtime_guide)
        &&& self.guide.is_observation_plan(plan, observation_plan_id, instance.observation_plan)
        &&& match self.connector {
            Some(c) => instance.connector_call matches Some(call) && c.is_call_for(plan, call),
            None => instance.connector_call is None,
        }
        &&& instance.contract.runbook_id == self.runbook_id
        &&& instance.contract.purpose == self.purpose
        &&& instance.contract.mode == self.mode
        &&& instance.contract.guide_digest@ == sha256_hex(self.guide.material())
        &&& instance.contract.path_digest@ == sha256_hex(self.guide.path.material())
        &&& instance.contract.plan_id == plan.plan_id
        &&& instance.contract.plan_digest == plan.digest
        &&& instance.contract.material_contract_digest@ == sha256_hex(material_contract.material())
        &&& crate::stable::opt_view(instance.contract.connector_spec_digest) == opt_connector_digest(
            self.connector,
        )
        &&& crate::stable::opt_view(instance.contract.connector_call_digest) == opt_call_digest(
            instance.connector_call,
        )
        &&& instance.contract.source_digest@ == sha256_hex(self.material())
    }

    #[verifier::opaque]
    pub open spec fn material(self) -> Seq<char> {
        "xccute.decisions.runbook.template.v1\n"@
            + stable_field("runbook_id"@, self.runbook_id@)
            + stable_field("purpose"@, self.purpose@)
            + stable_field("mode"@, self.mode.label_text())
            + stable_field("guide_digest"@, sha256_hex(self.guide.material()))
            + match self.connector {
                Some(c) => stable_field("connector_digest"@, sha256_hex(c.material())) + c.material(),
                None => stable_field("connector_digest"@, ""@),
            }
            + self.guide.material()
    }

    pub fn observation_only(runbook_id: &str, purpose: &str, guide: DecisionGuideTemplate) -> (runbook:
        Self)
        ensures
            runbook.runbook_id@ == runbook_id@,
            runbook.purpose@ == purpose@,
            runbook.mode == DecisionRunbookMode::ObservationOnly,
            runbook.guide == guide,
            runbook.connector is None,
    {
        DecisionRunbookTemplate {
            runbook_id: text_of(runbook_id),
            purpose: text_of(purpose),
            mode: DecisionRunbookMode::ObservationOnly,
            guide,
            connector: None,
        }
    }

    pub fn connector_execution(
        runbook_id: &str,
        purpose: &str,
        guide: DecisionGuideTemplate,
        connector: DecisionConnectorSpec,
    ) -> (runbook: Self)
        ensures
            runbook.runbook_id@ == runbook_id@,
            runbook.purpose@ == purpose@,
            runbook.mode == DecisionRunbookMode::ConnectorExecution,
            runbook.guide == guide,
            runbook.connector == Some(connector),
    {
        DecisionRunbookTemplate {
            runbook_id: text_of(runbook_id),
            purpose: text_of(purpose),
            mode: DecisionRunbookMode::ConnectorExecution,
            guide,
            connector: Some(connector),
        }
    }

    pub fn validate_connector_shape(&self) -> (result: DecisionRunbookTemplateResult<()>)
        ensures
            result is Ok <==> self.shape_error() is None,
            result matches Err(error) ==> self.shape_error() == Some(error),
    {
        match (&self.mode, &self.connector) {
            (DecisionRunbookMode::ObservationOnly, None) => Ok(()),
            (DecisionRunbookMode::ObservationOnly, Some(_)) => Err(
                DecisionRunbookTemplateError::UnexpectedConnectorForObservationOnly,
            ),
            (DecisionRunbookMode::ConnectorExecution, Some(_)) => Ok(()),
            (DecisionRunbookMode::ConnectorExecution, None) => Err(
                DecisionRunbookTemplateError::MissingConnectorForExecution,
            ),
        }
    }

    pub fn stable_material(&self) -> (material: String)
        ensures
            material@ == self.material(),
    {
        let mut material = text_of("xccute.decisions.runbook.template.v1\n");
        push_stable_field(&mut material, "runbook_id", self.runbook_id.as_str());
        push_stable_field(&mut material, "purpose", self.purpose.as_str());
        push_stable_field(&mut material, "mode", self.mode.stable_label());
        let guide_digest = self.guide.digest();
        push_stable_field(&mut material, "guide_digest", guide_digest.as_str());
        match &self.connector {
            Some(connector) => {
                let connector_digest = connector.digest();
                push_stable_field(&mut material, "connector_digest", connector_digest.as_str());
                let connector_material = connector.stable_material();
                material.append(connector_material.as_str());
            },
            None => {
                push_stable_field(&mut material, "connector_digest", "");
            },
        }
        let guide_material = self.guide.stable_material();
        material.append(guide_material.as_str());
        proof {
            reveal(DecisionRunbookTemplate::material);
            assert(material@ =~= self.material());
        }
        material
    }

    pub fn digest(&self) -> (digest: String)
        ensures
            digest@ == sha256_hex(self.material()),
    {
        let material = self.stable_material();
        sha256_digest(material.as_str())
    }

    pub fn materialize(
        &self,
        plan: &OperationPlanLink,
        manifest: &MaterialManifestLink,
        material_contract: &PlanMaterialContract,
        observation_plan_id: &str,
    ) -> (result: DecisionRunbookTemplateResult<DecisionRunbookInstance>)
        ensures
            result is Ok <==> self.materializes(*plan, *manifest, *material_contract),
            result matches Err(error) ==> self.materialize_error(
                *plan,
                *manifest,
                *material_contract,
                error,
            ),
            result matches Ok(instance) ==> self.is_instance(
                *plan,
                *material_contract,
                observation_plan_id@,
                instance,
            ),
    {
        match self.validate_connector_shape() {
            Err(error) => { return Err(error); },
            Ok(()) => {},
        }
        match self.guide.validate_path_coverage() {
            Err(error) => { return Err(DecisionRunbookTemplateError::from(error)); },
            Ok(()) => {},
        }
        if material_contract.plan_digest != plan.digest {
            return Err(
                DecisionRunbookTemplateError::MaterialContractPlanMismatch {
                    plan_digest: plan.digest.clone(),
                    material_plan_digest: material_contract.plan_digest.clone(),
                },
            );
        }
        if material_contract.manifest_digest != manifest.digest {
            return Err(
                DecisionRunbookTemplateError::MaterialContractManifestMismatch {
                    manifest_digest: manifest.digest.clone(),
                    material_manifest_digest: material_contract.manifest_digest.clone(),
                },
            );
        }
        let runtime_guide = match self.guide.materialize_runtime_guide(plan) {
            Ok(guide) => guide,
            Err(error) => { return Err(DecisionRunbookTemplateError::from(error)); },
        };
        let observation_plan = match self.guide.materialize_observation_plan(
            plan,
            observation_plan_id,
        ) {
            Ok(observations) => observations,
            Err(error) => { return Err(DecisionRunbookTemplateError::from(error)); },
        };
        let connector_call = match &self.connector {
            Some(connector) => match connector.materialize_call(plan) {
                Ok(call) => Some(call),
                Err(error) => { return Err(error); },
            },
            None => None,
        };
        let connector_spec_digest = match &self.connector {
            Some(connector) => Some(connector.digest()),
            None => None,
        };
        let connector_call_digest = match &connector_call {
            Some(call) => Some(call.digest()),
            None => None,
        };
        let contract = DecisionRunbookContract {
            runbook_id: self.runbook_id.clone(),
            purpose: self.purpose.clone(),
            mode: self.mode,
            guide_digest: self.guide.digest(),
            path_digest: self.guide.path.digest(),
            plan_id: plan.plan_id.clone(),
            plan_digest: plan.digest.clone(),
            material_contract_digest: material_contract.digest(),
            connector_spec_digest,
            connector_call_digest,
            source_digest: self.digest(),
        };
        Ok(DecisionRunbookInstance { contract, runtime_guide, observation_plan, connector_call })
    }
}

/// A materialized runbook's mode decides its connector side: an
/// observation-only instance carries no connector call and its contract no
/// connector digests; a connector-execution instance carries the call for
/// the connector's start operation, and its contract names that call and the
/// connector spec by their digests. Either way the contract names the plan
/// and the material contract it was checked against.
pub proof fn lemma_instance_mode_decides_connector(
    template: DecisionRunbookTemplate,
    plan: OperationPlanLink,
    manifest: MaterialManifestLink,
    material_contract: PlanMaterialContract,
    observation_plan_id: Seq<char>,
    instance: DecisionRunbookInstance,
)
    requires
        template.materializes(plan, manifest, material_contract),
        template.is_instance(plan, material_contract, observation_plan_id, instance),
    ensures
        instance.contract.mode == template.mode,
        instance.contract.plan_digest == plan.digest,
        instance.contract.material_contract_digest@ == sha256_hex(material_contract.material()),
        template.mode == DecisionRunbookMode::ObservationOnly ==> {
            &&& instance.connector_call is None
            &&& instance.contract.connector_spec_digest is None
            &&& instance.contract.connector_call_digest is None
        },
        template.mode == DecisionRunbookMode::ConnectorExecution ==> {
            &&& instance.connector_call matches Some(call)
            &&& call.operation_logical_id@ == template.connector->0.operation_logical_id@
            &&& call.plan_digest == plan.digest
            &&& crate::stable::opt_view(instance.contract.connector_call_digest) == Some(
                sha256_hex(call.material()),
            )
            &&& crate::stable::opt_view(instance.contract.connector_spec_digest) == Some(
                sha256_hex(template.connector->0.material()),
            )
        },
{
    match template.connector {
        Some(c) => {
            crate::runtime_model::lemma_first_operation_index(plan.operations@, c.operation_logical_id@);
        },
        None => {},
    }
}

/// The keys of a connector spec's fields, in material order.
pub open spec fn connector_spec_keys() -> Seq<Seq<char>> {
    seq!["connector_id"@, "connector_kind"@, "service"@, "function"@, "operation_logical_id"@, "requested_reason"@]
}

impl DecisionConnectorSpec {
    /// The texts of the spec's fields, in material order.
    pub open spec fn field_texts(self) -> Seq<Seq<char>> {
        seq![
            self.connector_id@,
            self.connector_kind@,
            self.service@,
            self.function@,
            self.operation_logical_id@,
            self.requested_reason@,
        ]
    }
}

proof fn lemma_connector_spec_material_as_fields(spec: DecisionConnectorSpec)
    ensures
        spec.material() == "xccute.decisions.connector.spec.v1\n"@ + stable_fields(
            connector_spec_keys(),
            spec.field_texts(),
        ),
{
    let k = connector_spec_keys();
    let v = spec.field_texts();
    let f0 = stable_field(k[0], v[0]);
    let f1 = stable_field(k[1], v[1]);
    let f2 = stable_field(k[2], v[2]);
    let f3 = stable_field(k[3], v[3]);
    let f4 = stable_field(k[4], v[4]);
    let f5 = stable_field(k[5], v[5]);
    assert(stable_fields(k.skip(6), v.skip(6)) == Seq::<char>::empty());
    assert(stable_fields(k.skip(5), v.skip(5)) == f5) by {
        assert(k.skip(5).drop_first() =~= k.skip(6));
        assert(v.skip(5).drop_first() =~= v.skip(6));
        assert(f5 + Seq::<char>::empty() =~= f5);
    }
    assert(stable_fields(k.skip(4), v.skip(4)) == f4 + f5) by {
        assert(k.skip(4).drop_first() =~= k.skip(5));
        assert(v.skip(4).drop_first() =~= v.skip(5));
    }
    assert(stable_fields(k.skip(3), v.skip(3)) == f3 + (f4 + f5)) by {
        assert(k.skip(3).drop_first() =~= k.skip(4));
        assert(v.skip(3).drop_first() =~= v.skip(4));
    }
    assert(stable_fields(k.skip(2), v.skip(2)) == f2 + (f3 + (f4 + f5))) by {
        assert(k.skip(2).drop_first() =~= k.skip(3));
        assert(v.skip(2).drop_first() =~= v.skip(3));
    }
    assert(stable_fields(k.skip(1), v.skip(1)) == f1 + (f2 + (f3 + (f4 + f5)))) by {
        assert(k.skip(1).drop_first() =~= k.skip(2));
        assert(v.skip(1).drop_first() =~= v.skip(2));
    }
    assert(stable_fields(k, v) == f0 + (f1 + (f2 + (f3 + (f4 + f5))))) by {
        assert(k.drop_first() =~= k.skip(1));
        assert(v.drop_first() =~= v.skip(1));
    }
    assert(spec.material() =~= "xccute.decisions.connector.spec.v1\n"@ + (f0 + (f1 + (f2 + (f3 + (
    f4 + f5)))))) by {
        reveal(DecisionConnectorSpec::material);
    }
}

/// A connector spec's stable material determines the spec: two specs have
/// the same material exactly when all six of their fields hold the same text
/// (for fields whose UTF-8 byte lengths fit a `usize`, as those of texts held
/// in memory do). Changing any one field, such as only the function, changes
/// the material.
pub proof fn lemma_connector_spec_material_determines_fields(
    a: DecisionConnectorSpec,
    b: DecisionConnectorSpec,
)
    requires
        text_fits(a.connector_id@),
        text_fits(b.connector_id@),
        text_fits(a.connector_kind@),
        text_fits(b.connector_kind@),
        text_fits(a.service@),
        text_fits(b.service@),
        text_fits(a.function@),
        text_fits(b.function@),
        text_fits(a.operation_logical_id@),
        text_fits(b.operation_logical_id@),
        text_fits(a.requested_reason@),
        text_fits(b.requested_reason@),
    ensures
        a.material() == b.material() <==> (a.connector_id@ == b.connector_id@ && a.connector_kind@ == b.connector_kind@ && a.service@ == b.service@ && a.function@ == b.function@ && a.operation_logical_id@ == b.operation_logical_id@ && a.requested_reason@ == b.requested_reason@),
{
    lemma_connector_spec_material_as_fields(a);
    lemma_connector_spec_material_as_fields(b);
    if a.material() == b.material() {
        let keys = connector_spec_keys();
        lemma_cancel_prefix(
            "xccute.decisions.connector.spec.v1\n"@,
            stable_fields(keys, a.field_texts()),
            stable_fields(keys, b.field_texts()),
        );
        lemma_stable_fields_injective(keys, a.field_texts(), b.field_texts());
        assert(a.field_texts()[0] == b.field_texts()[0]);
        assert(a.field_texts()[1] == b.field_texts()[1]);
        assert(a.field_texts()[2] == b.field_texts()[2]);
        assert(a.field_texts()[3] == b.field_texts()[3]);
        assert(a.field_texts()[4] == b.field_texts()[4]);
        assert(a.field_texts()[5] == b.field_texts()[5]);
    } else {
        if a.connector_id@ == b.connector_id@ && a.connector_kind@ == b.connector_kind@ && a.service@ == b.service@ && a.function@ == b.function@ && a.operation_logical_id@ == b.operation_logical_id@ && a.requested_reason@ == b.requested_reason@ {
            assert(a.field_texts() =~= b.field_texts());
        }
    }
}

} // verus!
