//! Decision runbook records that bind source runbooks to runtime receipts.
//!
//! `DecisionRunbookTemplate` describes what should be asked and which verified
//! runtime contract it applies to. This module records the completed path: the
//! materialized runbook instance, compact guided evidence, acknowledged
//! decision path, optional connector execution receipt, optional observation
//! receipt, and optional append-only trace. It does not execute anything; it
//! checks that the receipts being attached actually belong to the runbook
//! instance.
//!
//! The runtime produces guided contexts, acknowledged paths, receipts and
//! traces while it observes and executes; a record reads them by their
//! digests and the links between them, which is how they are held here.

use crate::runbook::{DecisionRunbookInstance, DecisionRunbookMode};
use crate::stable::{
    copy_opt_string, opt_str, opt_text, opt_view, push_stable_field, sha256_digest, sha256_hex,
    stable_field, text_of,
};
use vstd::prelude::*;

verus! {

/// A runtime guided decision context, as a record reads it: the digests of the
/// guide and observation plan it was formed from, and its own digest.
#[derive(Debug, Clone, PartialEq, Eq)]
pub struct GuidedContextLink {
    pub guide_digest: String,
    pub observation_plan_digest: String,
    pub digest: String,
}

/// A runtime acknowledged decision path, as a record reads it: the digests of
/// the context and transition it acknowledges, and its own digest.
#[derive(Debug, Clone, PartialEq, Eq)]
pub struct AcknowledgedPathLink {
    pub context_digest: String,
    pub transition_digest: String,
    pub digest: String,
}

/// A runtime connector execution receipt, as a record reads it: the digest of
/// the connector call it answers, the digest an acknowledgement gives its
/// plan transition, and its own digest.
#[derive(Debug, Clone, PartialEq, Eq)]
pub struct ExecutionReceiptLink {
    pub call_digest: String,
    pub transition_digest: String,
    pub digest: String,
}

/// A runtime observation receipt, as a record reads it.
#[derive(Debug, Clone, PartialEq, Eq)]
pub struct ObservationReceiptLink {
    pub observation_plan_digest: String,
    pub execution_receipt_digest: String,
    pub digest: String,
}

/// One entry of a runtime execution trace, as a record reads it.
#[derive(Debug, Clone, PartialEq, Eq)]
pub struct TraceEntryLink {
    pub execution_receipt_digest: String,
    pub observation_receipt_digest: Option<String>,
}

/// A runtime execution trace, as a record reads it: its entries in order and
/// its digest.
#[derive(Debug, Clone, PartialEq, Eq)]
pub struct ExecutionTraceLink {
    pub entries: Vec<TraceEntryLink>,
    pub digest: String,
}

#[derive(Debug, Clone, PartialEq, Eq)]
pub enum DecisionRunbookRecordError {
    ExpectedObservationOnlyRunbook { actual: DecisionRunbookMode },
    ExpectedConnectorExecutionRunbook { actual: DecisionRunbookMode },
    ObservationOnlyRunbookHasConnectorCall,
    ConnectorExecutionRunbookMissingConnectorCall,
    GuideContextMismatch { expected_guide_digest: String, actual_guide_digest: String },
    ObservationPlanContextMismatch {
        expected_observation_plan_digest: String,
        actual_observation_plan_digest: String,
    },
    AcknowledgedContextMismatch { expected_context_digest: String, actual_context_digest: String },
    ConnectorCallMismatch { expected_call_digest: String, actual_call_digest: String },
    AcknowledgedTransitionMismatch {
        expected_transition_digest: String,
        actual_transition_digest: String,
    },
    ObservationReceiptPlanMismatch {
        expected_observation_plan_digest: String,
        actual_observation_plan_digest: String,
    },
    ObservationReceiptExecutionMismatch {
        expected_execution_receipt_digest: String,
        actual_execution_receipt_digest: String,
    },
    TraceIsEmpty,
    TraceExecutionMismatch {
        expected_execution_receipt_digest: String,
        actual_execution_receipt_digest: String,
    },
    TraceObservationMismatch {
        expected_observation_receipt_digest: Option<String>,
        actual_observation_receipt_digest: Option<String>,
    },
}

pub type DecisionRunbookRecordResult<T> = Result<T, DecisionRunbookRecordError>;

/// Digest of an instance's runtime guide.
pub open spec fn guide_digest_of(instance: DecisionRunbookInstance) -> Seq<char> {
    sha256_hex(instance.runtime_guide.material())
}

/// Digest of an instance's observation plan.
pub open spec fn observation_plan_digest_of(instance: DecisionRunbookInstance) -> Seq<char> {
    sha256_hex(instance.observation_plan.material())
}

/// Whether the context was formed from the instance's guide and observation
/// plan, and the acknowledged path acknowledges that context.
pub open spec fn context_links_hold(
    instance: DecisionRunbookInstance,
    context: GuidedContextLink,
    acknowledged_path: AcknowledgedPathLink,
) -> bool {
    &&& context.guide_digest@ == guide_digest_of(instance)
    &&& context.observation_plan_digest@ == observation_plan_digest_of(instance)
    &&& acknowledged_path.context_digest@ == context.digest@
}

/// Whether an error is the one context-link validation reports: checks run in
/// the order guide, observation plan, acknowledged context.
pub open spec fn context_link_error(
    instance: DecisionRunbookInstance,
    context: GuidedContextLink,
    acknowledged_path: AcknowledgedPathLink,
    error: DecisionRunbookRecordError,
) -> bool {
    if context.guide_digest@ != guide_digest_of(instance) {
        error matches DecisionRunbookRecordError::GuideContextMismatch {
            expected_guide_digest,
            actual_guide_digest,
        } && expected_guide_digest@ == guide_digest_of(instance) && actual_guide_digest
            == context.guide_digest
    } else if context.observation_plan_digest@ != observation_plan_digest_of(instance) {
        error matches DecisionRunbookRecordError::ObservationPlanContextMismatch {
            expected_observation_plan_digest,
            actual_observation_plan_digest,
        } && expected_observation_plan_digest@ == observation_plan_digest_of(instance)
            && actual_observation_plan_digest == context.observation_plan_digest
    } else {
        error == (DecisionRunbookRecordError::AcknowledgedContextMismatch {
            expected_context_digest: context.digest,
            actual_context_digest: acknowledged_path.context_digest,
        })
    }
}

/// Whether the optional observation receipt belongs to the instance's
/// observation plan and to the execution receipt.
pub open spec fn observation_receipt_holds(
    instance: DecisionRunbookInstance,
    execution_receipt: ExecutionReceiptLink,
    observation_receipt: Option<&ObservationReceiptLink>,
) -> bool {
    match observation_receipt {
        Some(receipt) => {
            &&& receipt.observation_plan_digest@ == observation_plan_digest_of(instance)
            &&& receipt.execution_receipt_digest@ == execution_receipt.digest@
        },
        None => true,
    }
}

/// The digest the last trace entry must name for the observation receipt.
pub open spec fn trace_observation_digest(observation_receipt: Option<&ObservationReceiptLink>) -> Option<
    Seq<char>,
> {
    match observation_receipt {
        Some(receipt) => Some(receipt.digest@),
        None => None,
    }
}

/// Whether the optional trace is non-empty and its last entry names the
/// execution receipt and the optional observation receipt.
pub open spec fn trace_holds(
    execution_receipt: ExecutionReceiptLink,
    observation_receipt: Option<&ObservationReceiptLink>,
    trace: Option<&ExecutionTraceLink>,
) -> bool {
    match trace {
        Some(t) => {
            &&& t.entries.len() > 0
            &&& t.entries@.last().execution_receipt_digest@ == execution_receipt.digest@
            &&& opt_view(t.entries@.last().observation_receipt_digest)
                == trace_observation_digest(observation_receipt)
        },
        None => true,
    }
}

/// Whether a connector-execution record can be formed: the instance is a
/// connector-execution runbook with a connector call, the execution receipt
/// answers that call, the context links hold, the acknowledged path
/// acknowledges the receipt's transition, and the optional observation receipt
/// and trace belong to this execution.
pub open spec fn connector_record_holds(
    instance: DecisionRunbookInstance,
    context: GuidedContextLink,
    acknowledged_path: AcknowledgedPathLink,
    execution_receipt: ExecutionReceiptLink,
    observation_receipt: Option<&ObservationReceiptLink>,
    trace: Option<&ExecutionTraceLink>,
) -> bool {
    &&& instance.contract.mode == DecisionRunbookMode::ConnectorExecution
    &&& instance.connector_call is Some
    &&& execution_receipt.call_digest@ == sha256_hex(instance.connector_call->0.material())
    &&& context_links_hold(instance, context, acknowledged_path)
    &&& acknowledged_path.transition_digest@ == execution_receipt.transition_digest@
    &&& observation_receipt_holds(instance, execution_receipt, observation_receipt)
    &&& trace_holds(execution_receipt, observation_receipt, trace)
}

/// Whether an error is the one a connector-execution record is refused with:
/// checks run in the order mode, connector call, call digest, context links,
/// acknowledged transition, observation receipt plan, observation receipt
/// execution, trace emptiness, trace execution, trace observation.
pub open spec fn connector_record_error(
    instance: DecisionRunbookInstance,
    context: GuidedContextLink,
    acknowledged_path: AcknowledgedPathLink,
    execution_receipt: ExecutionReceiptLink,
    observation_receipt: Option<&ObservationReceiptLink>,
    trace: Option<&ExecutionTraceLink>,
    error: DecisionRunbookRecordError,
) -> bool {
    if instance.contract.mode != DecisionRunbookMode::ConnectorExecution {
        error == (DecisionRunbookRecordError::ExpectedConnectorExecutionRunbook {
            actual: instance.contract.mode,
        })
    } else if instance.connector_call is None {
        error == DecisionRunbookRecordError::ConnectorExecutionRunbookMissingConnectorCall
    } else if execution_receipt.call_digest@ != sha256_hex(instance.connector_call->0.material()) {
        error matches DecisionRunbookRecordError::ConnectorCallMismatch {
            expected_call_digest,
            actual_call_digest,
        } && expected_call_digest@ == sha256_hex(instance.connector_call->0.material())
            && actual_call_digest == execution_receipt.call_digest
    } else if !context_links_hold(instance, context, acknowledged_path) {
        context_link_error(instance, context, acknowledged_path, error)
    } else if acknowledged_path.transition_digest@ != execution_receipt.transition_digest@ {
        error == (DecisionRunbookRecordError::AcknowledgedTransitionMismatch {
            expected_transition_digest: execution_receipt.transition_digest,
            actual_transition_digest: acknowledged_path.transition_digest,
        })
    } else if observation_receipt is Some && observation_receipt->0.observation_plan_digest@
        != observation_plan_digest_of(instance) {
        error matches DecisionRunbookRecordError::ObservationReceiptPlanMismatch {
            expected_observation_plan_digest,
            actual_observation_plan_digest,
        } && expected_observation_plan_digest@ == observation_plan_digest_of(instance)
            && actual_observation_plan_digest == observation_receipt->0.observation_plan_digest
    } else if observation_receipt is Some && observation_receipt->0.execution_receipt_digest@
        != execution_receipt.digest@ {
        error == (DecisionRunbookRecordError::ObservationReceiptExecutionMismatch {
            expected_execution_receipt_digest: execution_receipt.digest,
            actual_execution_receipt_digest: observation_receipt->0.execution_receipt_digest,
        })
    } else if trace is Some && trace->0.entries.len() == 0 {
        error == DecisionRunbookRecordError::TraceIsEmpty
    } else if trace is Some && trace->0.entries@.last().execution_receipt_digest@
        != execution_receipt.digest@ {
        error == (DecisionRunbookRecordError::TraceExecutionMismatch {
            expected_execution_receipt_digest: execution_receipt.digest,
            actual_execution_receipt_digest: trace->0.entries@.last().execution_receipt_digest,
        })
    } else {
        &&& trace is Some
        &&& error matches DecisionRunbookRecordError::TraceObservationMismatch {
            expected_observation_receipt_digest,
            actual_observation_receipt_digest,
        }
        &&& opt_view(expected_observation_receipt_digest) == trace_observation_digest(
            observation_receipt,
        )
        &&& actual_observation_receipt_digest == trace->0.entries@.last().observation_receipt_digest
    }
}

#[derive(Debug, Clone, PartialEq, Eq)]
pub struct DecisionRunbookRecord {
    pub runbook_id: String,
    pub mode: DecisionRunbookMode,
    pub instance_digest: String,
    pub contract_digest: String,
    pub runtime_guide_digest: String,
    pub observation_plan_digest: String,
    pub guided_context_digest: String,
    pub acknowledged_path_digest: String,
    pub execution_receipt_digest: Option<String>,
    pub observation_receipt_digest: Option<String>,
    pub execution_trace_digest: Option<String>,
    pub recorded_reason: String,
}

impl DecisionRunbookRecord {
    /// Whether a record is the one formed from these parts: the instance's
    /// runbook id and mode, the digests of the instance, its contract, guide
    /// and observation plan, of the context and acknowledged path, of the
    /// optional receipts and trace, and the recorded reason.
    pub open spec fn is_formed_from(
        self,
        instance: DecisionRunbookInstance,
        context: GuidedContextLink,
        acknowledged_path: AcknowledgedPathLink,
        execution_receipt: Option<&ExecutionReceiptLink>,
        observation_receipt: Option<&ObservationReceiptLink>,
        trace: Option<&ExecutionTraceLink>,
        recorded_reason: Seq<char>,
    ) -> bool {
        &&& self.runbook_id == instance.contract.runbook_id
        &&& self.mode == instance.contract.mode
        &&& self.instance_digest@ == sha256_hex(instance.material())
        &&& self.contract_digest@ == sha256_hex(instance.contract.material())
        &&& self.runtime_guide_digest@ == guide_digest_of(instance)
        &&& self.observation_plan_digest@ == observation_plan_digest_of(instance)
        &&& self.guided_context_digest == context.digest
        &&& self.acknowledged_path_digest == acknowledged_path.digest
        &&& self.execution_receipt_digest == match execution_receipt {
            Some(receipt) => Some(receipt.digest),
            None => None,
        }
        &&& self.observation_receipt_digest == match observation_receipt {
            Some(receipt) => Some(receipt.digest),
            None => None,
        }
        &&& self.execution_trace_digest == match trace {
            Some(t) => Some(t.digest),
            None => None,
        }
        &&& self.recorded_reason@ == recorded_reason
    }

    #[verifier::opaque]
    pub open spec fn material(self) -> Seq<char> {
        "xccute.decisions.runbook.record.v1\n"@
            + stable_field("runbook_id"@, self.runbook_id@)
            + stable_field("mode"@, self.mode.label_text())
            + stable_field("instance_digest"@, self.instance_digest@)
            + stable_field("contract_digest"@, self.contract_digest@)
            + stable_field("runtime_guide_digest"@, self.runtime_guide_digest@)
            + stable_field("observation_plan_digest"@, self.observation_plan_digest@)
            + stable_field("guided_context_digest"@, self.guided_context_digest@)
            + stable_field("acknowledged_path_digest"@, self.acknowledged_path_digest@)
            + stable_field("execution_receipt_digest"@, opt_text(self.execution_receipt_digest))
            + stable_field("observation_receipt_digest"@, opt_text(self.observation_receipt_digest))
            + stable_field("execution_trace_digest"@, opt_text(self.execution_trace_digest))
            + stable_field("recorded_reason"@, self.recorded_reason@)
    }

    pub fn observation_only(
        instance: &DecisionRunbookInstance,
        context: &GuidedContextLink,
        acknowledged_path: &AcknowledgedPathLink,
        recorded_reason: &str,
    ) -> (result: DecisionRunbookRecordResult<Self>)
        ensures
            result is Ok <==> {
                &&& instance.contract.mode == DecisionRunbookMode::ObservationOnly
                &&& instance.connector_call is None
                &&& context_links_hold(*instance, *context, *acknowledged_path)
            },
            result matches Err(error) ==> if instance.contract.mode
                != DecisionRunbookMode::ObservationOnly {
                error == (DecisionRunbookRecordError::ExpectedObservationOnlyRunbook {
                    actual: instance.contract.mode,
                })
            } else if instance.connector_call is Some {
                error == DecisionRunbookRecordError::ObservationOnlyRunbookHasConnectorCall
            } else {
                context_link_error(*instance, *context, *acknowledged_path, error)
            },
            result matches Ok(record) ==> record.is_formed_from(
                *instance,
                *context,
                *acknowledged_path,
                None,
                None,
                None,
                recorded_reason@,
            ),
    {
        if instance.contract.mode != DecisionRunbookMode::ObservationOnly {
            return Err(
                DecisionRunbookRecordError::ExpectedObservationOnlyRunbook {
                    actual: instance.contract.mode,
                },
            );
        }
        if instance.connector_call.is_some() {
            return Err(DecisionRunbookRecordError::ObservationOnlyRunbookHasConnectorCall);
        }
        match validate_context_links(instance, context, acknowledged_path) {
            Err(error) => { return Err(error); },
            Ok(()) => {},
        }
        Ok(Self::from_parts(instance, context, acknowledged_path, None, None, None, recorded_reason))
    }

    pub fn connector_execution(
        instance: &DecisionRunbookInstance,
        context: &GuidedContextLink,
        acknowledged_path: &AcknowledgedPathLink,
        execution_receipt: &ExecutionReceiptLink,
        observation_receipt: Option<&ObservationReceiptLink>,
        trace: Option<&ExecutionTraceLink>,
        recorded_reason: &str,
    ) -> (result: DecisionRunbookRecordResult<Self>)
        ensures
            result is Ok <==> connector_record_holds(
                *instance,
                *context,
                *acknowledged_path,
                *execution_receipt,
                observation_receipt,
                trace,
            ),
            result matches Err(error) ==> connector_record_error(
                *instance,
                *context,
                *acknowledged_path,
                *execution_receipt,
                observation_receipt,
                trace,
                error,
            ),
            result matches Ok(record) ==> record.is_formed_from(
                *instance,
                *context,
                *acknowledged_path,
                Some(execution_receipt),
                observation_receipt,
                trace,
                recorded_reason@,
            ),
    {
        if instance.contract.mode != DecisionRunbookMode::ConnectorExecution {
            return Err(
                DecisionRunbookRecordError::ExpectedConnectorExecutionRunbook {
                    actual: instance.contract.mode,
                },
            );
        }
        let expected_call_digest = match &instance.connector_call {
            Some(call) => call.digest(),
            None => {
                return Err(DecisionRunbookRecordError::ConnectorExecutionRunbookMissingConnectorCall);
            },
        };
        if expected_call_digest != execution_receipt.call_digest {
            return Err(
                DecisionRunbookRecordError::ConnectorCallMismatch {
                    expected_call_digest,
                    actual_call_digest: execution_receipt.call_digest.clone(),
                },
            );
        }
        match validate_context_links(instance, context, acknowledged_path) {
            Err(error) => { return Err(error); },
            Ok(()) => {},
        }
        if execution_receipt.transition_digest != acknowledged_path.transition_digest {
            return Err(
                DecisionRunbookRecordError::AcknowledgedTransitionMismatch {
                    expected_transition_digest: execution_receipt.transition_digest.clone(),
                    actual_transition_digest: acknowledged_path.transition_digest.clone(),
                },
            );
        }
        match observation_receipt {
            Some(receipt) => {
                let expected_observation_plan_digest = instance.observation_plan.digest();
                if receipt.observation_plan_digest != expected_observation_plan_digest {
                    return Err(
                        DecisionRunbookRecordError::ObservationReceiptPlanMismatch {
                            expected_observation_plan_digest,
                            actual_observation_plan_digest: receipt.observation_plan_digest.clone(),
                        },
                    );
                }
                if receipt.execution_receipt_digest != execution_receipt.digest {
                    return Err(
                        DecisionRunbookRecordError::ObservationReceiptExecutionMismatch {
                            expected_execution_receipt_digest: execution_receipt.digest.clone(),
                            actual_execution_receipt_digest: receipt.execution_receipt_digest.clone(),
                        },
                    );
                }
            },
            None => {},
        }
        match trace {
            Some(t) => {
                if t.entries.len() == 0 {
                    return Err(DecisionRunbookRecordError::TraceIsEmpty);
                }
                let last = &t.entries[t.entries.len() - 1];
                if last.execution_receipt_digest != execution_receipt.digest {
                    return Err(
                        DecisionRunbookRecordError::TraceExecutionMismatch {
                            expected_execution_receipt_digest: execution_receipt.digest.clone(),
                            actual_execution_receipt_digest: last.execution_receipt_digest.clone(),
                        },
                    );
                }
                let expected_observation_receipt_digest = match observation_receipt {
                    Some(receipt) => Some(receipt.digest.clone()),
                    None => None,
                };
                let matches_expected = match (
                    &expected_observation_receipt_digest,
                    &last.observation_receipt_digest,
                ) {
                    (Some(expected), Some(actual)) => *expected == *actual,
                    (None, None) => true,
                    _ => false,
                };
                if !matches_expected {
                    return Err(
                        DecisionRunbookRecordError::TraceObservationMismatch {
                            expected_observation_receipt_digest,
                            actual_observation_receipt_digest: copy_opt_string(
                                &last.observation_receipt_digest,
                            ),
                        },
                    );
                }
            },
            None => {},
        }
        Ok(
            Self::from_parts(
                instance,
                context,
                acknowledged_path,
                Some(execution_receipt),
                observation_receipt,
                trace,
                recorded_reason,
            ),
        )
    }

    fn from_parts(
        instance: &DecisionRunbookInstance,
        context: &GuidedContextLink,
        acknowledged_path: &AcknowledgedPathLink,
        execution_receipt: Option<&ExecutionReceiptLink>,
        observation_receipt: Option<&ObservationReceiptLink>,
        trace: Option<&ExecutionTraceLink>,
        recorded_reason: &str,
    ) -> (record: Self)
        ensures
            record.is_formed_from(
                *instance,
                *context,
                *acknowledged_path,
                execution_receipt,
                observation_receipt,
                trace,
                recorded_reason@,
            ),
    {
        DecisionRunbookRecord {
            runbook_id: instance.contract.runbook_id.clone(),
            mode: instance.contract.mode,
            instance_digest: instance.digest(),
            contract_digest: instance.contract.digest(),
            runtime_guide_digest: instance.runtime_guide.digest(),
            observation_plan_digest: instance.observation_plan.digest(),
            guided_context_digest: context.digest.clone(),
            acknowledged_path_digest: acknowledged_path.digest.clone(),
            execution_receipt_digest: match execution_receipt {
                Some(receipt) => Some(receipt.digest.clone()),
                None => None,
            },
            observation_receipt_digest: match observation_receipt {
                Some(receipt) => Some(receipt.digest.clone()),
                None => None,
            },
            execution_trace_digest: match trace {
                Some(t) => Some(t.digest.clone()),
                None => None,
            },
            recorded_reason: text_of(recorded_reason),
        }
    }

    pub fn stable_material(&self) -> (material: String)
        ensures
            material@ == self.material(),
    {
        let mut material = text_of("xccute.decisions.runbook.record.v1\n");
        push_stable_field(&mut material, "runbook_id", self.runbook_id.as_str());
        push_stable_field(&mut material, "mode", self.mode.stable_label());
        push_stable_field(&mut material, "instance_digest", self.instance_digest.as_str());
        push_stable_field(&mut material, "contract_digest", self.contract_digest.as_str());
        push_stable_field(&mut material, "runtime_guide_digest", self.runtime_guide_digest.as_str());
        push_stable_field(
            &mut material,
            "observation_plan_digest",
            self.observation_plan_digest.as_str(),
        );
        push_stable_field(&mut material, "guided_context_digest", self.guided_context_digest.as_str());
        push_stable_field(
            &mut material,
            "acknowledged_path_digest",
            self.acknowledged_path_digest.as_str(),
        );
        push_stable_field(
            &mut material,
            "execution_receipt_digest",
            opt_str(&self.execution_receipt_digest),
        );
        push_stable_field(
            &mut material,
            "observation_receipt_digest",
            opt_str(&self.observation_receipt_digest),
        );
        push_stable_field(&mut material, "execution_trace_digest", opt_str(&self.execution_trace_digest));
        push_stable_field(&mut material, "recorded_reason", self.recorded_reason.as_str());
        proof {
            reveal(DecisionRunbookRecord::material);
        }
        material
    }

    pub fn digest(&self) -> (digest: String)
        ensures
            digest@ == sha256_hex(self.material()),
    {
        let material = self.stable_material();
        sha256_digest(material.as_str())
    }
}

fn validate_context_links(
    instance: &DecisionRunbookInstance,
    context: &GuidedContextLink,
    acknowledged_path: &AcknowledgedPathLink,
) -> (result: DecisionRunbookRecordResult<()>)
    ensures
        result is Ok <==> context_links_hold(*instance, *context, *acknowledged_path),
        result matches Err(error) ==> context_link_error(
            *instance,
            *context,
            *acknowledged_path,
            error,
        ),
{
    let expected_guide_digest = instance.runtime_guide.digest();
    if context.guide_digest != expected_guide_digest {
        return Err(
            DecisionRunbookRecordError::GuideContextMismatch {
                expected_guide_digest,
                actual_guide_digest: context.guide_digest.clone(),
            },
        );
    }
    let expected_observation_plan_digest = instance.observation_plan.digest();
    if context.observation_plan_digest != expected_observation_plan_digest {
        return Err(
            DecisionRunbookRecordError::ObservationPlanContextMismatch {
                expected_observation_plan_digest,
                actual_observation_plan_digest: context.observation_plan_digest.clone(),
            },
        );
    }
    if acknowledged_path.context_digest != context.digest {
        return Err(
            DecisionRunbookRecordError::AcknowledgedContextMismatch {
                expected_context_digest: context.digest.clone(),
                actual_context_digest: acknowledged_path.context_digest.clone(),
            },
        );
    }
    Ok(())
}

/// What a connector-execution record checks: the instance is a
/// connector-execution runbook with a connector call, the execution receipt
/// answers that call, the context was formed from the instance's guide and
/// observation plan, the acknowledged path acknowledges that context and the
/// receipt's transition, a given observation receipt belongs to the
/// instance's observation plan and to the execution receipt, and a given
/// trace is not empty and its last entry names the execution receipt and
/// names an observation receipt exactly when one is given: that one.
pub proof fn lemma_connector_record_checks(
    instance: DecisionRunbookInstance,
    context: GuidedContextLink,
    acknowledged_path: AcknowledgedPathLink,
    execution_receipt: ExecutionReceiptLink,
    observation_receipt: Option<&ObservationReceiptLink>,
    trace: Option<&ExecutionTraceLink>,
)
    ensures
        connector_record_holds(
            instance,
            context,
            acknowledged_path,
            execution_receipt,
            observation_receipt,
            trace,
        ) <==> {
            &&& instance.contract.mode == DecisionRunbookMode::ConnectorExecution
            &&& instance.connector_call matches Some(call)
            &&& execution_receipt.call_digest@ == sha256_hex(call.material())
            &&& context.guide_digest@ == sha256_hex(instance.runtime_guide.material())
            &&& context.observation_plan_digest@ == sha256_hex(instance.observation_plan.material())
            &&& acknowledged_path.context_digest@ == context.digest@
            &&& acknowledged_path.transition_digest@ == execution_receipt.transition_digest@
            &&& observation_receipt matches Some(receipt) ==> {
                &&& receipt.observation_plan_digest@ == sha256_hex(
                    instance.observation_plan.material(),
                )
                &&& receipt.execution_receipt_digest@ == execution_receipt.digest@
            }
            &&& trace matches Some(t) ==> {
                &&& t.entries.len() > 0
                &&& t.entries@.last().execution_receipt_digest@ == execution_receipt.digest@
                &&& (t.entries@.last().observation_receipt_digest is None
                    <==> observation_receipt is None)
                &&& observation_receipt matches Some(receipt) ==> t.entries@.last().observation_receipt_digest
                    matches Some(named) && named@ == receipt.digest@
            }
        },
{
}

/// What an observation-only record checks: the context was formed from the
/// instance's guide and observation plan and the acknowledged path
/// acknowledges that context.
pub proof fn lemma_context_links_check(
    instance: DecisionRunbookInstance,
    context: GuidedContextLink,
    acknowledged_path: AcknowledgedPathLink,
)
    ensures
        context_links_hold(instance, context, acknowledged_path) <==> {
            &&& context.guide_digest@ == sha256_hex(instance.runtime_guide.material())
            &&& context.observation_plan_digest@ == sha256_hex(instance.observation_plan.material())
            &&& acknowledged_path.context_digest@ == context.digest@
        },
{
}

} // verus!
