//! Decision crate prelude.

pub use crate::context_pack::{
    DecisionContextPack, DecisionContextPackError, DecisionContextPackReplaySelection,
    DecisionContextPackResult,
};
pub use crate::context_request::{
    DecisionContextRequest, DecisionContextRequestError, DecisionContextRequestResult,
    DecisionContextRequestSelection,
};
pub use crate::guide::{
    DecisionGuideTemplate, DecisionGuideTemplateError, DecisionGuideTemplateResult,
    DecisionQuestionSpec,
};
pub use crate::observation_tool::{
    awk_observation_tool, builtin_observation_tools, find_observation_tool, grep_observation_tool,
    observation_tool_by_id, pgrep_observation_tool, ps_observation_tool, sed_observation_tool,
    stat_observation_tool, DecisionObservationTool,
};
pub use crate::path::{DecisionPathStep, DecisionPathStepKind, DecisionPathTemplate};
pub use crate::runbook::{
    DecisionConnectorSpec, DecisionRunbookContract, DecisionRunbookInstance, DecisionRunbookMode,
    DecisionRunbookTemplate, DecisionRunbookTemplateError, DecisionRunbookTemplateResult,
};
pub use crate::runbook_journal::{
    DecisionRunbookJournal, DecisionRunbookJournalEntry, DecisionRunbookJournalError,
    DecisionRunbookJournalResult, DecisionRunbookReplayStep,
};
pub use crate::runbook_record::{
    AcknowledgedPathLink, DecisionRunbookRecord, DecisionRunbookRecordError,
    DecisionRunbookRecordResult, ExecutionReceiptLink, ExecutionTraceLink, GuidedContextLink,
    ObservationReceiptLink, TraceEntryLink,
};
pub use crate::runtime_model::{
    ConnectorCall, ConnectorError, ConnectorIdentity, DecisionGuide, GuideQuestion,
    MaterialManifestLink, ObservationKind, ObservationPlan, ObservationRequirement, OperationLink,
    OperationPlanLink, PlanMaterialContract,
};
