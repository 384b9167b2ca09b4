//! Decision-facing contracts: questions to ask, observation tool duties,
//! optional and required path steps, runbooks, records and their journal.

pub mod stable;
pub mod path;
pub mod runtime_model;
pub mod observation_tool;
pub mod guide;
pub mod runbook;
pub mod runbook_record;
pub mod runbook_journal;
pub mod context_pack;
pub mod context_request;
pub mod prelude;
