//! Observation tool responsibilities for guided decisions.
//!
//! These are not command builders. They are decision-facing contracts that say
//! what a command family is allowed to contribute to a guided decision path.
//! For example, `grep` can answer pattern-search questions, while `pgrep` can
//! answer process-search questions.

use crate::guide::{DecisionQuestionSpec, is_spec_from_tool};
use crate::runtime_model::{GuideQuestion, ObservationKind};
use crate::stable::{push_stable_field, same_text, sha256_digest, sha256_hex, stable_field, text_of};
use vstd::prelude::*;

verus! {

#[derive(Debug, Clone, PartialEq, Eq)]
pub struct DecisionObservationTool {
    pub tool_id: &'static str,
    pub program: &'static str,
    pub kind: ObservationKind,
    pub responsibility: &'static str,
    pub default_question: &'static str,
    pub compact_fact_shape: &'static str,
    pub success_meaning: &'static str,
    pub empty_meaning: &'static str,
}

/// Whether a runtime question is the one a tool asks: the given ids and
/// question text, the tool's kind and responsibility, one minimum fact and a
/// 512-byte budget hint.
pub open spec fn is_tool_question(
    q: GuideQuestion,
    tool: DecisionObservationTool,
    logical_id: Seq<char>,
    operation_logical_id: Seq<char>,
    question: Seq<char>,
    required: bool,
) -> bool {
    &&& q.logical_id@ == logical_id
    &&& q.operation_logical_id@ == operation_logical_id
    &&& q.kind == tool.kind
    &&& q.question@ == question
    &&& q.responsibility@ == tool.responsibility@
    &&& q.required == required
    &&& q.minimum_facts == 1
    &&& q.context_budget_hint == 512
}

impl DecisionObservationTool {
    #[verifier::opaque]
    pub open spec fn material(self) -> Seq<char> {
        "xccute.decisions.observation.tool.v1\n"@
            + stable_field("tool_id"@, self.tool_id@)
            + stable_field("program"@, self.program@)
            + stable_field("kind"@, self.kind.label_text())
            + stable_field("responsibility"@, self.responsibility@)
            + stable_field("default_question"@, self.default_question@)
            + stable_field("compact_fact_shape"@, self.compact_fact_shape@)
            + stable_field("success_meaning"@, self.success_meaning@)
            + stable_field("empty_meaning"@, self.empty_meaning@)
    }

    pub fn required_question(
        &self,
        logical_id: &str,
        operation_logical_id: &str,
        question: &str,
    ) -> (q: GuideQuestion)
        ensures
            is_tool_question(q, *self, logical_id@, operation_logical_id@, question@, true),
    {
        GuideQuestion::required(
            text_of(logical_id),
            text_of(operation_logical_id),
            self.kind.copied(),
            text_of(question),
            text_of(self.responsibility),
        )
    }

    pub fn optional_question(
        &self,
        logical_id: &str,
        operation_logical_id: &str,
        question: &str,
    ) -> (q: GuideQuestion)
        ensures
            is_tool_question(q, *self, logical_id@, operation_logical_id@, question@, false),
    {
        GuideQuestion::optional(
            text_of(logical_id),
            text_of(operation_logical_id),
            self.kind.copied(),
            text_of(question),
            text_of(self.responsibility),
        )
    }

    pub fn default_required_question(&self, logical_id: &str, operation_logical_id: &str) -> (q:
        GuideQuestion)
        ensures
            is_tool_question(
                q,
                *self,
                logical_id@,
                operation_logical_id@,
                self.default_question@,
                true,
            ),
    {
        self.required_question(logical_id, operation_logical_id, self.default_question)
    }

    pub fn default_optional_question(&self, logical_id: &str, operation_logical_id: &str) -> (q:
        GuideQuestion)
        ensures
            is_tool_question(
                q,
                *self,
                logical_id@,
                operation_logical_id@,
                self.default_question@,
                false,
            ),
    {
        self.optional_question(logical_id, operation_logical_id, self.default_question)
    }

    pub fn required_question_spec(
        &self,
        logical_id: &str,
        operation_logical_id: &str,
        question: &str,
    ) -> (spec: DecisionQuestionSpec)
        ensures
            is_spec_from_tool(spec, *self, logical_id@, operation_logical_id@, question@, true),
    {
        DecisionQuestionSpec::required(logical_id, operation_logical_id, self, question)
    }

    pub fn optional_question_spec(
        &self,
        logical_id: &str,
        operation_logical_id: &str,
        question: &str,
    ) -> (spec: DecisionQuestionSpec)
        ensures
            is_spec_from_tool(spec, *self, logical_id@, operation_logical_id@, question@, false),
    {
        DecisionQuestionSpec::optional(logical_id, operation_logical_id, self, question)
    }

    pub fn default_required_question_spec(&self, logical_id: &str, operation_logical_id: &str) -> (spec:
        DecisionQuestionSpec)
        ensures
            is_spec_from_tool(
                spec,
                *self,
                logical_id@,
                operation_logical_id@,
                self.default_question@,
                true,
            ),
    {
        self.required_question_spec(logical_id, operation_logical_id, self.default_question)
    }

    pub fn default_optional_question_spec(&self, logical_id: &str, operation_logical_id: &str) -> (spec:
        DecisionQuestionSpec)
        ensures
            is_spec_from_tool(
                spec,
                *self,
                logical_id@,
                operation_logical_id@,
                self.default_question@,
                false,
            ),
    {
        self.optional_question_spec(logical_id, operation_logical_id, self.default_question)
    }

    pub fn stable_material(&self) -> (material: String)
        ensures
            material@ == self.material(),
    {
        let mut material = text_of("xccute.decisions.observation.tool.v1\n");
        push_stable_field(&mut material, "tool_id", self.tool_id);
        push_stable_field(&mut material, "program", self.program);
        let kind = self.kind.stable_label();
        push_stable_field(&mut material, "kind", kind.as_str());
        push_stable_field(&mut material, "responsibility", self.responsibility);
        push_stable_field(&mut material, "default_question", self.default_question);
        push_stable_field(&mut material, "compact_fact_shape", self.compact_fact_shape);
        push_stable_field(&mut material, "success_meaning", self.success_meaning);
        push_stable_field(&mut material, "empty_meaning", self.empty_meaning);
        proof {
            reveal(DecisionObservationTool::material);
        }
        material
    }

    pub fn digest(&self) -> (digest: String)
        ensures
            digest@ == sha256_hex(self.material()),
    {
        let material = self.stable_material();
        sha256_digest(material.as_str())
    }
}

/// Number of built-in observation tools.
pub open spec fn builtin_tool_count() -> int {
    7
}

/// The built-in observation tools, in the order `builtin_observation_tools`
/// lists them: grep, pgrep, sed, awk, stat, find, ps.
pub open spec fn builtin_tool(index: int) -> DecisionObservationTool {
    if index == 0 {
        DecisionObservationTool {
            tool_id: "grep.pattern_search",
            program: "grep",
            kind: ObservationKind::PatternSearch,
            responsibility: "answer whether text contains a requested pattern while keeping raw output behind a digest",
            default_question: "Did grep find the requested pattern?",
            compact_fact_shape: "found:boolean, collected_count:number, compact_summary:string, output_digest:sha256",
            success_meaning: "matches were found",
            empty_meaning: "no matches were found; this can still be a successful observation",
        }
    } else if index == 1 {
        DecisionObservationTool {
            tool_id: "pgrep.process_search",
            program: "pgrep",
            kind: ObservationKind::ProcessSearch,
            responsibility: "answer whether a process matching a declared pattern is running",
            default_question: "Did pgrep find a matching process?",
            compact_fact_shape: "found:boolean, collected_count:number, compact_summary:string, output_digest:sha256",
            success_meaning: "one or more process ids matched",
            empty_meaning: "no process ids matched",
        }
    } else if index == 2 {
        DecisionObservationTool {
            tool_id: "sed.text_transform",
            program: "sed",
            kind: ObservationKind::TextTransform,
            responsibility: "normalize or extract a small text projection for decision context without storing full input",
            default_question: "Did sed produce the expected transformed text?",
            compact_fact_shape: "found:boolean, collected_count:number, compact_summary:string, output_digest:sha256",
            success_meaning: "the transform produced decision-relevant output",
            empty_meaning: "the transform produced no decision-relevant output",
        }
    } else if index == 3 {
        DecisionObservationTool {
            tool_id: "awk.structured_text_projection",
            program: "awk",
            kind: ObservationKind::TextTransform,
            responsibility: "project structured fields from text into a compact decision fact",
            default_question: "Did awk collect the expected structured fields?",
            compact_fact_shape: "found:boolean, collected_count:number, compact_summary:string, output_digest:sha256",
            success_meaning: "structured fields were collected",
            empty_meaning: "no structured fields were collected",
        }
    } else if index == 4 {
        DecisionObservationTool {
            tool_id: "stat.file_check",
            program: "stat",
            kind: ObservationKind::FileCheck,
            responsibility: "answer whether a filesystem target exists and summarize selected metadata",
            default_question: "Did stat observe the expected filesystem target?",
            compact_fact_shape: "found:boolean, collected_count:number, compact_summary:string, output_digest:sha256",
            success_meaning: "target metadata was observed",
            empty_meaning: "target metadata was not observed",
        }
    } else if index == 5 {
        DecisionObservationTool {
            tool_id: "find.file_discovery",
            program: "find",
            kind: ObservationKind::FileCheck,
            responsibility: "discover whether filesystem paths matching a bounded query exist",
            default_question: "Did find discover matching filesystem paths?",
            compact_fact_shape: "found:boolean, collected_count:number, compact_summary:string, output_digest:sha256",
            success_meaning: "matching paths were discovered",
            empty_meaning: "no matching paths were discovered",
        }
    } else {
        DecisionObservationTool {
            tool_id: "ps.process_snapshot",
            program: "ps",
            kind: ObservationKind::ProcessSearch,
            responsibility: "summarize a bounded process snapshot for decision context",
            default_question: "Did ps show the expected process state?",
            compact_fact_shape: "found:boolean, collected_count:number, compact_summary:string, output_digest:sha256",
            success_meaning: "process state was observed",
            empty_meaning: "requested process state was not observed",
        }
    }
}

pub fn grep_observation_tool() -> (tool: DecisionObservationTool)
    ensures
        tool == builtin_tool(0),
{
    DecisionObservationTool {
        tool_id: "grep.pattern_search",
        program: "grep",
        kind: ObservationKind::PatternSearch,
        responsibility: "answer whether text contains a requested pattern while keeping raw output behind a digest",
        default_question: "Did grep find the requested pattern?",
        compact_fact_shape: "found:boolean, collected_count:number, compact_summary:string, output_digest:sha256",
        success_meaning: "matches were found",
        empty_meaning: "no matches were found; this can still be a successful observation",
    }
}

pub fn pgrep_observation_tool() -> (tool: DecisionObservationTool)
    ensures
        tool == builtin_tool(1),
{
    DecisionObservationTool {
        tool_id: "pgrep.process_search",
        program: "pgrep",
        kind: ObservationKind::ProcessSearch,
        responsibility: "answer whether a process matching a declared pattern is running",
        default_question: "Did pgrep find a matching process?",
        compact_fact_shape: "found:boolean, collected_count:number, compact_summary:string, output_digest:sha256",
        success_meaning: "one or more process ids matched",
        empty_meaning: "no process ids matched",
    }
}

pub fn sed_observation_tool() -> (tool: DecisionObservationTool)
    ensures
        tool == builtin_tool(2),
{
    DecisionObservationTool {
        tool_id: "sed.text_transform",
        program: "sed",
        kind: ObservationKind::TextTransform,
        responsibility: "normalize or extract a small text projection for decision context without storing full input",
        default_question: "Did sed produce the expected transformed text?",
        compact_fact_shape: "found:boolean, collected_count:number, compact_summary:string, output_digest:sha256",
        success_meaning: "the transform produced decision-relevant output",
        empty_meaning: "the transform produced no decision-relevant output",
    }
}

pub fn awk_observation_tool() -> (tool: DecisionObservationTool)
    ensures
        tool == builtin_tool(3),
{
    DecisionObservationTool {
        tool_id: "awk.structured_text_projection",
        program: "awk",
        kind: ObservationKind::TextTransform,
        responsibility: "project structured fields from text into a compact decision fact",
        default_question: "Did awk collect the expected structured fields?",
        compact_fact_shape: "found:boolean, collected_count:number, compact_summary:string, output_digest:sha256",
        success_meaning: "structured fields were collected",
        empty_meaning: "no structured fields were collected",
    }
}

pub fn stat_observation_tool() -> (tool: DecisionObservationTool)
    ensures
        tool == builtin_tool(4),
{
    DecisionObservationTool {
        tool_id: "stat.file_check",
        program: "stat",
        kind: ObservationKind::FileCheck,
        responsibility: "answer whether a filesystem target exists and summarize selected metadata",
        default_question: "Did stat observe the expected filesystem target?",
        compact_fact_shape: "found:boolean, collected_count:number, compact_summary:string, output_digest:sha256",
        success_meaning: "target metadata was observed",
        empty_meaning: "target metadata was not observed",
    }
}

pub fn find_observation_tool() -> (tool: DecisionObservationTool)
    ensures
        tool == builtin_tool(5),
{
    DecisionObservationTool {
        tool_id: "find.file_discovery",
        program: "find",
        kind: ObservationKind::FileCheck,
        responsibility: "discover whether filesystem paths matching a bounded query exist",
        default_question: "Did find discover matching filesystem paths?",
        compact_fact_shape: "found:boolean, collected_count:number, compact_summary:string, output_digest:sha256",
        success_meaning: "matching paths were discovered",
        empty_meaning: "no matching paths were discovered",
    }
}

pub fn ps_observation_tool() -> (tool: DecisionObservationTool)
    ensures
        tool == builtin_tool(6),
{
    DecisionObservationTool {
        tool_id: "ps.process_snapshot",
        program: "ps",
        kind: ObservationKind::ProcessSearch,
        responsibility: "summarize a bounded process snapshot for decision context",
        default_question: "Did ps show the expected process state?",
        compact_fact_shape: "found:boolean, collected_count:number, compact_summary:string, output_digest:sha256",
        success_meaning: "process state was observed",
        empty_meaning: "requested process state was not observed",
    }
}

pub fn builtin_observation_tools() -> (tools: Vec<DecisionObservationTool>)
    ensures
        tools.len() == builtin_tool_count(),
        forall|i: int| 0 <= i < builtin_tool_count() ==> #[trigger] tools@[i] == builtin_tool(i),
{
    let mut tools: Vec<DecisionObservationTool> = Vec::new();
    tools.push(grep_observation_tool());
    tools.push(pgrep_observation_tool());
    tools.push(sed_observation_tool());
    tools.push(awk_observation_tool());
    tools.push(stat_observation_tool());
    tools.push(find_observation_tool());
    tools.push(ps_observation_tool());
    tools
}

/// The built-in tool whose id is the given one, if any: the first in
/// `builtin_observation_tools` order.
pub fn observation_tool_by_id(tool_id: &str) -> (tool: Option<DecisionObservationTool>)
    ensures
        tool is Some <==> exists|i: int|
            0 <= i < builtin_tool_count() && (#[trigger] builtin_tool(i)).tool_id@ == tool_id@,
        tool matches Some(t) ==> exists|i: int|
            0 <= i < builtin_tool_count() && t == #[trigger] builtin_tool(i) && t.tool_id@ == tool_id@
                && forall|j: int| 0 <= j < i ==> builtin_tool(j).tool_id@ != tool_id@,
{
    let tools = builtin_observation_tools();
    let mut i: usize = 0;
    while i < tools.len()
        invariant
            i <= tools.len(),
            tools.len() == builtin_tool_count(),
            forall|k: int| 0 <= k < builtin_tool_count() ==> #[trigger] tools@[k] == builtin_tool(k),
            forall|j: int| 0 <= j < i ==> builtin_tool(j).tool_id@ != tool_id@,
        decreases tools.len() - i,
    {
        let candidate = &tools[i];
        if same_text(candidate.tool_id, tool_id) {
            assert(tools@[i as int] == builtin_tool(i as int));
            return Some(
                DecisionObservationTool {
                    tool_id: candidate.tool_id,
                    program: candidate.program,
                    kind: candidate.kind.copied(),
                    responsibility: candidate.responsibility,
                    default_question: candidate.default_question,
                    compact_fact_shape: candidate.compact_fact_shape,
                    success_meaning: candidate.success_meaning,
                    empty_meaning: candidate.empty_meaning,
                },
            );
        }
        assert(tools@[i as int] == builtin_tool(i as int));
        i = i + 1;
    }
    None
}

/// The built-in tools carry distinct ids, so looking a built-in tool up by its
/// own id finds that tool.
pub proof fn lemma_builtin_tool_ids_distinct(i: int, j: int)
    requires
        0 <= i < builtin_tool_count(),
        0 <= j < builtin_tool_count(),
        builtin_tool(i).tool_id@ == builtin_tool(j).tool_id@,
    ensures
        i == j,
{
    reveal_strlit("grep.pattern_search");
    reveal_strlit("pgrep.process_search");
    reveal_strlit("sed.text_transform");
    reveal_strlit("awk.structured_text_projection");
    reveal_strlit("stat.file_check");
    reveal_strlit("find.file_discovery");
    reveal_strlit("ps.process_snapshot");
    if i != j {
        let left = builtin_tool(i).tool_id@;
        let right = builtin_tool(j).tool_id@;
        assert(left.len() != right.len() || left[0] != right[0] || left[1] != right[1]);
    }
}

} // verus!
