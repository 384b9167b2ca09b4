//! The runtime-side values that decision logic builds and reads.
//!
//! Decision templates materialize into runtime questions, guides, observation
//! plans and connector calls, and they are checked against runtime plans,
//! material manifests and receipts. This module holds those values as plain
//! data. Values that the decision side builds (questions, requirements,
//! guides, observation plans, connector calls, plan/material contracts) carry
//! the runtime's versioned stable material and its SHA-256 digest. Values that
//! only the runtime can produce (operation plans holding OS strings, material
//! manifests) are held by what the decision logic reads of them: identifiers
//! and digests.

use crate::stable::{
    bool_str, bool_text, decimal, push_stable_field, same_text, sha256_digest,
    sha256_hex, stable_field, text_of, usize_text,
};
use vstd::prelude::*;

verus! {

/// Coarse kind of observation a plan can require before a decision is trusted.
#[derive(Debug, Clone, PartialEq, Eq)]
pub enum ObservationKind {
    PatternSearch,
    ProcessSearch,
    TextTransform,
    FileCheck,
    CommandProbe,
    Custom(String),
}

impl ObservationKind {
    pub open spec fn label_text(self) -> Seq<char> {
        match self {
            ObservationKind::PatternSearch => "pattern_search"@,
            ObservationKind::ProcessSearch => "process_search"@,
            ObservationKind::TextTransform => "text_transform"@,
            ObservationKind::FileCheck => "file_check"@,
            ObservationKind::CommandProbe => "command_probe"@,
            ObservationKind::Custom(value) => "custom:"@ + value@,
        }
    }

    pub fn stable_label(&self) -> (label: String)
        ensures
            label@ == self.label_text(),
    {
        match self {
            ObservationKind::PatternSearch => text_of("pattern_search"),
            ObservationKind::ProcessSearch => text_of("process_search"),
            ObservationKind::TextTransform => text_of("text_transform"),
            ObservationKind::FileCheck => text_of("file_check"),
            ObservationKind::CommandProbe => text_of("command_probe"),
            ObservationKind::Custom(value) => {
                let mut label = text_of("custom:");
                label.append(value.as_str());
                label
            },
        }
    }

    /// A copy of this kind.
    pub fn copied(&self) -> (copy: Self)
        ensures
            copy == *self,
    {
        match self {
            ObservationKind::PatternSearch => ObservationKind::PatternSearch,
            ObservationKind::ProcessSearch => ObservationKind::ProcessSearch,
            ObservationKind::TextTransform => ObservationKind::TextTransform,
            ObservationKind::FileCheck => ObservationKind::FileCheck,
            ObservationKind::CommandProbe => ObservationKind::CommandProbe,
            ObservationKind::Custom(value) => ObservationKind::Custom(value.clone()),
        }
    }
}

/// A required or optional observation question that a compact observation
/// call should answer.
#[derive(Debug, Clone, PartialEq, Eq)]
pub struct ObservationRequirement {
    pub logical_id: String,
    pub operation_logical_id: String,
    pub kind: ObservationKind,
    pub question: String,
    pub required: bool,
    pub context_budget_hint: usize,
}

impl ObservationRequirement {
    #[verifier::opaque]
    pub open spec fn material(self) -> Seq<char> {
        "xccute.runtime.observation.requirement.v1\n"@
            + stable_field("logical_id"@, self.logical_id@)
            + stable_field("operation_logical_id"@, self.operation_logical_id@)
            + stable_field("kind"@, self.kind.label_text())
            + stable_field("question"@, self.question@)
            + stable_field("required"@, bool_text(self.required))
            + stable_field("context_budget_hint"@, decimal(self.context_budget_hint as nat))
    }

    pub fn stable_material(&self) -> (material: String)
        ensures
            material@ == self.material(),
    {
        let mut material = text_of("xccute.runtime.observation.requirement.v1\n");
        push_stable_field(&mut material, "logical_id", self.logical_id.as_str());
        push_stable_field(&mut material, "operation_logical_id", self.operation_logical_id.as_str());
        let kind = self.kind.stable_label();
        push_stable_field(&mut material, "kind", kind.as_str());
        push_stable_field(&mut material, "question", self.question.as_str());
        push_stable_field(&mut material, "required", bool_str(self.required));
        let budget = usize_text(self.context_budget_hint);
        push_stable_field(&mut material, "context_budget_hint", budget.as_str());
        proof {
            reveal(ObservationRequirement::material);
        }
        material
    }

    pub fn digest(&self) -> (digest: String)
        ensures
            digest@ == sha256_hex(self.material()),
    {
        let material = self.stable_material();
        sha256_digest(material.as_str())
    }

    /// A copy of this requirement.
    pub fn copied(&self) -> (copy: Self)
        ensures
            copy == *self,
    {
        ObservationRequirement {
            logical_id: self.logical_id.clone(),
            operation_logical_id: self.operation_logical_id.clone(),
            kind: self.kind.copied(),
            question: self.question.clone(),
            required: self.required,
            context_budget_hint: self.context_budget_hint,
        }
    }
}

/// A question/check the runtime expects before trusting a decision.
#[derive(Debug, Clone, PartialEq, Eq)]
pub struct GuideQuestion {
    pub logical_id: String,
    pub operation_logical_id: String,
    pub kind: ObservationKind,
    pub question: String,
    pub responsibility: String,
    pub required: bool,
    pub minimum_facts: usize,
    pub context_budget_hint: usize,
}

impl GuideQuestion {
    /// The observation requirement a question asks for.
    pub open spec fn requirement(self) -> ObservationRequirement {
        ObservationRequirement {
            logical_id: self.logical_id,
            operation_logical_id: self.operation_logical_id,
            kind: self.kind,
            question: self.question,
            required: self.required,
            context_budget_hint: self.context_budget_hint,
        }
    }

    #[verifier::opaque]
    pub open spec fn material(self) -> Seq<char> {
        "xccute.runtime.decision.question.v1\n"@
            + stable_field("logical_id"@, self.logical_id@)
            + stable_field("operation_logical_id"@, self.operation_logical_id@)
            + stable_field("kind"@, self.kind.label_text())
            + stable_field("question"@, self.question@)
            + stable_field("responsibility"@, self.responsibility@)
            + stable_field("required"@, bool_text(self.required))
            + stable_field("minimum_facts"@, decimal(self.minimum_facts as nat))
            + stable_field("context_budget_hint"@, decimal(self.context_budget_hint as nat))
    }

    /// A required question with one minimum fact and a 512-byte budget hint.
    pub fn required(
        logical_id: String,
        operation_logical_id: String,
        kind: ObservationKind,
        question: String,
        responsibility: String,
    ) -> (q: Self)
        ensures
            q == (GuideQuestion {
                logical_id,
                operation_logical_id,
                kind,
                question,
                responsibility,
                required: true,
                minimum_facts: 1,
                context_budget_hint: 512,
            }),
    {
        GuideQuestion {
            logical_id,
            operation_logical_id,
            kind,
            question,
            responsibility,
            required: true,
            minimum_facts: 1,
            context_budget_hint: 512,
        }
    }

    /// An optional question with one minimum fact and a 512-byte budget hint.
    pub fn optional(
        logical_id: String,
        operation_logical_id: String,
        kind: ObservationKind,
        question: String,
        responsibility: String,
    ) -> (q: Self)
        ensures
            q == (GuideQuestion {
                logical_id,
                operation_logical_id,
                kind,
                question,
                responsibility,
                required: false,
                minimum_facts: 1,
                context_budget_hint: 512,
            }),
    {
        GuideQuestion {
            logical_id,
            operation_logical_id,
            kind,
            question,
            responsibility,
            required: false,
            minimum_facts: 1,
            context_budget_hint: 512,
        }
    }

    pub fn with_minimum_facts(self, minimum_facts: usize) -> (q: Self)
        ensures
            q == (GuideQuestion { minimum_facts, ..self }),
    {
        GuideQuestion { minimum_facts, ..self }
    }

    pub fn with_context_budget_hint(self, bytes: usize) -> (q: Self)
        ensures
            q == (GuideQuestion { context_budget_hint: bytes, ..self }),
    {
        GuideQuestion { context_budget_hint: bytes, ..self }
    }

    pub fn to_observation_requirement(&self) -> (requirement: ObservationRequirement)
        ensures
            requirement == self.requirement(),
    {
        ObservationRequirement {
            logical_id: self.logical_id.clone(),
            operation_logical_id: self.operation_logical_id.clone(),
            kind: self.kind.copied(),
            question: self.question.clone(),
            required: self.required,
            context_budget_hint: self.context_budget_hint,
        }
    }

    pub fn stable_material(&self) -> (material: String)
        ensures
            material@ == self.material(),
    {
        let mut material = text_of("xccute.runtime.decision.question.v1\n");
        push_stable_field(&mut material, "logical_id", self.logical_id.as_str());
        push_stable_field(&mut material, "operation_logical_id", self.operation_logical_id.as_str());
        let kind = self.kind.stable_label();
        push_stable_field(&mut material, "kind", kind.as_str());
        push_stable_field(&mut material, "question", self.question.as_str());
        push_stable_field(&mut material, "responsibility", self.responsibility.as_str());
        push_stable_field(&mut material, "required", bool_str(self.required));
        let minimum = usize_text(self.minimum_facts);
        push_stable_field(&mut material, "minimum_facts", minimum.as_str());
        let budget = usize_text(self.context_budget_hint);
        push_stable_field(&mut material, "context_budget_hint", budget.as_str());
        proof {
            reveal(GuideQuestion::material);
        }
        material
    }

    pub fn digest(&self) -> (digest: String)
        ensures
            digest@ == sha256_hex(self.material()),
    {
        let material = self.stable_material();
        sha256_digest(material.as_str())
    }

    /// A copy of this question.
    pub fn copied(&self) -> (copy: Self)
        ensures
            copy == *self,
    {
        GuideQuestion {
            logical_id: self.logical_id.clone(),
            operation_logical_id: self.operation_logical_id.clone(),
            kind: self.kind.copied(),
            question: self.question.clone(),
            responsibility: self.responsibility.clone(),
            required: self.required,
            minimum_facts: self.minimum_facts,
            context_budget_hint: self.context_budget_hint,
        }
    }
}

/// One operation of a runtime operation plan, as decision logic reads it: its
/// logical id and its runtime digest.
#[derive(Debug, Clone, PartialEq, Eq)]
pub struct OperationLink {
    pub logical_id: String,
    pub digest: String,
}

/// A runtime operation plan, as decision logic reads it: its id, its runtime
/// digest and its operations in plan order.
#[derive(Debug, Clone, PartialEq, Eq)]
pub struct OperationPlanLink {
    pub plan_id: String,
    pub digest: String,
    pub operations: Vec<OperationLink>,
}

/// Index of the first operation with the given logical id, if any.
pub open spec fn first_operation_index(operations: Seq<OperationLink>, logical_id: Seq<char>) -> Option<int>
    decreases operations.len(),
{
    if operations.len() == 0 {
        None
    } else {
        match first_operation_index(operations.drop_last(), logical_id) {
            Some(index) => Some(index),
            None => if operations.last().logical_id@ == logical_id {
                Some(operations.len() - 1)
            } else {
                None
            },
        }
    }
}

pub proof fn lemma_first_operation_index(operations: Seq<OperationLink>, logical_id: Seq<char>)
    ensures
        match first_operation_index(operations, logical_id) {
            Some(index) => 0 <= index < operations.len() && operations[index].logical_id@ == logical_id
                && forall|j: int| 0 <= j < index ==> operations[j].logical_id@ != logical_id,
            None => forall|j: int| 0 <= j < operations.len() ==> operations[j].logical_id@ != logical_id,
        },
    decreases operations.len(),
{
    if operations.len() > 0 {
        let prefix = operations.drop_last();
        lemma_first_operation_index(prefix, logical_id);
        assert(forall|j: int| 0 <= j < prefix.len() ==> prefix[j] == operations[j]);
    }
}

impl OperationLink {
    /// A copy of this link.
    pub fn copied(&self) -> (copy: Self)
        ensures
            copy == *self,
    {
        OperationLink { logical_id: self.logical_id.clone(), digest: self.digest.clone() }
    }
}

impl OperationPlanLink {
    /// The first operation with the given logical id, if any.
    pub fn operation_by_logical_id(&self, logical_id: &str) -> (found: Option<OperationLink>)
        ensures
            match first_operation_index(self.operations@, logical_id@) {
                Some(index) => found == Some(self.operations@[index]),
                None => found is None,
            },
    {
        let mut i: usize = 0;
        while i < self.operations.len()
            invariant
                i <= self.operations.len(),
                first_operation_index(self.operations@.take(i as int), logical_id@) is None,
            decreases self.operations.len() - i,
        {
            assert(self.operations@.take(i + 1).drop_last() =~= self.operations@.take(i as int));
            if same_text(self.operations[i].logical_id.as_str(), logical_id) {
                proof {
                    lemma_first_operation_prefix(self.operations@, i as int + 1, logical_id@);
                }
                return Some(self.operations[i].copied());
            }
            i = i + 1;
        }
        assert(self.operations@.take(i as int) =~= self.operations@);
        None
    }
}

/// The first match of a prefix that has one is the first match of the whole.
proof fn lemma_first_operation_prefix(operations: Seq<OperationLink>, n: int, logical_id: Seq<char>)
    requires
        0 <= n <= operations.len(),
        first_operation_index(operations.take(n), logical_id) is Some,
    ensures
        first_operation_index(operations, logical_id) == first_operation_index(
            operations.take(n),
            logical_id,
        ),
    decreases operations.len() - n,
{
    if n < operations.len() {
        assert(operations.take(n + 1).drop_last() =~= operations.take(n));
        lemma_first_operation_prefix(operations, n + 1, logical_id);
    } else {
        assert(operations.take(n) =~= operations);
    }
}

/// A runtime material manifest, as decision logic reads it: its id and its
/// runtime digest.
#[derive(Debug, Clone, PartialEq, Eq)]
pub struct MaterialManifestLink {
    pub manifest_id: String,
    pub digest: String,
}

/// Link between an operation plan and the material manifest that must be
/// verified before the plan is run by a connector.
#[derive(Debug, Clone, PartialEq, Eq)]
pub struct PlanMaterialContract {
    pub plan_id: String,
    pub plan_digest: String,
    pub manifest_id: String,
    pub manifest_digest: String,
}

impl PlanMaterialContract {
    #[verifier::opaque]
    pub open spec fn material(self) -> Seq<char> {
        "xccute.runtime.plan.material.contract.v1\n"@
            + stable_field("plan_id"@, self.plan_id@)
            + stable_field("plan_digest"@, self.plan_digest@)
            + stable_field("manifest_id"@, self.manifest_id@)
            + stable_field("manifest_digest"@, self.manifest_digest@)
    }

    pub fn new(plan: &OperationPlanLink, manifest: &MaterialManifestLink) -> (contract: Self)
        ensures
            contract.plan_id == plan.plan_id,
            contract.plan_digest == plan.digest,
            contract.manifest_id == manifest.manifest_id,
            contract.manifest_digest == manifest.digest,
    {
        PlanMaterialContract {
            plan_id: plan.plan_id.clone(),
            plan_digest: plan.digest.clone(),
            manifest_id: manifest.manifest_id.clone(),
            manifest_digest: manifest.digest.clone(),
        }
    }

    pub fn stable_material(&self) -> (material: String)
        ensures
            material@ == self.material(),
    {
        let mut material = text_of("xccute.runtime.plan.material.contract.v1\n");
        push_stable_field(&mut material, "plan_id", self.plan_id.as_str());
        push_stable_field(&mut material, "plan_digest", self.plan_digest.as_str());
        push_stable_field(&mut material, "manifest_id", self.manifest_id.as_str());
        push_stable_field(&mut material, "manifest_digest", self.manifest_digest.as_str());
        proof {
            reveal(PlanMaterialContract::material);
        }
        material
    }

    pub fn digest(&self) -> (digest: String)
        ensures
            digest@ == sha256_hex(self.material()),
    {
        let material = self.stable_material();
        sha256_digest(material.as_str())
    }
}

/// How a runtime guide lists question `index`: its digest, then its material.
pub open spec fn guide_question_entry(index: int, question: GuideQuestion) -> Seq<char> {
    "question["@ + decimal(index as nat) + "].digest="@ + sha256_hex(question.material()) + "\n"@
        + question.material()
}

pub open spec fn guide_question_entries(questions: Seq<GuideQuestion>) -> Seq<char>
    decreases questions.len(),
{
    if questions.len() == 0 {
        Seq::empty()
    } else {
        guide_question_entries(questions.drop_last()) + guide_question_entry(
            questions.len() - 1,
            questions.last(),
        )
    }
}

proof fn lemma_guide_question_entries_take(questions: Seq<GuideQuestion>, i: int)
    requires
        0 <= i < questions.len(),
    ensures
        guide_question_entries(questions.take(i + 1)) == guide_question_entries(questions.take(i))
            + guide_question_entry(i, questions[i]),
{
    assert(questions.take(i + 1).drop_last() =~= questions.take(i));
}

/// The requirements a sequence of questions asks for, in order.
pub open spec fn requirements_of(questions: Seq<GuideQuestion>) -> Seq<ObservationRequirement> {
    Seq::new(questions.len(), |i: int| questions[i].requirement())
}

/// The required questions, in order.
pub open spec fn required_guide_questions(questions: Seq<GuideQuestion>) -> Seq<GuideQuestion>
    decreases questions.len(),
{
    if questions.len() == 0 {
        Seq::empty()
    } else if questions.last().required {
        required_guide_questions(questions.drop_last()).push(questions.last())
    } else {
        required_guide_questions(questions.drop_last())
    }
}

/// A guide for a solution path: goal, focused questions and the plan they
/// apply to.
#[derive(Debug, Clone, PartialEq, Eq)]
pub struct DecisionGuide {
    pub guide_id: String,
    pub goal: String,
    pub plan_id: String,
    pub plan_digest: String,
    pub questions: Vec<GuideQuestion>,
}

impl DecisionGuide {
    #[verifier::opaque]
    pub open spec fn material(self) -> Seq<char> {
        "xccute.runtime.decision.guide.v1\n"@
            + stable_field("guide_id"@, self.guide_id@)
            + stable_field("goal"@, self.goal@)
            + stable_field("plan_id"@, self.plan_id@)
            + stable_field("plan_digest"@, self.plan_digest@)
            + guide_question_entries(self.questions@)
    }

    pub fn new(guide_id: String, goal: String, plan: &OperationPlanLink) -> (guide: Self)
        ensures
            guide.guide_id == guide_id,
            guide.goal == goal,
            guide.plan_id == plan.plan_id,
            guide.plan_digest == plan.digest,
            guide.questions@ == Seq::<GuideQuestion>::empty(),
    {
        DecisionGuide {
            guide_id,
            goal,
            plan_id: plan.plan_id.clone(),
            plan_digest: plan.digest.clone(),
            questions: Vec::new(),
        }
    }

    pub fn ask(self, question: GuideQuestion) -> (guide: Self)
        ensures
            guide.guide_id == self.guide_id,
            guide.goal == self.goal,
            guide.plan_id == self.plan_id,
            guide.plan_digest == self.plan_digest,
            guide.questions@ == self.questions@.push(question),
    {
        let mut guide = self;
        guide.questions.push(question);
        guide
    }

    pub fn to_observation_plan(&self, observation_plan_id: String) -> (plan: ObservationPlan)
        ensures
            plan.observation_plan_id == observation_plan_id,
            plan.plan_id == self.plan_id,
            plan.plan_digest == self.plan_digest,
            plan.requirements@ == requirements_of(self.questions@),
    {
        let mut requirements: Vec<ObservationRequirement> = Vec::new();
        let mut i: usize = 0;
        while i < self.questions.len()
            invariant
                i <= self.questions.len(),
                requirements@ =~= requirements_of(self.questions@.take(i as int)),
            decreases self.questions.len() - i,
        {
            requirements.push(self.questions[i].to_observation_requirement());
            i = i + 1;
        }
        assert(self.questions@.take(i as int) =~= self.questions@);
        ObservationPlan {
            observation_plan_id,
            plan_id: self.plan_id.clone(),
            plan_digest: self.plan_digest.clone(),
            requirements,
        }
    }

    pub fn required_questions(&self) -> (questions: Vec<GuideQuestion>)
        ensures
            questions@ == required_guide_questions(self.questions@),
    {
        let mut questions: Vec<GuideQuestion> = Vec::new();
        let mut i: usize = 0;
        while i < self.questions.len()
            invariant
                i <= self.questions.len(),
                questions@ == required_guide_questions(self.questions@.take(i as int)),
            decreases self.questions.len() - i,
        {
            assert(self.questions@.take(i + 1).drop_last() =~= self.questions@.take(i as int));
            if self.questions[i].required {
                questions.push(self.questions[i].copied());
            }
            i = i + 1;
        }
        assert(self.questions@.take(i as int) =~= self.questions@);
        questions
    }

    pub fn stable_material(&self) -> (material: String)
        ensures
            material@ == self.material(),
    {
        let mut material = text_of("xccute.runtime.decision.guide.v1\n");
        push_stable_field(&mut material, "guide_id", self.guide_id.as_str());
        push_stable_field(&mut material, "goal", self.goal.as_str());
        push_stable_field(&mut material, "plan_id", self.plan_id.as_str());
        push_stable_field(&mut material, "plan_digest", self.plan_digest.as_str());
        let ghost header = material@;
        let mut i: usize = 0;
        while i < self.questions.len()
            invariant
                i <= self.questions.len(),
                material@ == header + guide_question_entries(self.questions@.take(i as int)),
            decreases self.questions.len() - i,
        {
            let question = &self.questions[i];
            let index_text = usize_text(i);
            let digest = question.digest();
            let question_material = question.stable_material();
            let ghost before = material@;
            material.append("question[");
            material.append(index_text.as_str());
            material.append("].digest=");
            material.append(digest.as_str());
            material.append("\n");
            material.append(question_material.as_str());
            proof {
                lemma_guide_question_entries_take(self.questions@, i as int);
                assert(material@ =~= before + guide_question_entry(i as int, self.questions@[i as int]));
            }
            i = i + 1;
        }
        assert(self.questions@.take(i as int) =~= self.questions@);
        proof {
            reveal(DecisionGuide::material);
        }
        material
    }

    pub fn digest(&self) -> (digest: String)
        ensures
            digest@ == sha256_hex(self.material()),
    {
        let material = self.stable_material();
        sha256_digest(material.as_str())
    }
}

/// How an observation plan lists requirement `index`: its digest, then its
/// material.
pub open spec fn requirement_entry(index: int, requirement: ObservationRequirement) -> Seq<char> {
    "requirement["@ + decimal(index as nat) + "].digest="@ + sha256_hex(requirement.material())
        + "\n"@ + requirement.material()
}

pub open spec fn requirement_entries(requirements: Seq<ObservationRequirement>) -> Seq<char>
    decreases requirements.len(),
{
    if requirements.len() == 0 {
        Seq::empty()
    } else {
        requirement_entries(requirements.drop_last()) + requirement_entry(
            requirements.len() - 1,
            requirements.last(),
        )
    }
}

proof fn lemma_requirement_entries_take(requirements: Seq<ObservationRequirement>, i: int)
    requires
        0 <= i < requirements.len(),
    ensures
        requirement_entries(requirements.take(i + 1)) == requirement_entries(requirements.take(i))
            + requirement_entry(i, requirements[i]),
{
    assert(requirements.take(i + 1).drop_last() =~= requirements.take(i));
}

/// Observation requirements linked to an operation plan.
#[derive(Debug, Clone, PartialEq, Eq)]
pub struct ObservationPlan {
    pub observation_plan_id: String,
    pub plan_id: String,
    pub plan_digest: String,
    pub requirements: Vec<ObservationRequirement>,
}

impl ObservationPlan {
    #[verifier::opaque]
    pub open spec fn material(self) -> Seq<char> {
        "xccute.runtime.observation.plan.v1\n"@
            + stable_field("observation_plan_id"@, self.observation_plan_id@)
            + stable_field("plan_id"@, self.plan_id@)
            + stable_field("plan_digest"@, self.plan_digest@)
            + requirement_entries(self.requirements@)
    }

    pub fn stable_material(&self) -> (material: String)
        ensures
            material@ == self.material(),
    {
        let mut material = text_of("xccute.runtime.observation.plan.v1\n");
        push_stable_field(&mut material, "observation_plan_id", self.observation_plan_id.as_str());
        push_stable_field(&mut material, "plan_id", self.plan_id.as_str());
        push_stable_field(&mut material, "plan_digest", self.plan_digest.as_str());
        let ghost header = material@;
        let mut i: usize = 0;
        while i < self.requirements.len()
            invariant
                i <= self.requirements.len(),
                material@ == header + requirement_entries(self.requirements@.take(i as int)),
            decreases self.requirements.len() - i,
        {
            let requirement = &self.requirements[i];
            let index_text = usize_text(i);
            let digest = requirement.digest();
            let requirement_material = requirement.stable_material();
            let ghost before = material@;
            material.append("requirement[");
            material.append(index_text.as_str());
            material.append("].digest=");
            material.append(digest.as_str());
            material.append("\n");
            material.append(requirement_material.as_str());
            proof {
                lemma_requirement_entries_take(self.requirements@, i as int);
                assert(material@ =~= before + requirement_entry(
                    i as int,
                    self.requirements@[i as int],
                ));
            }
            i = i + 1;
        }
        assert(self.requirements@.take(i as int) =~= self.requirements@);
        proof {
            reveal(ObservationPlan::material);
        }
        material
    }

    pub fn digest(&self) -> (digest: String)
        ensures
            digest@ == sha256_hex(self.material()),
    {
        let material = self.stable_material();
        sha256_digest(material.as_str())
    }
}

/// Stable identity for a runtime connector.
#[derive(Debug, Clone, PartialEq, Eq)]
pub struct ConnectorIdentity {
    pub connector_id: String,
    pub connector_kind: String,
}

impl ConnectorIdentity {
    pub fn new(connector_id: String, connector_kind: String) -> (identity: Self)
        ensures
            identity.connector_id == connector_id,
            identity.connector_kind == connector_kind,
    {
        ConnectorIdentity { connector_id, connector_kind }
    }
}

/// Errors raised while forming a connector call.
#[derive(Debug, Clone, PartialEq, Eq)]
pub enum ConnectorError {
    OperationNotInPlan { logical_id: String },
}

/// Whether a plan holds an operation with the given digest.
pub open spec fn plan_holds_digest(plan: OperationPlanLink, digest: Seq<char>) -> bool {
    exists|i: int| 0 <= i < plan.operations.len() && #[trigger] plan.operations@[i].digest@ == digest
}

/// Deterministic request from an external connector: this service/function
/// asked for this known operation of this known plan for this reason.
#[derive(Debug, Clone, PartialEq, Eq)]
pub struct ConnectorCall {
    pub connector: ConnectorIdentity,
    pub service: String,
    pub function: String,
    pub plan_id: String,
    pub plan_digest: String,
    pub operation_logical_id: String,
    pub operation_digest: String,
    pub requested_reason: String,
}

impl ConnectorCall {
    #[verifier::opaque]
    pub open spec fn material(self) -> Seq<char> {
        "xccute.runtime.connector.call.v1\n"@
            + stable_field("connector_id"@, self.connector.connector_id@)
            + stable_field("connector_kind"@, self.connector.connector_kind@)
            + stable_field("service"@, self.service@)
            + stable_field("function"@, self.function@)
            + stable_field("plan_id"@, self.plan_id@)
            + stable_field("plan_digest"@, self.plan_digest@)
            + stable_field("operation_logical_id"@, self.operation_logical_id@)
            + stable_field("operation_digest"@, self.operation_digest@)
            + stable_field("requested_reason"@, self.requested_reason@)
    }

    /// A call for an operation of a plan; refused when the plan holds no
    /// operation with the operation's digest.
    pub fn for_operation(
        connector: ConnectorIdentity,
        service: String,
        function: String,
        plan: &OperationPlanLink,
        operation: &OperationLink,
        requested_reason: String,
    ) -> (call: Result<Self, ConnectorError>)
        ensures
            plan_holds_digest(*plan, operation.digest@) ==> call == Ok::<Self, ConnectorError>(
                ConnectorCall {
                    connector,
                    service,
                    function,
                    plan_id: plan.plan_id,
                    plan_digest: plan.digest,
                    operation_logical_id: operation.logical_id,
                    operation_digest: operation.digest,
                    requested_reason,
                },
            ),
            !plan_holds_digest(*plan, operation.digest@) ==> call == Err::<Self, ConnectorError>(
                ConnectorError::OperationNotInPlan { logical_id: operation.logical_id },
            ),
    {
        let mut i: usize = 0;
        while i < plan.operations.len()
            invariant
                i <= plan.operations.len(),
                forall|j: int| 0 <= j < i ==> plan.operations@[j].digest@ != operation.digest@,
            decreases plan.operations.len() - i,
        {
            if plan.operations[i].digest == operation.digest {
                assert(plan.operations@[i as int].digest@ == operation.digest@);
                return Ok(
                    ConnectorCall {
                        connector,
                        service,
                        function,
                        plan_id: plan.plan_id.clone(),
                        plan_digest: plan.digest.clone(),
                        operation_logical_id: operation.logical_id.clone(),
                        operation_digest: operation.digest.clone(),
                        requested_reason,
                    },
                );
            }
            i = i + 1;
        }
        Err(ConnectorError::OperationNotInPlan { logical_id: operation.logical_id.clone() })
    }

    pub fn stable_material(&self) -> (material: String)
        ensures
            material@ == self.material(),
    {
        let mut material = text_of("xccute.runtime.connector.call.v1\n");
        push_stable_field(&mut material, "connector_id", self.connector.connector_id.as_str());
        push_stable_field(&mut material, "connector_kind", self.connector.connector_kind.as_str());
        push_stable_field(&mut material, "service", self.service.as_str());
        push_stable_field(&mut material, "function", self.function.as_str());
        push_stable_field(&mut material, "plan_id", self.plan_id.as_str());
        push_stable_field(&mut material, "plan_digest", self.plan_digest.as_str());
        push_stable_field(&mut material, "operation_logical_id", self.operation_logical_id.as_str());
        push_stable_field(&mut material, "operation_digest", self.operation_digest.as_str());
        push_stable_field(&mut material, "requested_reason", self.requested_reason.as_str());
        proof {
            reveal(ConnectorCall::material);
        }
        material
    }

    pub fn digest(&self) -> (digest: String)
        ensures
            digest@ == sha256_hex(self.material()),
    {
        let material = self.stable_material();
        sha256_digest(material.as_str())
    }
}

} // verus!
