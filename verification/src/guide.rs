//! Source-level guided decision templates.
//!
//! Runtime receipts prove what happened. This module owns the decision-side
//! source contract: what goal is being pursued, which focused questions may be
//! asked, which observations are required, which ones are optional, and how
//! that source contract materializes into runtime observation requirements.

use crate::observation_tool::DecisionObservationTool;
use crate::path::{asks_required, DecisionPathStepKind, DecisionPathTemplate};
use crate::runtime_model::{
    requirements_of, DecisionGuide, GuideQuestion, ObservationKind, ObservationPlan,
    OperationPlanLink,
};
use crate::stable::{
    bool_str, bool_text, decimal, push_stable_field, sha256_digest, sha256_hex,
    stable_field, text_of, usize_text,
};
use vstd::prelude::*;

verus! {

#[derive(Debug, Clone, PartialEq, Eq)]
pub struct DecisionQuestionSpec {
    pub logical_id: String,
    pub operation_logical_id: String,
    pub tool_id: String,
    pub kind: ObservationKind,
    pub question: String,
    pub responsibility: String,
    pub required: bool,
    pub minimum_facts: usize,
    pub context_budget_hint: usize,
}

/// Whether a question spec is the one a tool yields for the given ids and
/// question text: the tool's id, kind and responsibility, one minimum fact and
/// a 512-byte budget hint.
pub open spec fn is_spec_from_tool(
    spec: DecisionQuestionSpec,
    tool: DecisionObservationTool,
    logical_id: Seq<char>,
    operation_logical_id: Seq<char>,
    question: Seq<char>,
    required: bool,
) -> bool {
    &&& spec.logical_id@ == logical_id
    &&& spec.operation_logical_id@ == operation_logical_id
    &&& spec.tool_id@ == tool.tool_id@
    &&& spec.kind == tool.kind
    &&& spec.question@ == question
    &&& spec.responsibility@ == tool.responsibility@
    &&& spec.required == required
    &&& spec.minimum_facts == 1
    &&& spec.context_budget_hint == 512
}

impl DecisionQuestionSpec {
    /// The runtime question this spec materializes into.
    pub open spec fn runtime_question(self) -> GuideQuestion {
        GuideQuestion {
            logical_id: self.logical_id,
            operation_logical_id: self.operation_logical_id,
            kind: self.kind,
            question: self.question,
            responsibility: self.responsibility,
            required: self.required,
            minimum_facts: self.minimum_facts,
            context_budget_hint: self.context_budget_hint,
        }
    }

    #[verifier::opaque]
    pub open spec fn material(self) -> Seq<char> {
        "xccute.decisions.question.spec.v1\n"@
            + stable_field("logical_id"@, self.logical_id@)
            + stable_field("operation_logical_id"@, self.operation_logical_id@)
            + stable_field("tool_id"@, self.tool_id@)
            + stable_field("kind"@, self.kind.label_text())
            + stable_field("question"@, self.question@)
            + stable_field("responsibility"@, self.responsibility@)
            + stable_field("required"@, bool_text(self.required))
            + stable_field("minimum_facts"@, decimal(self.minimum_facts as nat))
            + stable_field("context_budget_hint"@, decimal(self.context_budget_hint as nat))
    }

    pub fn required(
        logical_id: &str,
        operation_logical_id: &str,
        tool: &DecisionObservationTool,
        question: &str,
    ) -> (spec: Self)
        ensures
            is_spec_from_tool(spec, *tool, logical_id@, operation_logical_id@, question@, true),
    {
        Self::from_tool(logical_id, operation_logical_id, tool, question, true)
    }

    pub fn optional(
        logical_id: &str,
        operation_logical_id: &str,
        tool: &DecisionObservationTool,
        question: &str,
    ) -> (spec: Self)
        ensures
            is_spec_from_tool(spec, *tool, logical_id@, operation_logical_id@, question@, false),
    {
        Self::from_tool(logical_id, operation_logical_id, tool, question, false)
    }

    fn from_tool(
        logical_id: &str,
        operation_logical_id: &str,
        tool: &DecisionObservationTool,
        question: &str,
        required: bool,
    ) -> (spec: Self)
        ensures
            is_spec_from_tool(spec, *tool, logical_id@, operation_logical_id@, question@, required),
    {
        DecisionQuestionSpec {
            logical_id: text_of(logical_id),
            operation_logical_id: text_of(operation_logical_id),
            tool_id: text_of(tool.tool_id),
            kind: tool.kind.copied(),
            question: text_of(question),
            responsibility: text_of(tool.responsibility),
            required,
            minimum_facts: 1,
            context_budget_hint: 512,
        }
    }

    pub fn with_minimum_facts(self, minimum_facts: usize) -> (spec: Self)
        ensures
            spec == (DecisionQuestionSpec { minimum_facts, ..self }),
    {
        DecisionQuestionSpec { minimum_facts, ..self }
    }

    pub fn with_context_budget_hint(self, bytes: usize) -> (spec: Self)
        ensures
            spec == (DecisionQuestionSpec { context_budget_hint: bytes, ..self }),
    {
        DecisionQuestionSpec { context_budget_hint: bytes, ..self }
    }

    pub fn materialize(&self) -> (question: GuideQuestion)
        ensures
            question == self.runtime_question(),
    {
        let question = if self.required {
            GuideQuestion::required(
                self.logical_id.clone(),
                self.operation_logical_id.clone(),
                self.kind.copied(),
                self.question.clone(),
                self.responsibility.clone(),
            )
        } else {
            GuideQuestion::optional(
                self.logical_id.clone(),
                self.operation_logical_id.clone(),
                self.kind.copied(),
                self.question.clone(),
                self.responsibility.clone(),
            )
        };
        question.with_minimum_facts(self.minimum_facts).with_context_budget_hint(
            self.context_budget_hint,
        )
    }

    /// A copy of this spec.
    pub fn copied(&self) -> (copy: Self)
        ensures
            copy == *self,
    {
        DecisionQuestionSpec {
            logical_id: self.logical_id.clone(),
            operation_logical_id: self.operation_logical_id.clone(),
            tool_id: self.tool_id.clone(),
            kind: self.kind.copied(),
            question: self.question.clone(),
            responsibility: self.responsibility.clone(),
            required: self.required,
            minimum_facts: self.minimum_facts,
            context_budget_hint: self.context_budget_hint,
        }
    }

    pub fn stable_material(&self) -> (material: String)
        ensures
            material@ == self.material(),
    {
        let mut material = text_of("xccute.decisions.question.spec.v1\n");
        push_stable_field(&mut material, "logical_id", self.logical_id.as_str());
        push_stable_field(&mut material, "operation_logical_id", self.operation_logical_id.as_str());
        push_stable_field(&mut material, "tool_id", self.tool_id.as_str());
        let kind = self.kind.stable_label();
        push_stable_field(&mut material, "kind", kind.as_str());
        push_stable_field(&mut material, "question", self.question.as_str());
        push_stable_field(&mut material, "responsibility", self.responsibility.as_str());
        push_stable_field(&mut material, "required", bool_str(self.required));
        let minimum = usize_text(self.minimum_facts);
        push_stable_field(&mut material, "minimum_facts", minimum.as_str());
        let budget = usize_text(self.context_budget_hint);
        push_stable_field(&mut material, "context_budget_hint", budget.as_str());
        proof {
            reveal(DecisionQuestionSpec::material);
        }
        material
    }

    pub fn digest(&self) -> (digest: String)
        ensures
            digest@ == sha256_hex(self.material()),
    {
        let material = self.stable_material();
        sha256_digest(material.as_str())
    }
}

#[derive(Debug, Clone, PartialEq, Eq)]
pub enum DecisionGuideTemplateError {
    MissingRequiredPathQuestions { missing_question_ids: Vec<String> },
    MissingRequiredPathOperations { missing_operation_ids: Vec<String> },
    UnexpectedRequiredQuestion { question_ids: Vec<String> },
}

pub type DecisionGuideTemplateResult<T> = Result<T, DecisionGuideTemplateError>;

/// The views of a list of texts.
pub open spec fn texts(values: Seq<String>) -> Seq<Seq<char>> {
    Seq::new(values.len(), |i: int| values[i]@)
}

/// Whether some required question asks the given question for the given
/// operation.
pub open spec fn covers(
    questions: Seq<DecisionQuestionSpec>,
    question_id: Seq<char>,
    operation_id: Seq<char>,
) -> bool {
    exists|i: int|
        0 <= i < questions.len() && #[trigger] questions[i].required
            && questions[i].logical_id@ == question_id && questions[i].operation_logical_id@
            == operation_id
}

/// The ids that required path steps leave unanswered, in path order: the
/// question id of a step whose question and operation no required question
/// covers, the operation id of a step with no question id, the step id of a
/// step with neither.
pub open spec fn missing_question_ids(
    steps: Seq<crate::path::DecisionPathStep>,
    questions: Seq<DecisionQuestionSpec>,
) -> Seq<Seq<char>>
    decreases steps.len(),
{
    if steps.len() == 0 {
        Seq::empty()
    } else {
        let prior = missing_question_ids(steps.drop_last(), questions);
        let step = steps.last();
        if step.kind != DecisionPathStepKind::RequiredObservation {
            prior
        } else {
            match (step.question_logical_id, step.operation_logical_id) {
                (Some(question_id), Some(operation_id)) => if covers(
                    questions,
                    question_id@,
                    operation_id@,
                ) {
                    prior
                } else {
                    prior.push(question_id@)
                },
                (Some(_), None) => prior,
                (None, Some(operation_id)) => prior.push(operation_id@),
                (None, None) => prior.push(step.step_id@),
            }
        }
    }
}

/// The question ids of required path steps that name no operation, in path
/// order.
pub open spec fn missing_operation_ids(steps: Seq<crate::path::DecisionPathStep>) -> Seq<Seq<char>>
    decreases steps.len(),
{
    if steps.len() == 0 {
        Seq::empty()
    } else {
        let prior = missing_operation_ids(steps.drop_last());
        let step = steps.last();
        if step.kind == DecisionPathStepKind::RequiredObservation && step.question_logical_id is Some
            && step.operation_logical_id is None {
            prior.push(step.question_logical_id->0@)
        } else {
            prior
        }
    }
}

/// Whether some required step of the path asks the given question.
pub open spec fn path_requires(steps: Seq<crate::path::DecisionPathStep>, question_id: Seq<char>) -> bool {
    exists|j: int| 0 <= j < steps.len() && #[trigger] asks_required(steps[j], question_id)
}

/// The ids of required questions that no required path step asks, in
/// question order.
pub open spec fn unexpected_required_ids(
    questions: Seq<DecisionQuestionSpec>,
    steps: Seq<crate::path::DecisionPathStep>,
) -> Seq<Seq<char>>
    decreases questions.len(),
{
    if questions.len() == 0 {
        Seq::empty()
    } else {
        let prior = unexpected_required_ids(questions.drop_last(), steps);
        let question = questions.last();
        if question.required && !path_requires(steps, question.logical_id@) {
            prior.push(question.logical_id@)
        } else {
            prior
        }
    }
}

/// The questions marked required (or not), in order.
pub open spec fn questions_with_required(questions: Seq<DecisionQuestionSpec>, required: bool) -> Seq<
    DecisionQuestionSpec,
>
    decreases questions.len(),
{
    if questions.len() == 0 {
        Seq::empty()
    } else if questions.last().required == required {
        questions_with_required(questions.drop_last(), required).push(questions.last())
    } else {
        questions_with_required(questions.drop_last(), required)
    }
}

/// The runtime questions a sequence of specs materializes into, in order.
pub open spec fn runtime_questions(questions: Seq<DecisionQuestionSpec>) -> Seq<GuideQuestion> {
    Seq::new(questions.len(), |i: int| questions[i].runtime_question())
}

/// How a guide template lists question `index`: its digest, then its material.
pub open spec fn spec_entry(index: int, question: DecisionQuestionSpec) -> Seq<char> {
    "question["@ + decimal(index as nat) + "].digest="@ + sha256_hex(question.material()) + "\n"@
        + question.material()
}

pub open spec fn spec_entries(questions: Seq<DecisionQuestionSpec>) -> Seq<char>
    decreases questions.len(),
{
    if questions.len() == 0 {
        Seq::empty()
    } else {
        spec_entries(questions.drop_last()) + spec_entry(questions.len() - 1, questions.last())
    }
}

pub proof fn lemma_spec_entries_take(questions: Seq<DecisionQuestionSpec>, i: int)
    requires
        0 <= i < questions.len(),
    ensures
        spec_entries(questions.take(i + 1)) == spec_entries(questions.take(i)) + spec_entry(
            i,
            questions[i],
        ),
{
    assert(questions.take(i + 1).drop_last() =~= questions.take(i));
}

#[derive(Debug, Clone, PartialEq, Eq)]
pub struct DecisionGuideTemplate {
    pub guide_id: String,
    pub goal: String,
    pub path: DecisionPathTemplate,
    pub questions: Vec<DecisionQuestionSpec>,
}

impl DecisionGuideTemplate {
    pub open spec fn missing_questions(self) -> Seq<Seq<char>> {
        missing_question_ids(self.path.steps@, self.questions@)
    }

    pub open spec fn missing_operations(self) -> Seq<Seq<char>> {
        missing_operation_ids(self.path.steps@)
    }

    pub open spec fn unexpected_required(self) -> Seq<Seq<char>> {
        unexpected_required_ids(self.questions@, self.path.steps@)
    }

    /// Whether every required path step is answered by a required question
    /// and every required question is asked by a required path step.
    pub open spec fn covers_path(self) -> bool {
        &&& self.missing_questions().len() == 0
        &&& self.missing_operations().len() == 0
        &&& self.unexpected_required().len() == 0
    }

    /// Whether an error is the one path-coverage validation reports: the first
    /// non-empty list among missing questions, missing operations and
    /// unexpected required questions.
    pub open spec fn coverage_error(self, error: DecisionGuideTemplateError) -> bool {
        match error {
            DecisionGuideTemplateError::MissingRequiredPathQuestions { missing_question_ids } => {
                &&& self.missing_questions().len() > 0
                &&& texts(missing_question_ids@) == self.missing_questions()
            },
            DecisionGuideTemplateError::MissingRequiredPathOperations { missing_operation_ids } => {
                &&& self.missing_questions().len() == 0
                &&& self.missing_operations().len() > 0
                &&& texts(missing_operation_ids@) == self.missing_operations()
            },
            DecisionGuideTemplateError::UnexpectedRequiredQuestion { question_ids } => {
                &&& self.missing_questions().len() == 0
                &&& self.missing_operations().len() == 0
                &&& self.unexpected_required().len() > 0
                &&& texts(question_ids@) == self.unexpected_required()
            },
        }
    }

    /// Whether a runtime guide is the one this template materializes for a
    /// plan: same id and goal, the plan's id and digest, and the questions'
    /// runtime forms in order.
    pub open spec fn is_runtime_guide(self, plan: OperationPlanLink, guide: DecisionGuide) -> bool {
        &&& guide.guide_id == self.guide_id
        &&& guide.goal == self.goal
        &&& guide.plan_id == plan.plan_id
        &&& guide.plan_digest == plan.digest
        &&& guide.questions@ == runtime_questions(self.questions@)
    }

    /// Whether an observation plan is the one this template materializes for
    /// a plan under the given id.
    pub open spec fn is_observation_plan(
        self,
        plan: OperationPlanLink,
        observation_plan_id: Seq<char>,
        observations: ObservationPlan,
    ) -> bool {
        &&& observations.observation_plan_id@ == observation_plan_id
        &&& observations.plan_id == plan.plan_id
        &&& observations.plan_digest == plan.digest
        &&& observations.requirements@ == requirements_of(runtime_questions(self.questions@))
    }

    #[verifier::opaque]
    pub open spec fn material(self) -> Seq<char> {
        "xccute.decisions.guide.template.v1\n"@
            + stable_field("guide_id"@, self.guide_id@)
            + stable_field("goal"@, self.goal@)
            + stable_field("path_digest"@, sha256_hex(self.path.material()))
            + self.path.material()
            + spec_entries(self.questions@)
    }

    pub fn new(guide_id: &str, goal: &str, path: DecisionPathTemplate) -> (guide: Self)
        ensures
            guide.guide_id@ == guide_id@,
            guide.goal@ == goal@,
            guide.path == path,
            guide.questions@ == Seq::<DecisionQuestionSpec>::empty(),
    {
        DecisionGuideTemplate {
            guide_id: text_of(guide_id),
            goal: text_of(goal),
            path,
            questions: Vec::new(),
        }
    }

    pub fn ask(self, question: DecisionQuestionSpec) -> (guide: Self)
        ensures
            guide.guide_id == self.guide_id,
            guide.goal == self.goal,
            guide.path == self.path,
            guide.questions@ == self.questions@.push(question),
    {
        let mut guide = self;
        guide.questions.push(question);
        guide
    }

    /// Whether a required question asks the given question for the given
    /// operation.
    fn is_covered(&self, question_id: &String, operation_id: &String) -> (covered: bool)
        ensures
            covered == covers(self.questions@, question_id@, operation_id@),
    {
        let mut i: usize = 0;
        while i < self.questions.len()
            invariant
                i <= self.questions.len(),
                forall|j: int|
                    0 <= j < i ==> !(#[trigger] self.questions@[j].required
                        && self.questions@[j].logical_id@ == question_id@
                        && self.questions@[j].operation_logical_id@ == operation_id@),
            decreases self.questions.len() - i,
        {
            let question = &self.questions[i];
            if question.required && question.logical_id == *question_id
                && question.operation_logical_id == *operation_id {
                return true;
            }
            i = i + 1;
        }
        false
    }

    pub fn validate_path_coverage(&self) -> (result: DecisionGuideTemplateResult<()>)
        ensures
            result is Ok <==> self.covers_path(),
            result matches Err(error) ==> self.coverage_error(error),
    {
        let mut missing_questions: Vec<String> = Vec::new();
        let mut missing_operations: Vec<String> = Vec::new();
        let steps = &self.path.steps;
        let mut i: usize = 0;
        while i < steps.len()
            invariant
                i <= steps.len(),
                steps@ == self.path.steps@,
                texts(missing_questions@) == missing_question_ids(
                    steps@.take(i as int),
                    self.questions@,
                ),
                texts(missing_operations@) == missing_operation_ids(steps@.take(i as int)),
            decreases steps.len() - i,
        {
            assert(steps@.take(i + 1).drop_last() =~= steps@.take(i as int));
            let step = &steps[i];
            let ghost before_questions = missing_questions@;
            let ghost before_operations = missing_operations@;
            if step.kind == DecisionPathStepKind::RequiredObservation {
                match (&step.question_logical_id, &step.operation_logical_id) {
                    (Some(question_id), Some(operation_id)) => {
                        if !self.is_covered(question_id, operation_id) {
                            missing_questions.push(question_id.clone());
                        }
                    },
                    (Some(question_id), None) => {
                        missing_operations.push(question_id.clone());
                    },
                    (None, Some(operation_id)) => {
                        missing_questions.push(operation_id.clone());
                    },
                    (None, None) => {
                        missing_questions.push(step.step_id.clone());
                    },
                }
            }
            assert(texts(missing_questions@) =~= missing_question_ids(
                steps@.take(i + 1),
                self.questions@,
            ));
            assert(texts(missing_operations@) =~= missing_operation_ids(steps@.take(i + 1)));
            i = i + 1;
        }
        assert(steps@.take(i as int) =~= steps@);
        if missing_questions.len() > 0 {
            return Err(
                DecisionGuideTemplateError::MissingRequiredPathQuestions {
                    missing_question_ids: missing_questions,
                },
            );
        }
        if missing_operations.len() > 0 {
            return Err(
                DecisionGuideTemplateError::MissingRequiredPathOperations {
                    missing_operation_ids: missing_operations,
                },
            );
        }
        let mut unexpected: Vec<String> = Vec::new();
        let mut k: usize = 0;
        while k < self.questions.len()
            invariant
                k <= self.questions.len(),
                texts(unexpected@) == unexpected_required_ids(
                    self.questions@.take(k as int),
                    self.path.steps@,
                ),
            decreases self.questions.len() - k,
        {
            assert(self.questions@.take(k + 1).drop_last() =~= self.questions@.take(k as int));
            let question = &self.questions[k];
            if question.required && !self.path.includes_required_observation(
                question.logical_id.as_str(),
            ) {
                unexpected.push(question.logical_id.clone());
            }
            assert(texts(unexpected@) =~= unexpected_required_ids(
                self.questions@.take(k + 1),
                self.path.steps@,
            ));
            k = k + 1;
        }
        assert(self.questions@.take(k as int) =~= self.questions@);
        if unexpected.len() > 0 {
            return Err(
                DecisionGuideTemplateError::UnexpectedRequiredQuestion { question_ids: unexpected },
            );
        }
        Ok(())
    }

    pub fn materialize_runtime_guide(&self, plan: &OperationPlanLink) -> (result:
        DecisionGuideTemplateResult<DecisionGuide>)
        ensures
            result is Ok <==> self.covers_path(),
            result matches Err(error) ==> self.coverage_error(error),
            result matches Ok(guide) ==> self.is_runtime_guide(*plan, guide),
    {
        match self.validate_path_coverage() {
            Err(error) => { return Err(error); },
            Ok(()) => {},
        }
        let mut guide = DecisionGuide::new(self.guide_id.clone(), self.goal.clone(), plan);
        let mut i: usize = 0;
        while i < self.questions.len()
            invariant
                i <= self.questions.len(),
                guide.guide_id == self.guide_id,
                guide.goal == self.goal,
                guide.plan_id == plan.plan_id,
                guide.plan_digest == plan.digest,
                guide.questions@ =~= runtime_questions(self.questions@.take(i as int)),
            decreases self.questions.len() - i,
        {
            guide = guide.ask(self.questions[i].materialize());
            i = i + 1;
        }
        assert(self.questions@.take(i as int) =~= self.questions@);
        Ok(guide)
    }

    pub fn materialize_observation_plan(&self, plan: &OperationPlanLink, observation_plan_id: &str) -> (result:
        DecisionGuideTemplateResult<ObservationPlan>)
        ensures
            result is Ok <==> self.covers_path(),
            result matches Err(error) ==> self.coverage_error(error),
            result matches Ok(observations) ==> self.is_observation_plan(
                *plan,
                observation_plan_id@,
                observations,
            ),
    {
        match self.materialize_runtime_guide(plan) {
            Err(error) => Err(error),
            Ok(guide) => Ok(guide.to_observation_plan(text_of(observation_plan_id))),
        }
    }

    fn questions_marked(&self, required: bool) -> (questions: Vec<DecisionQuestionSpec>)
        ensures
            questions@ == questions_with_required(self.questions@, required),
    {
        let mut questions: Vec<DecisionQuestionSpec> = Vec::new();
        let mut i: usize = 0;
        while i < self.questions.len()
            invariant
                i <= self.questions.len(),
                questions@ == questions_with_required(self.questions@.take(i as int), required),
            decreases self.questions.len() - i,
        {
            assert(self.questions@.take(i + 1).drop_last() =~= self.questions@.take(i as int));
            if self.questions[i].required == required {
                questions.push(self.questions[i].copied());
            }
            i = i + 1;
        }
        assert(self.questions@.take(i as int) =~= self.questions@);
        questions
    }

    /// The required questions, in order.
    pub fn required_questions(&self) -> (questions: Vec<DecisionQuestionSpec>)
        ensures
            questions@ == questions_with_required(self.questions@, true),
    {
        self.questions_marked(true)
    }

    /// The optional questions, in order.
    pub fn optional_questions(&self) -> (questions: Vec<DecisionQuestionSpec>)
        ensures
            questions@ == questions_with_required(self.questions@, false),
    {
        self.questions_marked(false)
    }

    /// A copy of the questions.
    pub fn copied_questions(&self) -> (questions: Vec<DecisionQuestionSpec>)
        ensures
            questions@ == self.questions@,
    {
        let mut questions: Vec<DecisionQuestionSpec> = Vec::new();
        let mut i: usize = 0;
        while i < self.questions.len()
            invariant
                i <= self.questions.len(),
                questions@ =~= self.questions@.take(i as int),
            decreases self.questions.len() - i,
        {
            questions.push(self.questions[i].copied());
            i = i + 1;
        }
        assert(self.questions@.take(i as int) =~= self.questions@);
        questions
    }

    pub fn stable_material(&self) -> (material: String)
        ensures
            material@ == self.material(),
    {
        let mut material = text_of("xccute.decisions.guide.template.v1\n");
        push_stable_field(&mut material, "guide_id", self.guide_id.as_str());
        push_stable_field(&mut material, "goal", self.goal.as_str());
        let path_digest = self.path.digest();
        push_stable_field(&mut material, "path_digest", path_digest.as_str());
        let path_material = self.path.stable_material();
        material.append(path_material.as_str());
        let ghost header = material@;
        let mut i: usize = 0;
        while i < self.questions.len()
            invariant
                i <= self.questions.len(),
                material@ == header + spec_entries(self.questions@.take(i as int)),
            decreases self.questions.len() - i,
        {
            let question = &self.questions[i];
            let index_text = usize_text(i);
            let digest = question.digest();
            let question_material = question.stable_material();
            let ghost before = material@;
            material.append("question[");
            material.append(index_text.as_str());
            material.append("].digest=");
            material.append(digest.as_str());
            material.append("\n");
            material.append(question_material.as_str());
            proof {
                lemma_spec_entries_take(self.questions@, i as int);
                assert(material@ =~= before + spec_entry(i as int, self.questions@[i as int]));
            }
            i = i + 1;
        }
        assert(self.questions@.take(i as int) =~= self.questions@);
        proof {
            reveal(DecisionGuideTemplate::material);
        }
        material
    }

    pub fn digest(&self) -> (digest: String)
        ensures
            digest@ == sha256_hex(self.material()),
    {
        let material = self.stable_material();
        sha256_digest(material.as_str())
    }
}

/// Whether a required observation step names both its question and its
/// operation and some required question asks that question for that
/// operation.
pub open spec fn step_answered(step: crate::path::DecisionPathStep, questions: Seq<DecisionQuestionSpec>) -> bool {
    step.kind == DecisionPathStepKind::RequiredObservation ==> match (
        step.question_logical_id,
        step.operation_logical_id,
    ) {
        (Some(question_id), Some(operation_id)) => covers(questions, question_id@, operation_id@),
        _ => false,
    }
}

proof fn lemma_no_missing_ids_iff_answered(
    steps: Seq<crate::path::DecisionPathStep>,
    questions: Seq<DecisionQuestionSpec>,
)
    ensures
        (missing_question_ids(steps, questions).len() == 0 && missing_operation_ids(steps).len()
            == 0) <==> forall|i: int| 0 <= i < steps.len() ==> #[trigger] step_answered(
            steps[i],
            questions,
        ),
    decreases steps.len(),
{
    if steps.len() > 0 {
        let prefix = steps.drop_last();
        lemma_no_missing_ids_iff_answered(prefix, questions);
        assert forall|i: int| 0 <= i < prefix.len() implies prefix[i] == steps[i] by {}
        if forall|i: int| 0 <= i < steps.len() ==> #[trigger] step_answered(steps[i], questions) {
            assert forall|i: int| 0 <= i < prefix.len() implies #[trigger] step_answered(
                prefix[i],
                questions,
            ) by {
                assert(step_answered(steps[i], questions));
            }
            assert(step_answered(steps[steps.len() - 1], questions));
        }
    }
}

proof fn lemma_no_unexpected_iff_required_by_path(
    questions: Seq<DecisionQuestionSpec>,
    steps: Seq<crate::path::DecisionPathStep>,
)
    ensures
        unexpected_required_ids(questions, steps).len() == 0 <==> forall|i: int|
            0 <= i < questions.len() && #[trigger] questions[i].required ==> path_requires(
                steps,
                questions[i].logical_id@,
            ),
    decreases questions.len(),
{
    if questions.len() > 0 {
        let prefix = questions.drop_last();
        lemma_no_unexpected_iff_required_by_path(prefix, steps);
        assert forall|i: int| 0 <= i < prefix.len() implies prefix[i] == questions[i] by {}
        if forall|i: int|
            0 <= i < questions.len() && #[trigger] questions[i].required ==> path_requires(
                steps,
                questions[i].logical_id@,
            ) {
            assert forall|i: int|
                0 <= i < prefix.len() && #[trigger] prefix[i].required implies path_requires(
                steps,
                prefix[i].logical_id@,
            ) by {
                assert(questions[i].required);
            }
            assert(questions[questions.len() - 1].required ==> path_requires(
                steps,
                questions[questions.len() - 1].logical_id@,
            ));
        }
    }
}

/// A guide covers its path exactly when every required observation step of
/// the path names its question and operation and is answered by a required
/// question for that operation, and every required question is asked by a
/// required observation step of the path.
pub proof fn lemma_covers_path_iff_answered(guide: DecisionGuideTemplate)
    ensures
        guide.covers_path() <==> {
            &&& forall|i: int|
                0 <= i < guide.path.steps.len() ==> #[trigger] step_answered(
                    guide.path.steps@[i],
                    guide.questions@,
                )
            &&& forall|i: int|
                0 <= i < guide.questions.len() && #[trigger] guide.questions@[i].required
                    ==> path_requires(guide.path.steps@, guide.questions@[i].logical_id@)
        },
{
    lemma_no_missing_ids_iff_answered(guide.path.steps@, guide.questions@);
    lemma_no_unexpected_iff_required_by_path(guide.questions@, guide.path.steps@);
}

/// Filtering questions by their required flag keeps exactly the questions
/// carrying the flag, in their order: the result lists, at increasing
/// positions of the questions, each question whose flag matches, and nothing
/// else. The questions kept for one flag and for the other together number
/// all the questions. Returns the positions the kept questions come from.
pub proof fn lemma_questions_with_required_keeps_exactly_flagged(
    questions: Seq<DecisionQuestionSpec>,
    required: bool,
) -> (positions: Seq<int>)
    ensures
        positions.len() == questions_with_required(questions, required).len(),
        forall|k: int|
            0 <= k < positions.len() ==> 0 <= #[trigger] positions[k] < questions.len()
                && questions_with_required(questions, required)[k] == questions[positions[k]]
                && questions[positions[k]].required == required,
        forall|k: int, l: int| 0 <= k < l < positions.len() ==> positions[k] < positions[l],
        forall|i: int|
            0 <= i < questions.len() && #[trigger] questions[i].required == required ==> exists|k: int|
                0 <= k < positions.len() && positions[k] == i,
        questions_with_required(questions, required).len() + questions_with_required(
            questions,
            !required,
        ).len() == questions.len(),
    decreases questions.len(),
{
    if questions.len() == 0 {
        Seq::empty()
    } else {
        let prefix = questions.drop_last();
        let last = questions.len() - 1;
        let before = lemma_questions_with_required_keeps_exactly_flagged(prefix, required);
        assert forall|i: int| 0 <= i < prefix.len() implies prefix[i] == questions[i] by {}
        let positions = if questions.last().required == required {
            before.push(last)
        } else {
            before
        };
        let kept = questions_with_required(questions, required);
        let kept_before = questions_with_required(prefix, required);
        assert forall|k: int| 0 <= k < positions.len() implies 0 <= #[trigger] positions[k]
            < questions.len() && kept[k] == questions[positions[k]] && questions[positions[k]].required
            == required by {
            if k < before.len() {
                assert(positions[k] == before[k]);
                assert(kept[k] == kept_before[k]);
            }
        }
        assert forall|i: int|
            0 <= i < questions.len() && #[trigger] questions[i].required == required implies exists|k: int|
            0 <= k < positions.len() && positions[k] == i by {
            if i < last {
                assert(prefix[i].required == required);
                let k = choose|k: int| 0 <= k < before.len() && before[k] == i;
                assert(positions[k] == i);
            } else {
                assert(positions[before.len() as int] == i);
            }
        }
        positions
    }
}

} // verus!
