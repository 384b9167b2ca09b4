//! Optional and required decision path templates.
//!
//! A decision path is the source-level plan for how a solution should be
//! guided: which observations are required, which checks are optional, which
//! operations can happen after evidence is available, and where a branch may
//! occur. Runtime receipts prove what actually happened; this module defines
//! what was allowed to be asked.

use crate::stable::{
    copy_opt_string, decimal, opt_str, opt_text, opt_view, push_stable_field, same_text, sha256_digest,
    sha256_hex, stable_field, text_of, usize_text,
};
use vstd::prelude::*;

verus! {

#[derive(Debug, Clone, Copy, PartialEq, Eq, Structural)]
pub enum DecisionPathStepKind {
    RequiredObservation,
    OptionalObservation,
    Operation,
    Branch,
    Stop,
}

impl DecisionPathStepKind {
    pub open spec fn label_text(self) -> Seq<char> {
        match self {
            DecisionPathStepKind::RequiredObservation => "required_observation"@,
            DecisionPathStepKind::OptionalObservation => "optional_observation"@,
            DecisionPathStepKind::Operation => "operation"@,
            DecisionPathStepKind::Branch => "branch"@,
            DecisionPathStepKind::Stop => "stop"@,
        }
    }

    pub fn stable_label(&self) -> (label: &'static str)
        ensures
            label@ == self.label_text(),
    {
        match self {
            DecisionPathStepKind::RequiredObservation => "required_observation",
            DecisionPathStepKind::OptionalObservation => "optional_observation",
            DecisionPathStepKind::Operation => "operation",
            DecisionPathStepKind::Branch => "branch",
            DecisionPathStepKind::Stop => "stop",
        }
    }
}

#[derive(Debug, Clone, PartialEq, Eq)]
pub struct DecisionPathStep {
    pub step_id: String,
    pub kind: DecisionPathStepKind,
    pub tool_id: Option<String>,
    pub question_logical_id: Option<String>,
    pub operation_logical_id: Option<String>,
    pub reason: String,
}

/// Whether a step is a required observation that answers the given question.
pub open spec fn asks_required(step: DecisionPathStep, question_logical_id: Seq<char>) -> bool {
    &&& step.kind == DecisionPathStepKind::RequiredObservation
    &&& opt_view(step.question_logical_id) == Some(question_logical_id)
}

impl DecisionPathStep {
    #[verifier::opaque]
    pub open spec fn material(self) -> Seq<char> {
        "xccute.decisions.path.step.v1\n"@
            + stable_field("step_id"@, self.step_id@)
            + stable_field("kind"@, self.kind.label_text())
            + stable_field("tool_id"@, opt_text(self.tool_id))
            + stable_field("question_logical_id"@, opt_text(self.question_logical_id))
            + stable_field("operation_logical_id"@, opt_text(self.operation_logical_id))
            + stable_field("reason"@, self.reason@)
    }

    pub fn required_observation(
        step_id: &str,
        tool_id: &str,
        question_logical_id: &str,
        operation_logical_id: &str,
        reason: &str,
    ) -> (step: Self)
        ensures
            step.step_id@ == step_id@,
            step.kind == DecisionPathStepKind::RequiredObservation,
            opt_view(step.tool_id) == Some(tool_id@),
            opt_view(step.question_logical_id) == Some(question_logical_id@),
            opt_view(step.operation_logical_id) == Some(operation_logical_id@),
            step.reason@ == reason@,
    {
        DecisionPathStep {
            step_id: text_of(step_id),
            kind: DecisionPathStepKind::RequiredObservation,
            tool_id: Some(text_of(tool_id)),
            question_logical_id: Some(text_of(question_logical_id)),
            operation_logical_id: Some(text_of(operation_logical_id)),
            reason: text_of(reason),
        }
    }

    pub fn optional_observation(
        step_id: &str,
        tool_id: &str,
        question_logical_id: &str,
        operation_logical_id: &str,
        reason: &str,
    ) -> (step: Self)
        ensures
            step.step_id@ == step_id@,
            step.kind == DecisionPathStepKind::OptionalObservation,
            opt_view(step.tool_id) == Some(tool_id@),
            opt_view(step.question_logical_id) == Some(question_logical_id@),
            opt_view(step.operation_logical_id) == Some(operation_logical_id@),
            step.reason@ == reason@,
    {
        DecisionPathStep {
            step_id: text_of(step_id),
            kind: DecisionPathStepKind::OptionalObservation,
            tool_id: Some(text_of(tool_id)),
            question_logical_id: Some(text_of(question_logical_id)),
            operation_logical_id: Some(text_of(operation_logical_id)),
            reason: text_of(reason),
        }
    }

    pub fn operation(step_id: &str, operation_logical_id: &str, reason: &str) -> (step: Self)
        ensures
            step.step_id@ == step_id@,
            step.kind == DecisionPathStepKind::Operation,
            step.tool_id is None,
            step.question_logical_id is None,
            opt_view(step.operation_logical_id) == Some(operation_logical_id@),
            step.reason@ == reason@,
    {
        DecisionPathStep {
            step_id: text_of(step_id),
            kind: DecisionPathStepKind::Operation,
            tool_id: None,
            question_logical_id: None,
            operation_logical_id: Some(text_of(operation_logical_id)),
            reason: text_of(reason),
        }
    }

    pub fn branch(step_id: &str, reason: &str) -> (step: Self)
        ensures
            step.step_id@ == step_id@,
            step.kind == DecisionPathStepKind::Branch,
            step.tool_id is None,
            step.question_logical_id is None,
            step.operation_logical_id is None,
            step.reason@ == reason@,
    {
        DecisionPathStep {
            step_id: text_of(step_id),
            kind: DecisionPathStepKind::Branch,
            tool_id: None,
            question_logical_id: None,
            operation_logical_id: None,
            reason: text_of(reason),
        }
    }

    pub fn stop(step_id: &str, reason: &str) -> (step: Self)
        ensures
            step.step_id@ == step_id@,
            step.kind == DecisionPathStepKind::Stop,
            step.tool_id is None,
            step.question_logical_id is None,
            step.operation_logical_id is None,
            step.reason@ == reason@,
    {
        DecisionPathStep {
            step_id: text_of(step_id),
            kind: DecisionPathStepKind::Stop,
            tool_id: None,
            question_logical_id: None,
            operation_logical_id: None,
            reason: text_of(reason),
        }
    }

    pub fn is_required_observation(&self) -> (required: bool)
        ensures
            required == (self.kind == DecisionPathStepKind::RequiredObservation),
    {
        self.kind == DecisionPathStepKind::RequiredObservation
    }

    /// A copy of this step.
    pub fn copied(&self) -> (copy: Self)
        ensures
            copy == *self,
    {
        DecisionPathStep {
            step_id: self.step_id.clone(),
            kind: self.kind,
            tool_id: copy_opt_string(&self.tool_id),
            question_logical_id: copy_opt_string(&self.question_logical_id),
            operation_logical_id: copy_opt_string(&self.operation_logical_id),
            reason: self.reason.clone(),
        }
    }

    pub fn stable_material(&self) -> (material: String)
        ensures
            material@ == self.material(),
    {
        let mut material = text_of("xccute.decisions.path.step.v1\n");
        push_stable_field(&mut material, "step_id", self.step_id.as_str());
        push_stable_field(&mut material, "kind", self.kind.stable_label());
        push_stable_field(&mut material, "tool_id", opt_str(&self.tool_id));
        push_stable_field(&mut material, "question_logical_id", opt_str(&self.question_logical_id));
        push_stable_field(
            &mut material,
            "operation_logical_id",
            opt_str(&self.operation_logical_id),
        );
        push_stable_field(&mut material, "reason", self.reason.as_str());
        proof {
            reveal(DecisionPathStep::material);
        }
        material
    }

    pub fn digest(&self) -> (digest: String)
        ensures
            digest@ == sha256_hex(self.material()),
    {
        let material = self.stable_material();
        sha256_digest(material.as_str())
    }
}

/// Number of required observations among the steps.
pub open spec fn required_count(steps: Seq<DecisionPathStep>) -> nat
    decreases steps.len(),
{
    if steps.len() == 0 {
        0
    } else {
        required_count(steps.drop_last()) + if steps.last().kind
            == DecisionPathStepKind::RequiredObservation {
            1nat
        } else {
            0nat
        }
    }
}

/// The optional observation steps, in order.
pub open spec fn optional_of(steps: Seq<DecisionPathStep>) -> Seq<DecisionPathStep>
    decreases steps.len(),
{
    if steps.len() == 0 {
        Seq::empty()
    } else if steps.last().kind == DecisionPathStepKind::OptionalObservation {
        optional_of(steps.drop_last()).push(steps.last())
    } else {
        optional_of(steps.drop_last())
    }
}

/// How a path template lists step `index`: its digest, then its material.
pub open spec fn step_entry(index: int, step: DecisionPathStep) -> Seq<char> {
    "step["@ + decimal(index as nat) + "].digest="@ + sha256_hex(step.material()) + "\n"@
        + step.material()
}

pub open spec fn step_entries(steps: Seq<DecisionPathStep>) -> Seq<char>
    decreases steps.len(),
{
    if steps.len() == 0 {
        Seq::empty()
    } else {
        step_entries(steps.drop_last()) + step_entry(steps.len() - 1, steps.last())
    }
}

proof fn lemma_step_entries_take(steps: Seq<DecisionPathStep>, i: int)
    requires
        0 <= i < steps.len(),
    ensures
        step_entries(steps.take(i + 1)) == step_entries(steps.take(i)) + step_entry(i, steps[i]),
{
    assert(steps.take(i + 1).drop_last() =~= steps.take(i));
}

#[derive(Debug, Clone, PartialEq, Eq)]
pub struct DecisionPathTemplate {
    pub path_id: String,
    pub goal: String,
    pub steps: Vec<DecisionPathStep>,
}

impl DecisionPathTemplate {
    pub open spec fn material(self) -> Seq<char> {
        "xccute.decisions.path.template.v1\n"@
            + stable_field("path_id"@, self.path_id@)
            + stable_field("goal"@, self.goal@)
            + step_entries(self.steps@)
    }

    pub fn new(path_id: &str, goal: &str) -> (path: Self)
        ensures
            path.path_id@ == path_id@,
            path.goal@ == goal@,
            path.steps@ == Seq::<DecisionPathStep>::empty(),
    {
        DecisionPathTemplate { path_id: text_of(path_id), goal: text_of(goal), steps: Vec::new() }
    }

    pub fn step(self, step: DecisionPathStep) -> (path: Self)
        ensures
            path.path_id == self.path_id,
            path.goal == self.goal,
            path.steps@ == self.steps@.push(step),
    {
        let mut path = self;
        path.steps.push(step);
        path
    }

    /// A copy of this template.
    pub fn copied(&self) -> (copy: Self)
        ensures
            copy.path_id == self.path_id,
            copy.goal == self.goal,
            copy.steps@ == self.steps@,
    {
        let mut steps: Vec<DecisionPathStep> = Vec::new();
        let mut i: usize = 0;
        while i < self.steps.len()
            invariant
                i <= self.steps.len(),
                steps@ == self.steps@.take(i as int),
            decreases self.steps.len() - i,
        {
            steps.push(self.steps[i].copied());
            assert(self.steps@.take(i + 1) =~= self.steps@.take(i as int).push(self.steps@[i as int]));
            i = i + 1;
        }
        assert(self.steps@.take(i as int) =~= self.steps@);
        DecisionPathTemplate { path_id: self.path_id.clone(), goal: self.goal.clone(), steps }
    }

    pub fn required_observation_count(&self) -> (count: usize)
        ensures
            count == required_count(self.steps@),
    {
        let mut count: usize = 0;
        let mut i: usize = 0;
        while i < self.steps.len()
            invariant
                i <= self.steps.len(),
                count == required_count(self.steps@.take(i as int)),
                count <= i,
            decreases self.steps.len() - i,
        {
            assert(self.steps@.take(i + 1).drop_last() =~= self.steps@.take(i as int));
            if self.steps[i].is_required_observation() {
                count = count + 1;
            }
            i = i + 1;
        }
        assert(self.steps@.take(i as int) =~= self.steps@);
        count
    }

    pub fn includes_required_observation(&self, question_logical_id: &str) -> (included: bool)
        ensures
            included == exists|i: int|
                0 <= i < self.steps.len() && #[trigger] asks_required(
                    self.steps@[i],
                    question_logical_id@,
                ),
    {
        let mut i: usize = 0;
        while i < self.steps.len()
            invariant
                i <= self.steps.len(),
                forall|j: int|
                    0 <= j < i ==> !#[trigger] asks_required(self.steps@[j], question_logical_id@),
            decreases self.steps.len() - i,
        {
            let step = &self.steps[i];
            if step.is_required_observation() {
                match &step.question_logical_id {
                    Some(id) => {
                        if same_text(id.as_str(), question_logical_id) {
                            assert(asks_required(self.steps@[i as int], question_logical_id@));
                            return true;
                        }
                    },
                    None => {},
                }
            }
            i = i + 1;
        }
        false
    }

    /// The optional observation steps, in path order.
    pub fn optional_steps(&self) -> (steps: Vec<DecisionPathStep>)
        ensures
            steps@ == optional_of(self.steps@),
    {
        let mut steps: Vec<DecisionPathStep> = Vec::new();
        let mut i: usize = 0;
        while i < self.steps.len()
            invariant
                i <= self.steps.len(),
                steps@ == optional_of(self.steps@.take(i as int)),
            decreases self.steps.len() - i,
        {
            assert(self.steps@.take(i + 1).drop_last() =~= self.steps@.take(i as int));
            if self.steps[i].kind == DecisionPathStepKind::OptionalObservation {
                steps.push(self.steps[i].copied());
            }
            i = i + 1;
        }
        assert(self.steps@.take(i as int) =~= self.steps@);
        steps
    }

    pub fn stable_material(&self) -> (material: String)
        ensures
            material@ == self.material(),
    {
        let mut material = text_of("xccute.decisions.path.template.v1\n");
        push_stable_field(&mut material, "path_id", self.path_id.as_str());
        push_stable_field(&mut material, "goal", self.goal.as_str());
        let ghost header = material@;
        let mut i: usize = 0;
        while i < self.steps.len()
            invariant
                i <= self.steps.len(),
                material@ == header + step_entries(self.steps@.take(i as int)),
            decreases self.steps.len() - i,
        {
            let step = &self.steps[i];
            let index_text = usize_text(i);
            let digest = step.digest();
            let step_material = step.stable_material();
            let ghost before = material@;
            material.append("step[");
            material.append(index_text.as_str());
            material.append("].digest=");
            material.append(digest.as_str());
            material.append("\n");
            material.append(step_material.as_str());
            proof {
                lemma_step_entries_take(self.steps@, i as int);
                assert(material@ =~= before + step_entry(i as int, self.steps@[i as int]));
            }
            i = i + 1;
        }
        assert(self.steps@.take(i as int) =~= self.steps@);
        material
    }

    pub fn digest(&self) -> (digest: String)
        ensures
            digest@ == sha256_hex(self.material()),
    {
        let material = self.stable_material();
        sha256_digest(material.as_str())
    }
}

/// A path without steps has no required observations and no optional steps;
/// appending a step to a path raises its required observation count by one
/// exactly when the step is a required observation, and extends its optional
/// steps by the step exactly when it is an optional observation.
pub proof fn lemma_step_extends_counts(steps: Seq<DecisionPathStep>, step: DecisionPathStep)
    ensures
        required_count(Seq::empty()) == 0,
        optional_of(Seq::empty()) == Seq::<DecisionPathStep>::empty(),
        required_count(steps.push(step)) == required_count(steps) + if step.kind
            == DecisionPathStepKind::RequiredObservation {
            1nat
        } else {
            0nat
        },
        optional_of(steps.push(step)) == if step.kind == DecisionPathStepKind::OptionalObservation {
            optional_of(steps).push(step)
        } else {
            optional_of(steps)
        },
{
    assert(steps.push(step).drop_last() =~= steps);
}

/// The required observations and the optional observations of a path are
/// separate steps: together they number at most the path's steps.
pub proof fn lemma_required_and_optional_within_steps(steps: Seq<DecisionPathStep>)
    ensures
        required_count(steps) + optional_of(steps).len() <= steps.len(),
    decreases steps.len(),
{
    if steps.len() > 0 {
        lemma_required_and_optional_within_steps(steps.drop_last());
    }
}

/// A path that includes a required observation for some question has a
/// required observation count of at least one.
pub proof fn lemma_included_question_is_counted(steps: Seq<DecisionPathStep>, question_logical_id: Seq<char>)
    requires
        exists|i: int| 0 <= i < steps.len() && #[trigger] asks_required(steps[i], question_logical_id),
    ensures
        required_count(steps) >= 1,
    decreases steps.len(),
{
    let i = choose|i: int| 0 <= i < steps.len() && #[trigger] asks_required(steps[i], question_logical_id);
    if i < steps.len() - 1 {
        let prefix = steps.drop_last();
        assert(prefix[i] == steps[i]);
        lemma_included_question_is_counted(prefix, question_logical_id);
    }
}

} // verus!
