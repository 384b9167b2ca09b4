//! Focused context requests for the next decision step.
//!
//! `DecisionContextPack` answers "what compact context is allowed to enter the
//! next decision?" A context request answers the next question: "which focused
//! observation questions should be asked from that compact context?" This
//! keeps the system adaptive without turning the context window into a raw log
//! dump.

use crate::context_pack::{
    push_question_listings, question_listings, requirement_word, requirement_word_str,
    DecisionContextPack,
};
use crate::guide::{questions_with_required, DecisionQuestionSpec};
use crate::runbook_journal::DecisionRunbookReplayStep;
use crate::runtime_model::ObservationRequirement;
use crate::stable::{
    copy_opt_string, decimal, opt_str, opt_text, push_stable_field, same_text,
    sha256_digest, sha256_hex, stable_field, text_of, usize_text,
};
use vstd::prelude::*;

verus! {

#[derive(Debug, Clone, PartialEq, Eq)]
pub enum DecisionContextRequestSelection {
    RequiredOnly,
    First(usize),
    ByLogicalIds(Vec<String>),
}

#[derive(Debug, Clone, PartialEq, Eq)]
pub enum DecisionContextRequestError {
    NoActiveQuestionsInContextPack,
    EmptyQuestionSelection,
    QuestionNotInContext { logical_id: String },
    DuplicateQuestionSelection { logical_id: String },
    MinimumObservationCountUnsatisfied { minimum_required: usize, selected_count: usize },
}

pub type DecisionContextRequestResult<T> = Result<T, DecisionContextRequestError>;

/// Index of the first question with the given logical id, if any.
pub open spec fn first_question_index(questions: Seq<DecisionQuestionSpec>, logical_id: Seq<char>) -> Option<
    int,
>
    decreases questions.len(),
{
    if questions.len() == 0 {
        None
    } else {
        match first_question_index(questions.drop_last(), logical_id) {
            Some(index) => Some(index),
            None => if questions.last().logical_id@ == logical_id {
                Some(questions.len() - 1)
            } else {
                None
            },
        }
    }
}

proof fn lemma_first_question_index(questions: Seq<DecisionQuestionSpec>, logical_id: Seq<char>)
    ensures
        match first_question_index(questions, logical_id) {
            Some(index) => 0 <= index < questions.len() && questions[index].logical_id@ == logical_id,
            None => forall|j: int| 0 <= j < questions.len() ==> questions[j].logical_id@ != logical_id,
        },
    decreases questions.len(),
{
    if questions.len() > 0 {
        let prefix = questions.drop_last();
        lemma_first_question_index(prefix, logical_id);
        assert(forall|j: int| 0 <= j < prefix.len() ==> prefix[j] == questions[j]);
    }
}

proof fn lemma_first_question_prefix(questions: Seq<DecisionQuestionSpec>, n: int, logical_id: Seq<char>)
    requires
        0 <= n <= questions.len(),
        first_question_index(questions.take(n), logical_id) is Some,
    ensures
        first_question_index(questions, logical_id) == first_question_index(
            questions.take(n),
            logical_id,
        ),
    decreases questions.len() - n,
{
    if n < questions.len() {
        assert(questions.take(n + 1).drop_last() =~= questions.take(n));
        lemma_first_question_prefix(questions, n + 1, logical_id);
    } else {
        assert(questions.take(n) =~= questions);
    }
}

/// Whether the id at `position` repeats an earlier id of the selection.
pub open spec fn repeats_earlier(ids: Seq<String>, position: int) -> bool {
    exists|j: int| 0 <= j < position && #[trigger] ids[j]@ == ids[position]@
}

/// Whether the id at `position` names a question of the pack and repeats no
/// earlier id.
pub open spec fn id_accepted(questions: Seq<DecisionQuestionSpec>, ids: Seq<String>, position: int) -> bool {
    &&& !repeats_earlier(ids, position)
    &&& first_question_index(questions, ids[position]@) is Some
}

/// The error the id at `position` is refused with: a repeated id first, then
/// an id no question carries.
pub open spec fn id_refusal(
    questions: Seq<DecisionQuestionSpec>,
    ids: Seq<String>,
    position: int,
    error: DecisionContextRequestError,
) -> bool {
    if repeats_earlier(ids, position) {
        error == (DecisionContextRequestError::DuplicateQuestionSelection { logical_id: ids[position] })
    } else {
        error == (DecisionContextRequestError::QuestionNotInContext { logical_id: ids[position] })
    }
}

/// The questions named by the ids, in id order: for each id the first
/// question carrying it.
pub open spec fn questions_by_ids(questions: Seq<DecisionQuestionSpec>, ids: Seq<String>) -> Seq<
    DecisionQuestionSpec,
> {
    Seq::new(ids.len(), |k: int| questions[first_question_index(questions, ids[k]@)->0])
}

/// Whether a selection picks a non-refused set of questions from the pack.
pub open spec fn selection_accepted(
    questions: Seq<DecisionQuestionSpec>,
    selection: DecisionContextRequestSelection,
) -> bool {
    match selection {
        DecisionContextRequestSelection::RequiredOnly => true,
        DecisionContextRequestSelection::First(count) => count > 0,
        DecisionContextRequestSelection::ByLogicalIds(ids) => ids_accepted(questions, ids@),
    }
}

/// Whether a list of ids is accepted: it is not empty and every id names a
/// question of the pack without repeating an earlier id.
pub open spec fn ids_accepted(questions: Seq<DecisionQuestionSpec>, ids: Seq<String>) -> bool {
    &&& ids.len() > 0
    &&& forall|k: int| 0 <= k < ids.len() ==> #[trigger] id_accepted(questions, ids, k)
}

/// Whether an error is the one a refused list of ids reports: an empty list,
/// or the refusal of the first refused id.
pub open spec fn ids_refusal(
    questions: Seq<DecisionQuestionSpec>,
    ids: Seq<String>,
    error: DecisionContextRequestError,
) -> bool {
    if ids.len() == 0 {
        error == DecisionContextRequestError::EmptyQuestionSelection
    } else {
        exists|position: int|
            0 <= position < ids.len() && (forall|k: int|
                0 <= k < position ==> #[trigger] id_accepted(questions, ids, k)) && !id_accepted(
                questions,
                ids,
                position,
            ) && #[trigger] id_refusal(questions, ids, position, error)
    }
}

/// The questions an accepted selection picks, in order: the required ones,
/// the first `count`, or those the ids name.
pub open spec fn selected_questions_of(
    questions: Seq<DecisionQuestionSpec>,
    selection: DecisionContextRequestSelection,
) -> Seq<DecisionQuestionSpec> {
    match selection {
        DecisionContextRequestSelection::RequiredOnly => questions_with_required(questions, true),
        DecisionContextRequestSelection::First(count) => if count >= questions.len() {
            questions
        } else {
            questions.take(count as int)
        },
        DecisionContextRequestSelection::ByLogicalIds(ids) => questions_by_ids(questions, ids@),
    }
}

/// Whether an error is the one a refused selection reports: an empty
/// selection, or the refusal of the first refused id.
pub open spec fn selection_refusal(
    questions: Seq<DecisionQuestionSpec>,
    selection: DecisionContextRequestSelection,
    error: DecisionContextRequestError,
) -> bool {
    match selection {
        DecisionContextRequestSelection::RequiredOnly => false,
        DecisionContextRequestSelection::First(_) => error
            == DecisionContextRequestError::EmptyQuestionSelection,
        DecisionContextRequestSelection::ByLogicalIds(ids) => ids_refusal(questions, ids@, error),
    }
}

/// Sum of the budget hints of the questions.
pub open spec fn budget_hints(questions: Seq<DecisionQuestionSpec>) -> nat
    decreases questions.len(),
{
    if questions.len() == 0 {
        0
    } else {
        budget_hints(questions.drop_last()) + questions.last().context_budget_hint as nat
    }
}

proof fn lemma_budget_hints_prefix(questions: Seq<DecisionQuestionSpec>, i: int)
    requires
        0 <= i <= questions.len(),
    ensures
        budget_hints(questions.take(i)) <= budget_hints(questions),
    decreases questions.len() - i,
{
    if i < questions.len() {
        lemma_budget_hints_prefix(questions, i + 1);
        assert(questions.take(i + 1).drop_last() =~= questions.take(i));
    } else {
        assert(questions.take(i) =~= questions);
    }
}

/// The compact summaries of replay steps, in order.
pub open spec fn summaries_of(steps: Seq<DecisionRunbookReplayStep>) -> Seq<String> {
    Seq::new(steps.len(), |i: int| steps[i].compact_summary)
}

/// One carried-replay line of a compact request: `- summary`.
pub open spec fn summary_lines(summaries: Seq<String>) -> Seq<char>
    decreases summaries.len(),
{
    if summaries.len() == 0 {
        Seq::empty()
    } else {
        summary_lines(summaries.drop_last()) + "- "@ + summaries.last()@ + "\n"@
    }
}

/// One question line of a compact request:
/// `- required|optional id via tool op operation: question`.
pub open spec fn request_question_line(question: DecisionQuestionSpec) -> Seq<char> {
    "- "@ + requirement_word(question.required) + " "@ + question.logical_id@ + " via "@
        + question.tool_id@ + " op "@ + question.operation_logical_id@ + ": "@ + question.question@
        + "\n"@
}

pub open spec fn request_question_lines(questions: Seq<DecisionQuestionSpec>) -> Seq<char>
    decreases questions.len(),
{
    if questions.len() == 0 {
        Seq::empty()
    } else {
        request_question_lines(questions.drop_last()) + request_question_line(questions.last())
    }
}

/// How a request's stable material lists carried summary `index`.
pub open spec fn summary_listing(index: int, summary: String) -> Seq<char> {
    "carried_replay_summary["@ + decimal(index as nat) + "]\n"@ + stable_field("summary"@, summary@)
}

pub open spec fn summary_listings(summaries: Seq<String>) -> Seq<char>
    decreases summaries.len(),
{
    if summaries.len() == 0 {
        Seq::empty()
    } else {
        summary_listings(summaries.drop_last()) + summary_listing(
            summaries.len() - 1,
            summaries.last(),
        )
    }
}

#[derive(Debug, Clone, PartialEq, Eq)]
pub struct DecisionContextRequest {
    pub request_id: String,
    pub goal: String,
    pub context_pack_digest: String,
    pub journal_digest: String,
    pub active_runbook_contract_digest: Option<String>,
    pub selected_questions: Vec<DecisionQuestionSpec>,
    pub carried_replay_summaries: Vec<String>,
    pub minimum_observation_count: usize,
    pub context_budget_bytes: usize,
}

impl DecisionContextRequest {
    /// Whether a request can be formed from a pack: the pack has active
    /// questions, the selection is accepted and picks at least one question
    /// and at least the minimum number.
    pub open spec fn forms(
        pack: DecisionContextPack,
        selection: DecisionContextRequestSelection,
        minimum_observation_count: usize,
    ) -> bool {
        let selected = selected_questions_of(pack.active_questions@, selection);
        &&& pack.active_questions.len() > 0
        &&& selection_accepted(pack.active_questions@, selection)
        &&& selected.len() > 0
        &&& selected.len() >= minimum_observation_count
    }

    /// Whether an error is the one forming a request reports: checks run in
    /// the order active questions, selection, empty selection, minimum count.
    pub open spec fn refusal(
        pack: DecisionContextPack,
        selection: DecisionContextRequestSelection,
        minimum_observation_count: usize,
        error: DecisionContextRequestError,
    ) -> bool {
        let selected = selected_questions_of(pack.active_questions@, selection);
        if pack.active_questions.len() == 0 {
            error == DecisionContextRequestError::NoActiveQuestionsInContextPack
        } else if !selection_accepted(pack.active_questions@, selection) {
            selection_refusal(pack.active_questions@, selection, error)
        } else if selected.len() == 0 {
            error == DecisionContextRequestError::EmptyQuestionSelection
        } else {
            error == (DecisionContextRequestError::MinimumObservationCountUnsatisfied {
                minimum_required: minimum_observation_count,
                selected_count: selected.len() as usize,
            })
        }
    }

    /// Whether a request is the one formed from the pack: its id and goal, the
    /// pack's digest, journal digest, runbook contract digest and budget, the
    /// selected questions, the pack's replay summaries and the minimum count.
    pub open spec fn is_formed_from(
        self,
        request_id: Seq<char>,
        goal: Seq<char>,
        pack: DecisionContextPack,
        selection: DecisionContextRequestSelection,
        minimum_observation_count: usize,
    ) -> bool {
        &&& self.request_id@ == request_id
        &&& self.goal@ == goal
        &&& self.context_pack_digest@ == sha256_hex(pack.material())
        &&& self.journal_digest == pack.journal_digest
        &&& self.active_runbook_contract_digest == pack.active_runbook_contract_digest
        &&& self.selected_questions@ == selected_questions_of(pack.active_questions@, selection)
        &&& self.carried_replay_summaries@ == summaries_of(pack.selected_replay_steps@)
        &&& self.minimum_observation_count == minimum_observation_count
        &&& self.context_budget_bytes == pack.context_budget_bytes
    }

    pub open spec fn request_text(self) -> Seq<char> {
        "goal: "@ + self.goal@ + "\n"@ + (if self.carried_replay_summaries.len() > 0 {
            "carried_replay:\n"@ + summary_lines(self.carried_replay_summaries@)
        } else {
            Seq::empty()
        }) + "next_questions:\n"@ + request_question_lines(self.selected_questions@)
    }

    #[verifier::opaque]
    pub open spec fn material(self) -> Seq<char> {
        "xccute.decisions.context.request.v1\n"@
            + stable_field("request_id"@, self.request_id@)
            + stable_field("goal"@, self.goal@)
            + stable_field("context_pack_digest"@, self.context_pack_digest@)
            + stable_field("journal_digest"@, self.journal_digest@)
            + stable_field(
                "active_runbook_contract_digest"@,
                opt_text(self.active_runbook_contract_digest),
            )
            + stable_field("minimum_observation_count"@, decimal(self.minimum_observation_count as nat))
            + stable_field("context_budget_bytes"@, decimal(self.context_budget_bytes as nat))
            + summary_listings(self.carried_replay_summaries@)
            + question_listings("selected_question["@, self.selected_questions@)
    }

    pub fn from_context_pack(
        request_id: &str,
        goal: &str,
        pack: &DecisionContextPack,
        selection: DecisionContextRequestSelection,
        minimum_observation_count: usize,
    ) -> (result: DecisionContextRequestResult<Self>)
        ensures
            result is Ok <==> Self::forms(*pack, selection, minimum_observation_count),
            result matches Err(error) ==> Self::refusal(
                *pack,
                selection,
                minimum_observation_count,
                error,
            ),
            result matches Ok(request) ==> request.is_formed_from(
                request_id@,
                goal@,
                *pack,
                selection,
                minimum_observation_count,
            ),
    {
        if pack.active_questions.len() == 0 {
            return Err(DecisionContextRequestError::NoActiveQuestionsInContextPack);
        }
        let selected_questions = match select_questions(pack, selection) {
            Ok(questions) => questions,
            Err(error) => { return Err(error); },
        };
        if selected_questions.len() == 0 {
            return Err(DecisionContextRequestError::EmptyQuestionSelection);
        }
        if selected_questions.len() < minimum_observation_count {
            return Err(
                DecisionContextRequestError::MinimumObservationCountUnsatisfied {
                    minimum_required: minimum_observation_count,
                    selected_count: selected_questions.len(),
                },
            );
        }
        let mut carried_replay_summaries: Vec<String> = Vec::new();
        let mut i: usize = 0;
        while i < pack.selected_replay_steps.len()
            invariant
                i <= pack.selected_replay_steps.len(),
                carried_replay_summaries@ =~= summaries_of(
                    pack.selected_replay_steps@.take(i as int),
                ),
            decreases pack.selected_replay_steps.len() - i,
        {
            carried_replay_summaries.push(pack.selected_replay_steps[i].compact_summary.clone());
            i = i + 1;
        }
        assert(pack.selected_replay_steps@.take(i as int) =~= pack.selected_replay_steps@);
        Ok(
            DecisionContextRequest {
                request_id: text_of(request_id),
                goal: text_of(goal),
                context_pack_digest: pack.digest(),
                journal_digest: pack.journal_digest.clone(),
                active_runbook_contract_digest: copy_opt_string(&pack.active_runbook_contract_digest),
                selected_questions,
                carried_replay_summaries,
                minimum_observation_count,
                context_budget_bytes: pack.context_budget_bytes,
            },
        )
    }

    /// The request for the pack's required questions, with a minimum of one.
    pub fn required_from_context_pack(request_id: &str, goal: &str, pack: &DecisionContextPack) -> (result:
        DecisionContextRequestResult<Self>)
        ensures
            result is Ok <==> Self::forms(*pack, DecisionContextRequestSelection::RequiredOnly, 1),
            result matches Err(error) ==> Self::refusal(
                *pack,
                DecisionContextRequestSelection::RequiredOnly,
                1,
                error,
            ),
            result matches Ok(request) ==> request.is_formed_from(
                request_id@,
                goal@,
                *pack,
                DecisionContextRequestSelection::RequiredOnly,
                1,
            ),
    {
        Self::from_context_pack(request_id, goal, pack, DecisionContextRequestSelection::RequiredOnly, 1)
    }

    /// Sum of the budget hints of the selected questions; requires the sum to
    /// fit a `usize` (it overflows otherwise).
    pub fn selected_context_budget_hint(&self) -> (hint: usize)
        requires
            budget_hints(self.selected_questions@) <= usize::MAX,
        ensures
            hint == budget_hints(self.selected_questions@),
    {
        let mut total: usize = 0;
        let mut i: usize = 0;
        while i < self.selected_questions.len()
            invariant
                i <= self.selected_questions.len(),
                budget_hints(self.selected_questions@) <= usize::MAX,
                total == budget_hints(self.selected_questions@.take(i as int)),
            decreases self.selected_questions.len() - i,
        {
            proof {
                assert(self.selected_questions@.take(i + 1).drop_last()
                    =~= self.selected_questions@.take(i as int));
                lemma_budget_hints_prefix(self.selected_questions@, i + 1);
            }
            total = total + self.selected_questions[i].context_budget_hint;
            i = i + 1;
        }
        assert(self.selected_questions@.take(i as int) =~= self.selected_questions@);
        total
    }

    pub fn selected_question_ids(&self) -> (ids: Vec<String>)
        ensures
            ids.len() == self.selected_questions.len(),
            forall|i: int|
                0 <= i < ids.len() ==> #[trigger] ids@[i] == self.selected_questions@[i].logical_id,
    {
        let mut ids: Vec<String> = Vec::new();
        let mut i: usize = 0;
        while i < self.selected_questions.len()
            invariant
                i <= self.selected_questions.len(),
                ids.len() == i,
                forall|j: int| 0 <= j < i ==> #[trigger] ids@[j] == self.selected_questions@[j].logical_id,
            decreases self.selected_questions.len() - i,
        {
            ids.push(self.selected_questions[i].logical_id.clone());
            i = i + 1;
        }
        ids
    }

    pub fn compact_request(&self) -> (request: String)
        ensures
            request@ == self.request_text(),
    {
        let mut request = text_of("goal: ");
        request.append(self.goal.as_str());
        request.append("\n");
        if self.carried_replay_summaries.len() > 0 {
            request.append("carried_replay:\n");
            let ghost start = request@;
            let mut i: usize = 0;
            while i < self.carried_replay_summaries.len()
                invariant
                    i <= self.carried_replay_summaries.len(),
                    request@ == start + summary_lines(self.carried_replay_summaries@.take(i as int)),
                decreases self.carried_replay_summaries.len() - i,
            {
                let ghost before = request@;
                request.append("- ");
                request.append(self.carried_replay_summaries[i].as_str());
                request.append("\n");
                assert(self.carried_replay_summaries@.take(i + 1).drop_last()
                    =~= self.carried_replay_summaries@.take(i as int));
                assert(request@ =~= before + "- "@ + self.carried_replay_summaries@[i as int]@ + "\n"@);
                i = i + 1;
            }
            assert(self.carried_replay_summaries@.take(i as int) =~= self.carried_replay_summaries@);
        }
        request.append("next_questions:\n");
        let ghost start = request@;
        let mut k: usize = 0;
        while k < self.selected_questions.len()
            invariant
                k <= self.selected_questions.len(),
                request@ == start + request_question_lines(self.selected_questions@.take(k as int)),
            decreases self.selected_questions.len() - k,
        {
            let question = &self.selected_questions[k];
            let ghost before = request@;
            request.append("- ");
            request.append(requirement_word_str(question.required));
            request.append(" ");
            request.append(question.logical_id.as_str());
            request.append(" via ");
            request.append(question.tool_id.as_str());
            request.append(" op ");
            request.append(question.operation_logical_id.as_str());
            request.append(": ");
            request.append(question.question.as_str());
            request.append("\n");
            assert(self.selected_questions@.take(k + 1).drop_last()
                =~= self.selected_questions@.take(k as int));
            assert(request@ =~= before + request_question_line(self.selected_questions@[k as int]));
            k = k + 1;
        }
        assert(self.selected_questions@.take(k as int) =~= self.selected_questions@);
        assert(request@ =~= self.request_text());
        request
    }

    /// The runtime observation requirements the selected questions ask for.
    pub fn to_observation_requirements(&self) -> (requirements: Vec<ObservationRequirement>)
        ensures
            requirements.len() == self.selected_questions.len(),
            forall|i: int|
                0 <= i < requirements.len() ==> #[trigger] requirements@[i]
                    == self.selected_questions@[i].runtime_question().requirement(),
    {
        let mut requirements: Vec<ObservationRequirement> = Vec::new();
        let mut i: usize = 0;
        while i < self.selected_questions.len()
            invariant
                i <= self.selected_questions.len(),
                requirements.len() == i,
                forall|j: int|
                    0 <= j < i ==> #[trigger] requirements@[j]
                        == self.selected_questions@[j].runtime_question().requirement(),
            decreases self.selected_questions.len() - i,
        {
            requirements.push(self.selected_questions[i].materialize().to_observation_requirement());
            i = i + 1;
        }
        requirements
    }

    pub fn stable_material(&self) -> (material: String)
        ensures
            material@ == self.material(),
    {
        let mut material = text_of("xccute.decisions.context.request.v1\n");
        push_stable_field(&mut material, "request_id", self.request_id.as_str());
        push_stable_field(&mut material, "goal", self.goal.as_str());
        push_stable_field(&mut material, "context_pack_digest", self.context_pack_digest.as_str());
        push_stable_field(&mut material, "journal_digest", self.journal_digest.as_str());
        push_stable_field(
            &mut material,
            "active_runbook_contract_digest",
            opt_str(&self.active_runbook_contract_digest),
        );
        let minimum = usize_text(self.minimum_observation_count);
        push_stable_field(&mut material, "minimum_observation_count", minimum.as_str());
        let budget = usize_text(self.context_budget_bytes);
        push_stable_field(&mut material, "context_budget_bytes", budget.as_str());
        let ghost header = material@;
        let mut i: usize = 0;
        while i < self.carried_replay_summaries.len()
            invariant
                i <= self.carried_replay_summaries.len(),
                material@ == header + summary_listings(self.carried_replay_summaries@.take(i as int)),
            decreases self.carried_replay_summaries.len() - i,
        {
            let ghost before = material@;
            let index = usize_text(i);
            material.append("carried_replay_summary[");
            material.append(index.as_str());
            material.append("]\n");
            push_stable_field(&mut material, "summary", self.carried_replay_summaries[i].as_str());
            assert(self.carried_replay_summaries@.take(i + 1).drop_last()
                =~= self.carried_replay_summaries@.take(i as int));
            assert(material@ =~= before + summary_listing(
                i as int,
                self.carried_replay_summaries@[i as int],
            ));
            i = i + 1;
        }
        assert(self.carried_replay_summaries@.take(i as int) =~= self.carried_replay_summaries@);
        push_question_listings(&mut material, "selected_question[", &self.selected_questions);
        proof {
            reveal(DecisionContextRequest::material);
        }
        material
    }

    pub fn digest(&self) -> (digest: String)
        ensures
            digest@ == sha256_hex(self.material()),
    {
        let material = self.stable_material();
        sha256_digest(material.as_str())
    }
}

fn select_questions(pack: &DecisionContextPack, selection: DecisionContextRequestSelection) -> (result:
    DecisionContextRequestResult<Vec<DecisionQuestionSpec>>)
    ensures
        result is Ok <==> selection_accepted(pack.active_questions@, selection),
        result matches Err(error) ==> selection_refusal(pack.active_questions@, selection, error),
        result matches Ok(questions) ==> questions@ == selected_questions_of(
            pack.active_questions@,
            selection,
        ),
{
    match selection {
        DecisionContextRequestSelection::RequiredOnly => {
            let mut selected: Vec<DecisionQuestionSpec> = Vec::new();
            let mut i: usize = 0;
            while i < pack.active_questions.len()
                invariant
                    i <= pack.active_questions.len(),
                    selected@ == questions_with_required(pack.active_questions@.take(i as int), true),
                decreases pack.active_questions.len() - i,
            {
                assert(pack.active_questions@.take(i + 1).drop_last()
                    =~= pack.active_questions@.take(i as int));
                if pack.active_questions[i].required {
                    selected.push(pack.active_questions[i].copied());
                }
                i = i + 1;
            }
            assert(pack.active_questions@.take(i as int) =~= pack.active_questions@);
            Ok(selected)
        },
        DecisionContextRequestSelection::First(count) => {
            if count == 0 {
                return Err(DecisionContextRequestError::EmptyQuestionSelection);
            }
            let mut selected: Vec<DecisionQuestionSpec> = Vec::new();
            let mut i: usize = 0;
            while i < pack.active_questions.len() && i < count
                invariant
                    i <= pack.active_questions.len(),
                    i <= count,
                    selected@ =~= pack.active_questions@.take(i as int),
                decreases pack.active_questions.len() - i,
            {
                selected.push(pack.active_questions[i].copied());
                i = i + 1;
            }
            assert(count >= pack.active_questions.len() ==> pack.active_questions@.take(i as int)
                =~= pack.active_questions@);
            Ok(selected)
        },
        DecisionContextRequestSelection::ByLogicalIds(ids) => select_by_logical_ids(pack, ids),
    }
}

/// Index of the first question carrying the id, if any.
fn find_question(questions: &Vec<DecisionQuestionSpec>, logical_id: &String) -> (found: Option<usize>)
    ensures
        found is None <==> first_question_index(questions@, logical_id@) is None,
        found matches Some(index) ==> first_question_index(questions@, logical_id@) == Some(
            index as int,
        ),
{
    let mut q: usize = 0;
    while q < questions.len()
        invariant
            q <= questions.len(),
            first_question_index(questions@.take(q as int), logical_id@) is None,
        decreases questions.len() - q,
    {
        assert(questions@.take(q + 1).drop_last() =~= questions@.take(q as int));
        if same_text(questions[q].logical_id.as_str(), logical_id.as_str()) {
            proof {
                lemma_first_question_prefix(questions@, q + 1, logical_id@);
            }
            return Some(q);
        }
        q = q + 1;
    }
    assert(questions@.take(q as int) =~= questions@);
    None
}

fn select_by_logical_ids(pack: &DecisionContextPack, ids: Vec<String>) -> (result:
    DecisionContextRequestResult<Vec<DecisionQuestionSpec>>)
    ensures
        result is Ok <==> ids_accepted(pack.active_questions@, ids@),
        result matches Err(error) ==> ids_refusal(pack.active_questions@, ids@, error),
        result matches Ok(questions) ==> questions@ == questions_by_ids(pack.active_questions@, ids@),
{
    if ids.len() == 0 {
        return Err(DecisionContextRequestError::EmptyQuestionSelection);
    }
    let questions = &pack.active_questions;
    let mut selected: Vec<DecisionQuestionSpec> = Vec::new();
    let mut k: usize = 0;
    while k < ids.len()
        invariant
            k <= ids.len(),
            questions@ == pack.active_questions@,
            forall|m: int| 0 <= m < k ==> #[trigger] id_accepted(questions@, ids@, m),
            selected@ =~= questions_by_ids(questions@, ids@.take(k as int)),
        decreases ids.len() - k,
    {
        let id = &ids[k];
        let mut j: usize = 0;
        while j < k
            invariant
                j <= k < ids.len(),
                id == &ids@[k as int],
                questions@ == pack.active_questions@,
                forall|m: int| 0 <= m < k ==> #[trigger] id_accepted(questions@, ids@, m),
                forall|m: int| 0 <= m < j ==> ids@[m]@ != ids@[k as int]@,
            decreases k - j,
        {
            if ids[j] == *id {
                let error = DecisionContextRequestError::DuplicateQuestionSelection {
                    logical_id: id.clone(),
                };
                proof {
                    assert(ids@[j as int]@ == ids@[k as int]@);
                    assert(repeats_earlier(ids@, k as int));
                    assert(!id_accepted(questions@, ids@, k as int));
                    assert(id_refusal(questions@, ids@, k as int, error));
                }
                return Err(error);
            }
            j = j + 1;
        }
        assert(!repeats_earlier(ids@, k as int));
        proof {
            lemma_first_question_index(questions@, id@);
        }
        match find_question(questions, id) {
            Some(q) => {
                let ghost before = selected@;
                selected.push(questions[q].copied());
                proof {
                    let next = questions_by_ids(questions@, ids@.take(k + 1));
                    assert(before =~= questions_by_ids(questions@, ids@.take(k as int)));
                    assert(ids@.take(k + 1)[k as int] == ids@[k as int]);
                    assert(selected@ =~= next);
                }
            },
            None => {
                let error = DecisionContextRequestError::QuestionNotInContext {
                    logical_id: id.clone(),
                };
                proof {
                    assert(!id_accepted(questions@, ids@, k as int));
                    assert(id_refusal(questions@, ids@, k as int, error));
                }
                return Err(error);
            },
        }
        assert(id_accepted(questions@, ids@, k as int));
        k = k + 1;
    }
    assert(ids@.take(k as int) =~= ids@);
    Ok(selected)
}

/// Every question a filter by requirement keeps is one of the questions, and
/// carries the requirement filtered for.
pub proof fn lemma_filtered_questions_come_from_source(
    questions: Seq<DecisionQuestionSpec>,
    required: bool,
)
    ensures
        forall|i: int|
            0 <= i < questions_with_required(questions, required).len() ==> questions.contains(
                #[trigger] questions_with_required(questions, required)[i],
            ) && questions_with_required(questions, required)[i].required == required,
    decreases questions.len(),
{
    if questions.len() > 0 {
        let prefix = questions.drop_last();
        lemma_filtered_questions_come_from_source(prefix, required);
        let kept = questions_with_required(questions, required);
        assert forall|i: int| 0 <= i < kept.len() implies questions.contains(#[trigger] kept[i])
            && kept[i].required == required by {
            let before = questions_with_required(prefix, required);
            if i < before.len() {
                assert(kept[i] == before[i]);
                let j = choose|j: int| 0 <= j < prefix.len() && prefix[j] == before[i];
                assert(questions[j] == prefix[j]);
            } else {
                assert(kept[i] == questions[questions.len() - 1]);
            }
        }
    }
}

/// A request never invents questions: every question an accepted selection
/// picks is one of the pack's active questions, and the required-only
/// selection picks only required questions.
pub proof fn lemma_selected_questions_come_from_pack(
    questions: Seq<DecisionQuestionSpec>,
    selection: DecisionContextRequestSelection,
)
    requires
        selection_accepted(questions, selection),
    ensures
        forall|i: int|
            0 <= i < selected_questions_of(questions, selection).len() ==> questions.contains(
                #[trigger] selected_questions_of(questions, selection)[i],
            ),
        selection is RequiredOnly ==> forall|i: int|
            0 <= i < selected_questions_of(questions, selection).len()
                ==> #[trigger] selected_questions_of(questions, selection)[i].required,
{
    let selected = selected_questions_of(questions, selection);
    match selection {
        DecisionContextRequestSelection::RequiredOnly => {
            lemma_filtered_questions_come_from_source(questions, true);
        },
        DecisionContextRequestSelection::First(count) => {
            assert forall|i: int| 0 <= i < selected.len() implies questions.contains(
                #[trigger] selected[i],
            ) by {
                assert(selected[i] == questions[i]);
            }
        },
        DecisionContextRequestSelection::ByLogicalIds(ids) => {
            assert forall|i: int| 0 <= i < selected.len() implies questions.contains(
                #[trigger] selected[i],
            ) by {
                assert(id_accepted(questions, ids@, i));
                lemma_first_question_index(questions, ids@[i]@);
                let index = first_question_index(questions, ids@[i]@)->0;
                assert(selected[i] == questions[index]);
            }
        },
    }
}

/// What each selection picks from a pack's active questions:
/// `First(count)` picks the first `count` questions (all of them when there
/// are fewer) in order; `ByLogicalIds(ids)` picks, for each id in order, the
/// first question carrying it; `RequiredOnly` picks the required questions
/// in order. A list of ids is accepted exactly when it is not empty, repeats
/// no id and every id names a question.
pub proof fn lemma_selection_picks(
    questions: Seq<DecisionQuestionSpec>,
    selection: DecisionContextRequestSelection,
)
    ensures
        selection matches DecisionContextRequestSelection::First(count) ==> {
            &&& selection_accepted(questions, selection) <==> count > 0
            &&& selected_questions_of(questions, selection).len() == if count < questions.len() {
                count as int
            } else {
                questions.len() as int
            }
            &&& forall|i: int|
                0 <= i < selected_questions_of(questions, selection).len()
                    ==> #[trigger] selected_questions_of(questions, selection)[i] == questions[i]
        },
        selection matches DecisionContextRequestSelection::ByLogicalIds(ids) ==> {
            &&& selection_accepted(questions, selection) <==> {
                &&& ids.len() > 0
                &&& forall|j: int, k: int| 0 <= j < k < ids.len() ==> ids@[j]@ != ids@[k]@
                &&& forall|k: int|
                    #![trigger ids@[k]]
                    0 <= k < ids.len() ==> exists|j: int|
                        0 <= j < questions.len() && #[trigger] questions[j].logical_id@ == ids@[k]@
            }
            &&& selection_accepted(questions, selection) ==> {
                &&& selected_questions_of(questions, selection).len() == ids.len()
                &&& forall|k: int|
                    #![trigger ids@[k]]
                    0 <= k < ids.len() ==> exists|j: int|
                        0 <= j < questions.len() && #[trigger] selected_questions_of(
                            questions,
                            selection,
                        )[k] == questions[j] && questions[j].logical_id@ == ids@[k]@ && forall|m: int|
                            0 <= m < j ==> questions[m].logical_id@ != ids@[k]@
            }
        },
        selection is RequiredOnly ==> selection_accepted(questions, selection)
            && selected_questions_of(questions, selection) == questions_with_required(questions, true),
{
    match selection {
        DecisionContextRequestSelection::First(count) => {
            let selected = selected_questions_of(questions, selection);
            assert forall|i: int| 0 <= i < selected.len() implies #[trigger] selected[i] == questions[i] by {}
        },
        DecisionContextRequestSelection::ByLogicalIds(ids) => {
            let accepted = selection_accepted(questions, selection);
            let distinct = forall|j: int, k: int| 0 <= j < k < ids.len() ==> ids@[j]@ != ids@[k]@;
            let present = forall|k: int|
                #![trigger ids@[k]]
                0 <= k < ids.len() ==> exists|j: int|
                    0 <= j < questions.len() && #[trigger] questions[j].logical_id@ == ids@[k]@;
            if accepted {
                assert forall|j: int, k: int| 0 <= j < k < ids.len() implies ids@[j]@ != ids@[k]@ by {
                    assert(id_accepted(questions, ids@, k));
                }
                assert forall|k: int| #![trigger ids@[k]] 0 <= k < ids.len() implies exists|j: int|
                    0 <= j < questions.len() && #[trigger] questions[j].logical_id@ == ids@[k]@ by {
                    assert(id_accepted(questions, ids@, k));
                    lemma_first_question_index(questions, ids@[k]@);
                    let j = first_question_index(questions, ids@[k]@)->0;
                    assert(questions[j].logical_id@ == ids@[k]@);
                }
                let selected = selected_questions_of(questions, selection);
                assert forall|k: int| #![trigger ids@[k]] 0 <= k < ids.len() implies exists|j: int|
                    0 <= j < questions.len() && #[trigger] selected[k] == questions[j]
                        && questions[j].logical_id@ == ids@[k]@ && forall|m: int|
                        0 <= m < j ==> questions[m].logical_id@ != ids@[k]@ by {
                    assert(id_accepted(questions, ids@, k));
                    lemma_first_question_index(questions, ids@[k]@);
                    lemma_first_question_is_first(questions, ids@[k]@);
                    let j = first_question_index(questions, ids@[k]@)->0;
                    assert(selected[k] == questions[j]);
                }
            }
            if ids.len() > 0 && distinct && present {
                assert forall|k: int| 0 <= k < ids.len() implies #[trigger] id_accepted(
                    questions,
                    ids@,
                    k,
                ) by {
                    assert forall|j: int| 0 <= j < k implies ids@[j]@ != ids@[k]@ by {}
                    let j = choose|j: int|
                        0 <= j < questions.len() && #[trigger] questions[j].logical_id@ == ids@[k]@;
                    lemma_first_question_index(questions, ids@[k]@);
                }
            }
        },
        DecisionContextRequestSelection::RequiredOnly => {},
    }
}

/// The first question carrying an id comes before every other carrying it.
proof fn lemma_first_question_is_first(questions: Seq<DecisionQuestionSpec>, logical_id: Seq<char>)
    ensures
        first_question_index(questions, logical_id) matches Some(index) ==> forall|m: int|
            0 <= m < index ==> questions[m].logical_id@ != logical_id,
    decreases questions.len(),
{
    if questions.len() > 0 {
        let prefix = questions.drop_last();
        lemma_first_question_is_first(prefix, logical_id);
        lemma_first_question_index(prefix, logical_id);
        assert forall|m: int| 0 <= m < prefix.len() implies prefix[m] == questions[m] by {}
    }
}

/// The budget hints of no questions sum to zero; one more question adds its
/// hint.
pub proof fn lemma_budget_hints_add_up(questions: Seq<DecisionQuestionSpec>, question: DecisionQuestionSpec)
    ensures
        budget_hints(Seq::empty()) == 0,
        budget_hints(questions.push(question)) == budget_hints(questions)
            + question.context_budget_hint,
{
    assert(questions.push(question).drop_last() =~= questions);
}

} // verus!
