//! Adaptive context packs for decision runbook journals.
//!
//! Journals give us an append-only chain of compact runbook records. A context
//! pack selects the replay steps and active questions that should be carried
//! forward into the next decision. This is the decision-side contract for "use
//! bounded evidence, not a huge context dump."

use crate::guide::{DecisionGuideTemplate, DecisionQuestionSpec};
use crate::runbook::DecisionRunbookInstance;
use crate::runbook_journal::{replay_line, replays_of, DecisionRunbookJournal, DecisionRunbookReplayStep};
use crate::stable::{
    decimal, opt_str, opt_text, opt_view, push_stable_field, sha256_digest,
    sha256_hex, stable_field, text_of, usize_text, utf8_len,
};
use vstd::prelude::*;

verus! {

#[derive(Debug, Clone, Copy, PartialEq, Eq, Structural)]
pub enum DecisionContextPackReplaySelection {
    All,
    Last(usize),
    Range { start: usize, end_exclusive: usize },
}

#[derive(Debug, Clone, PartialEq, Eq)]
pub enum DecisionContextPackError {
    EmptyReplaySelection,
    ReplayRangeOutOfBounds { start: usize, end_exclusive: usize, available: usize },
    SourceRunbookMismatch { template_source_digest: String, instance_source_digest: String },
}

pub type DecisionContextPackResult<T> = Result<T, DecisionContextPackError>;

/// The error a replay selection is refused with over `available` steps, if
/// any: a selection of nothing, or a range that ends past the last step.
pub open spec fn selection_error(
    available: nat,
    selection: DecisionContextPackReplaySelection,
) -> Option<DecisionContextPackError> {
    match selection {
        DecisionContextPackReplaySelection::All => None,
        DecisionContextPackReplaySelection::Last(count) => if count == 0 {
            Some(DecisionContextPackError::EmptyReplaySelection)
        } else {
            None
        },
        DecisionContextPackReplaySelection::Range { start, end_exclusive } => if start
            >= end_exclusive {
            Some(DecisionContextPackError::EmptyReplaySelection)
        } else if end_exclusive > available {
            Some(
                DecisionContextPackError::ReplayRangeOutOfBounds {
                    start,
                    end_exclusive,
                    available: available as usize,
                },
            )
        } else {
            None
        },
    }
}

/// The steps a selection keeps, in order: all of them, the last `count` (all
/// when there are fewer), or those from `start` up to `end_exclusive`.
pub open spec fn selected_steps(
    steps: Seq<DecisionRunbookReplayStep>,
    selection: DecisionContextPackReplaySelection,
) -> Seq<DecisionRunbookReplayStep> {
    match selection {
        DecisionContextPackReplaySelection::All => steps,
        DecisionContextPackReplaySelection::Last(count) => if count >= steps.len() {
            steps
        } else {
            steps.subrange(steps.len() - count, steps.len() as int)
        },
        DecisionContextPackReplaySelection::Range { start, end_exclusive } => steps.subrange(
            start as int,
            end_exclusive as int,
        ),
    }
}

/// Bytes of the compact summaries of the steps.
pub open spec fn summary_bytes(steps: Seq<DecisionRunbookReplayStep>) -> nat
    decreases steps.len(),
{
    if steps.len() == 0 {
        0
    } else {
        summary_bytes(steps.drop_last()) + utf8_len(steps.last().compact_summary@)
    }
}

/// Bytes of the question texts and responsibilities of the questions.
pub open spec fn question_bytes(questions: Seq<DecisionQuestionSpec>) -> nat
    decreases questions.len(),
{
    if questions.len() == 0 {
        0
    } else {
        question_bytes(questions.drop_last()) + utf8_len(questions.last().question@) + utf8_len(
            questions.last().responsibility@,
        )
    }
}

proof fn lemma_summary_bytes_prefix(steps: Seq<DecisionRunbookReplayStep>, i: int)
    requires
        0 <= i <= steps.len(),
    ensures
        summary_bytes(steps.take(i)) <= summary_bytes(steps),
    decreases steps.len() - i,
{
    if i < steps.len() {
        lemma_summary_bytes_prefix(steps, i + 1);
        assert(steps.take(i + 1).drop_last() =~= steps.take(i));
    } else {
        assert(steps.take(i) =~= steps);
    }
}

proof fn lemma_question_bytes_prefix(questions: Seq<DecisionQuestionSpec>, i: int)
    requires
        0 <= i <= questions.len(),
    ensures
        question_bytes(questions.take(i)) <= question_bytes(questions),
    decreases questions.len() - i,
{
    if i < questions.len() {
        lemma_question_bytes_prefix(questions, i + 1);
        assert(questions.take(i + 1).drop_last() =~= questions.take(i));
    } else {
        assert(questions.take(i) =~= questions);
    }
}

/// One replay line of a pack's compact context.
pub open spec fn pack_replay_lines(steps: Seq<DecisionRunbookReplayStep>) -> Seq<char>
    decreases steps.len(),
{
    if steps.len() == 0 {
        Seq::empty()
    } else {
        pack_replay_lines(steps.drop_last()) + "- "@ + replay_line(steps.last())
    }
}

/// How a question is marked in compact texts.
pub open spec fn requirement_word(required: bool) -> Seq<char> {
    if required { "required"@ } else { "optional"@ }
}

pub fn requirement_word_str(required: bool) -> (word: &'static str)
    ensures
        word@ == requirement_word(required),
{
    if required { "required" } else { "optional" }
}

/// One question line of a pack's compact context:
/// `- required|optional id via tool/operation: question`.
pub open spec fn pack_question_line(question: DecisionQuestionSpec) -> Seq<char> {
    "- "@ + requirement_word(question.required) + " "@ + question.logical_id@ + " via "@
        + question.tool_id@ + "/"@ + question.operation_logical_id@ + ": "@ + question.question@
        + "\n"@
}

pub open spec fn pack_question_lines(questions: Seq<DecisionQuestionSpec>) -> Seq<char>
    decreases questions.len(),
{
    if questions.len() == 0 {
        Seq::empty()
    } else {
        pack_question_lines(questions.drop_last()) + pack_question_line(questions.last())
    }
}

/// How a pack's stable material lists replay step `index`.
#[verifier::opaque]
pub open spec fn pack_step_listing(index: int, step: DecisionRunbookReplayStep) -> Seq<char> {
    "replay_step["@ + decimal(index as nat) + "]\n"@ + stable_field(
        "step.index"@,
        decimal(step.index as nat),
    ) + stable_field("step.runbook_id"@, step.runbook_id@) + stable_field(
        "step.mode"@,
        step.mode.label_text(),
    ) + stable_field("step.record_digest"@, step.record_digest@) + stable_field(
        "step.compact_summary"@,
        step.compact_summary@,
    )
}

/// Appends the stable listing of one replay step.
fn push_step_listing(material: &mut String, index: usize, step: &DecisionRunbookReplayStep)
    ensures
        final(material)@ == old(material)@ + pack_step_listing(index as int, *step),
{
    let index_text = usize_text(index);
    material.append("replay_step[");
    material.append(index_text.as_str());
    material.append("]\n");
    let step_index = usize_text(step.index);
    push_stable_field(material, "step.index", step_index.as_str());
    push_stable_field(material, "step.runbook_id", step.runbook_id.as_str());
    push_stable_field(material, "step.mode", step.mode.stable_label());
    push_stable_field(material, "step.record_digest", step.record_digest.as_str());
    push_stable_field(material, "step.compact_summary", step.compact_summary.as_str());
    proof {
        reveal(pack_step_listing);
        assert(material@ =~= old(material)@ + pack_step_listing(index as int, *step));
    }
}

pub open spec fn pack_step_listings(steps: Seq<DecisionRunbookReplayStep>) -> Seq<char>
    decreases steps.len(),
{
    if steps.len() == 0 {
        Seq::empty()
    } else {
        pack_step_listings(steps.drop_last()) + pack_step_listing(steps.len() - 1, steps.last())
    }
}

/// How a stable material lists a question under a heading: the heading with
/// its index, the question's digest, then its material.
pub open spec fn question_listing(
    heading: Seq<char>,
    index: int,
    question: DecisionQuestionSpec,
) -> Seq<char> {
    heading + decimal(index as nat) + "]\n"@ + stable_field(
        "question.digest"@,
        sha256_hex(question.material()),
    ) + question.material()
}

pub open spec fn question_listings(heading: Seq<char>, questions: Seq<DecisionQuestionSpec>) -> Seq<
    char,
>
    decreases questions.len(),
{
    if questions.len() == 0 {
        Seq::empty()
    } else {
        question_listings(heading, questions.drop_last()) + question_listing(
            heading,
            questions.len() - 1,
            questions.last(),
        )
    }
}

/// Appends the question listings of a stable material under a heading.
pub fn push_question_listings(
    material: &mut String,
    heading: &str,
    questions: &Vec<DecisionQuestionSpec>,
)
    ensures
        final(material)@ == old(material)@ + question_listings(heading@, questions@),
{
    let ghost start = material@;
    let mut i: usize = 0;
    while i < questions.len()
        invariant
            i <= questions.len(),
            material@ == start + question_listings(heading@, questions@.take(i as int)),
        decreases questions.len() - i,
    {
        let question = &questions[i];
        let index = usize_text(i);
        let ghost before = material@;
        material.append(heading);
        material.append(index.as_str());
        material.append("]\n");
        let digest = question.digest();
        push_stable_field(material, "question.digest", digest.as_str());
        let question_material = question.stable_material();
        material.append(question_material.as_str());
        assert(questions@.take(i + 1).drop_last() =~= questions@.take(i as int));
        assert(material@ =~= before + question_listing(heading@, i as int, questions@[i as int]));
        i = i + 1;
    }
    assert(questions@.take(i as int) =~= questions@);
}

/// Copies of the steps from `start` up to `end`.
fn copy_steps(steps: &Vec<DecisionRunbookReplayStep>, start: usize, end: usize) -> (copy: Vec<
    DecisionRunbookReplayStep,
>)
    requires
        start <= end <= steps.len(),
    ensures
        copy@ == steps@.subrange(start as int, end as int),
{
    let mut copy: Vec<DecisionRunbookReplayStep> = Vec::new();
    let mut i: usize = start;
    while i < end
        invariant
            start <= i <= end <= steps.len(),
            copy@ =~= steps@.subrange(start as int, i as int),
        decreases end - i,
    {
        copy.push(steps[i].copied());
        i = i + 1;
    }
    copy
}

fn select_replay_steps(
    journal: &DecisionRunbookJournal,
    selection: DecisionContextPackReplaySelection,
) -> (result: DecisionContextPackResult<Vec<DecisionRunbookReplayStep>>)
    ensures
        result is Ok <==> selection_error(journal.entries.len() as nat, selection) is None,
        result matches Err(error) ==> selection_error(journal.entries.len() as nat, selection) == Some(
            error,
        ),
        result matches Ok(steps) ==> steps@ == selected_steps(replays_of(journal.entries@), selection),
{
    let steps = journal.replay_steps();
    let available = steps.len();
    match selection {
        DecisionContextPackReplaySelection::All => Ok(steps),
        DecisionContextPackReplaySelection::Last(count) => {
            if count == 0 {
                return Err(DecisionContextPackError::EmptyReplaySelection);
            }
            let start = available.saturating_sub(count);
            let kept = copy_steps(&steps, start, available);
            assert(count >= available ==> kept@ =~= steps@);
            Ok(kept)
        },
        DecisionContextPackReplaySelection::Range { start, end_exclusive } => {
            if start >= end_exclusive {
                return Err(DecisionContextPackError::EmptyReplaySelection);
            }
            if end_exclusive > available {
                return Err(
                    DecisionContextPackError::ReplayRangeOutOfBounds {
                        start,
                        end_exclusive,
                        available,
                    },
                );
            }
            Ok(copy_steps(&steps, start, end_exclusive))
        },
    }
}

#[derive(Debug, Clone, PartialEq, Eq)]
pub struct DecisionContextPack {
    pub pack_id: String,
    pub goal: String,
    pub journal_id: String,
    pub journal_digest: String,
    pub selected_replay_steps: Vec<DecisionRunbookReplayStep>,
    pub active_runbook_contract_digest: Option<String>,
    pub active_guide_digest: Option<String>,
    pub active_questions: Vec<DecisionQuestionSpec>,
    pub context_budget_bytes: usize,
}

impl DecisionContextPack {
    /// Bytes of context a pack carries: the compact summaries of its replay
    /// steps and the question texts and responsibilities of its questions.
    pub open spec fn selected_bytes(self) -> nat {
        summary_bytes(self.selected_replay_steps@) + question_bytes(self.active_questions@)
    }

    /// Whether a pack draws from the journal: its id, goal and budget, the
    /// journal's id and digest, and the given replay steps.
    pub open spec fn is_journal_pack(
        self,
        pack_id: Seq<char>,
        goal: Seq<char>,
        journal: DecisionRunbookJournal,
        steps: Seq<DecisionRunbookReplayStep>,
        context_budget_bytes: usize,
    ) -> bool {
        &&& self.pack_id@ == pack_id
        &&& self.goal@ == goal
        &&& self.journal_id == journal.journal_id
        &&& self.journal_digest@ == sha256_hex(journal.material())
        &&& self.selected_replay_steps@ == steps
        &&& self.context_budget_bytes == context_budget_bytes
    }

    pub open spec fn context_text(self) -> Seq<char> {
        "goal: "@ + self.goal@ + "\n"@ + "journal: "@ + self.journal_id@ + "\n"@ + (if self.selected_replay_steps.len()
            > 0 {
            "replay:\n"@ + pack_replay_lines(self.selected_replay_steps@)
        } else {
            Seq::empty()
        }) + (if self.active_questions.len() > 0 {
            "active_questions:\n"@ + pack_question_lines(self.active_questions@)
        } else {
            Seq::empty()
        })
    }

    #[verifier::opaque]
    pub open spec fn material(self) -> Seq<char> {
        "xccute.decisions.context.pack.v1\n"@
            + stable_field("pack_id"@, self.pack_id@)
            + stable_field("goal"@, self.goal@)
            + stable_field("journal_id"@, self.journal_id@)
            + stable_field("journal_digest"@, self.journal_digest@)
            + stable_field(
                "active_runbook_contract_digest"@,
                opt_text(self.active_runbook_contract_digest),
            )
            + stable_field("active_guide_digest"@, opt_text(self.active_guide_digest))
            + stable_field("context_budget_bytes"@, decimal(self.context_budget_bytes as nat))
            + pack_step_listings(self.selected_replay_steps@)
            + question_listings("active_question["@, self.active_questions@)
    }

    pub fn from_journal(
        pack_id: &str,
        goal: &str,
        journal: &DecisionRunbookJournal,
        context_budget_bytes: usize,
    ) -> (pack: Self)
        ensures
            pack.is_journal_pack(
                pack_id@,
                goal@,
                *journal,
                replays_of(journal.entries@),
                context_budget_bytes,
            ),
            pack.active_runbook_contract_digest is None,
            pack.active_guide_digest is None,
            pack.active_questions@ == Seq::<DecisionQuestionSpec>::empty(),
    {
        Self::from_parts(
            pack_id,
            goal,
            journal,
            journal.replay_steps(),
            None,
            None,
            Vec::new(),
            context_budget_bytes,
        )
    }

    pub fn from_journal_selection(
        pack_id: &str,
        goal: &str,
        journal: &DecisionRunbookJournal,
        selection: DecisionContextPackReplaySelection,
        context_budget_bytes: usize,
    ) -> (result: DecisionContextPackResult<Self>)
        ensures
            result is Ok <==> selection_error(journal.entries.len() as nat, selection) is None,
            result matches Err(error) ==> selection_error(journal.entries.len() as nat, selection)
                == Some(error),
            result matches Ok(pack) ==> {
                &&& pack.is_journal_pack(
                    pack_id@,
                    goal@,
                    *journal,
                    selected_steps(replays_of(journal.entries@), selection),
                    context_budget_bytes,
                )
                &&& pack.active_runbook_contract_digest is None
                &&& pack.active_guide_digest is None
                &&& pack.active_questions@ == Seq::<DecisionQuestionSpec>::empty()
            },
    {
        let selected = match select_replay_steps(journal, selection) {
            Ok(steps) => steps,
            Err(error) => { return Err(error); },
        };
        Ok(
            Self::from_parts(
                pack_id,
                goal,
                journal,
                selected,
                None,
                None,
                Vec::new(),
                context_budget_bytes,
            ),
        )
    }

    pub fn for_active_runbook(
        pack_id: &str,
        goal: &str,
        journal: &DecisionRunbookJournal,
        guide_template: &DecisionGuideTemplate,
        runbook_instance: &DecisionRunbookInstance,
        selection: DecisionContextPackReplaySelection,
        context_budget_bytes: usize,
    ) -> (result: DecisionContextPackResult<Self>)
        ensures
            result is Ok <==> {
                &&& sha256_hex(guide_template.material()) == runbook_instance.contract.guide_digest@
                &&& selection_error(journal.entries.len() as nat, selection) is None
            },
            result matches Err(error) ==> if sha256_hex(guide_template.material())
                != runbook_instance.contract.guide_digest@ {
                error matches DecisionContextPackError::SourceRunbookMismatch {
                    template_source_digest,
                    instance_source_digest,
                } && template_source_digest@ == sha256_hex(guide_template.material())
                    && instance_source_digest == runbook_instance.contract.guide_digest
            } else {
                selection_error(journal.entries.len() as nat, selection) == Some(error)
            },
            result matches Ok(pack) ==> {
                &&& pack.is_journal_pack(
                    pack_id@,
                    goal@,
                    *journal,
                    selected_steps(replays_of(journal.entries@), selection),
                    context_budget_bytes,
                )
                &&& opt_view(pack.active_runbook_contract_digest) == Some(
                    sha256_hex(runbook_instance.contract.material()),
                )
                &&& pack.active_guide_digest == Some(runbook_instance.contract.guide_digest)
                &&& pack.active_questions@ == guide_template.questions@
            },
    {
        let template_source_digest = guide_template.digest();
        if template_source_digest != runbook_instance.contract.guide_digest {
            return Err(
                DecisionContextPackError::SourceRunbookMismatch {
                    template_source_digest,
                    instance_source_digest: runbook_instance.contract.guide_digest.clone(),
                },
            );
        }
        let selected = match select_replay_steps(journal, selection) {
            Ok(steps) => steps,
            Err(error) => { return Err(error); },
        };
        Ok(
            Self::from_parts(
                pack_id,
                goal,
                journal,
                selected,
                Some(runbook_instance.contract.digest()),
                Some(runbook_instance.contract.guide_digest.clone()),
                guide_template.copied_questions(),
                context_budget_bytes,
            ),
        )
    }

    fn from_parts(
        pack_id: &str,
        goal: &str,
        journal: &DecisionRunbookJournal,
        selected_replay_steps: Vec<DecisionRunbookReplayStep>,
        active_runbook_contract_digest: Option<String>,
        active_guide_digest: Option<String>,
        active_questions: Vec<DecisionQuestionSpec>,
        context_budget_bytes: usize,
    ) -> (pack: Self)
        ensures
            pack.is_journal_pack(
                pack_id@,
                goal@,
                *journal,
                selected_replay_steps@,
                context_budget_bytes,
            ),
            pack.active_runbook_contract_digest == active_runbook_contract_digest,
            pack.active_guide_digest == active_guide_digest,
            pack.active_questions == active_questions,
    {
        DecisionContextPack {
            pack_id: text_of(pack_id),
            goal: text_of(goal),
            journal_id: journal.journal_id.clone(),
            journal_digest: journal.digest(),
            selected_replay_steps,
            active_runbook_contract_digest,
            active_guide_digest,
            active_questions,
            context_budget_bytes,
        }
    }

    /// Bytes of context the pack carries; requires the total to fit a `usize`
    /// (the sum overflows otherwise).
    pub fn selected_context_bytes(&self) -> (bytes: usize)
        requires
            self.selected_bytes() <= usize::MAX,
        ensures
            bytes == self.selected_bytes(),
    {
        let mut replay_bytes: usize = 0;
        let mut i: usize = 0;
        while i < self.selected_replay_steps.len()
            invariant
                i <= self.selected_replay_steps.len(),
                self.selected_bytes() <= usize::MAX,
                replay_bytes == summary_bytes(self.selected_replay_steps@.take(i as int)),
            decreases self.selected_replay_steps.len() - i,
        {
            proof {
                assert(self.selected_replay_steps@.take(i + 1).drop_last()
                    =~= self.selected_replay_steps@.take(i as int));
                lemma_summary_bytes_prefix(self.selected_replay_steps@, i + 1);
            }
            replay_bytes = replay_bytes + self.selected_replay_steps[i].compact_summary.as_str().len();
            i = i + 1;
        }
        assert(self.selected_replay_steps@.take(i as int) =~= self.selected_replay_steps@);
        let mut question_total: usize = 0;
        let mut k: usize = 0;
        while k < self.active_questions.len()
            invariant
                k <= self.active_questions.len(),
                self.selected_bytes() <= usize::MAX,
                replay_bytes == summary_bytes(self.selected_replay_steps@),
                question_total == question_bytes(self.active_questions@.take(k as int)),
            decreases self.active_questions.len() - k,
        {
            proof {
                assert(self.active_questions@.take(k + 1).drop_last()
                    =~= self.active_questions@.take(k as int));
                lemma_question_bytes_prefix(self.active_questions@, k + 1);
            }
            let question = &self.active_questions[k];
            question_total = question_total + question.question.as_str().len()
                + question.responsibility.as_str().len();
            k = k + 1;
        }
        assert(self.active_questions@.take(k as int) =~= self.active_questions@);
        replay_bytes + question_total
    }

    /// Whether the carried context fits the pack's byte budget.
    pub fn fits_context_budget(&self) -> (fits: bool)
        requires
            self.selected_bytes() <= usize::MAX,
        ensures
            fits == (self.selected_bytes() <= self.context_budget_bytes),
    {
        self.selected_context_bytes() <= self.context_budget_bytes
    }

    pub fn compact_context(&self) -> (context: String)
        ensures
            context@ == self.context_text(),
    {
        let mut context = text_of("goal: ");
        context.append(self.goal.as_str());
        context.append("\n");
        context.append("journal: ");
        context.append(self.journal_id.as_str());
        context.append("\n");
        let ghost header = context@;
        if self.selected_replay_steps.len() > 0 {
            context.append("replay:\n");
            let ghost start = context@;
            let mut i: usize = 0;
            while i < self.selected_replay_steps.len()
                invariant
                    i <= self.selected_replay_steps.len(),
                    context@ == start + pack_replay_lines(self.selected_replay_steps@.take(i as int)),
                decreases self.selected_replay_steps.len() - i,
            {
                let step = &self.selected_replay_steps[i];
                let index = usize_text(step.index);
                let ghost before = context@;
                context.append("- ");
                context.append(index.as_str());
                context.append(". ");
                context.append(step.runbook_id.as_str());
                context.append(" [");
                context.append(step.mode.stable_label());
                context.append("]: ");
                context.append(step.compact_summary.as_str());
                context.append("\n");
                assert(self.selected_replay_steps@.take(i + 1).drop_last()
                    =~= self.selected_replay_steps@.take(i as int));
                assert(context@ =~= before + "- "@ + replay_line(self.selected_replay_steps@[i as int]));
                i = i + 1;
            }
            assert(self.selected_replay_steps@.take(i as int) =~= self.selected_replay_steps@);
        }
        let ghost middle = context@;
        if self.active_questions.len() > 0 {
            context.append("active_questions:\n");
            let ghost start = context@;
            let mut k: usize = 0;
            while k < self.active_questions.len()
                invariant
                    k <= self.active_questions.len(),
                    context@ == start + pack_question_lines(self.active_questions@.take(k as int)),
                decreases self.active_questions.len() - k,
            {
                let question = &self.active_questions[k];
                let ghost before = context@;
                context.append("- ");
                context.append(requirement_word_str(question.required));
                context.append(" ");
                context.append(question.logical_id.as_str());
                context.append(" via ");
                context.append(question.tool_id.as_str());
                context.append("/");
                context.append(question.operation_logical_id.as_str());
                context.append(": ");
                context.append(question.question.as_str());
                context.append("\n");
                assert(self.active_questions@.take(k + 1).drop_last()
                    =~= self.active_questions@.take(k as int));
                assert(context@ =~= before + pack_question_line(self.active_questions@[k as int]));
                k = k + 1;
            }
            assert(self.active_questions@.take(k as int) =~= self.active_questions@);
        }
        assert(context@ =~= self.context_text());
        context
    }

    pub fn stable_material(&self) -> (material: String)
        ensures
            material@ == self.material(),
    {
        let mut material = text_of("xccute.decisions.context.pack.v1\n");
        push_stable_field(&mut material, "pack_id", self.pack_id.as_str());
        push_stable_field(&mut material, "goal", self.goal.as_str());
        push_stable_field(&mut material, "journal_id", self.journal_id.as_str());
        push_stable_field(&mut material, "journal_digest", self.journal_digest.as_str());
        push_stable_field(
            &mut material,
            "active_runbook_contract_digest",
            opt_str(&self.active_runbook_contract_digest),
        );
        push_stable_field(&mut material, "active_guide_digest", opt_str(&self.active_guide_digest));
        let budget = usize_text(self.context_budget_bytes);
        push_stable_field(&mut material, "context_budget_bytes", budget.as_str());
        let ghost header = material@;
        let mut i: usize = 0;
        while i < self.selected_replay_steps.len()
            invariant
                i <= self.selected_replay_steps.len(),
                material@ == header + pack_step_listings(self.selected_replay_steps@.take(i as int)),
            decreases self.selected_replay_steps.len() - i,
        {
            let ghost before = material@;
            push_step_listing(&mut material, i, &self.selected_replay_steps[i]);
            proof {
                assert(self.selected_replay_steps@.take(i + 1).drop_last()
                    =~= self.selected_replay_steps@.take(i as int));
            }
            i = i + 1;
        }
        assert(self.selected_replay_steps@.take(i as int) =~= self.selected_replay_steps@);
        push_question_listings(&mut material, "active_question[", &self.active_questions);
        proof {
            reveal(DecisionContextPack::material);
        }
        material
    }

    pub fn digest(&self) -> (digest: String)
        ensures
            digest@ == sha256_hex(self.material()),
    {
        let material = self.stable_material();
        sha256_digest(material.as_str())
    }
}

proof fn lemma_summary_bytes_concat(
    first: Seq<DecisionRunbookReplayStep>,
    second: Seq<DecisionRunbookReplayStep>,
)
    ensures
        summary_bytes(first + second) == summary_bytes(first) + summary_bytes(second),
    decreases second.len(),
{
    if second.len() == 0 {
        assert(first + second =~= first);
    } else {
        lemma_summary_bytes_concat(first, second.drop_last());
        assert((first + second).drop_last() =~= first + second.drop_last());
    }
}

/// An accepted replay selection keeps one contiguous run of the journal's
/// replay steps, in journal order, and so never carries more summary bytes
/// than the whole journal; `Last(count)` keeps the final `count` steps (all
/// of them when there are fewer).
pub proof fn lemma_selection_is_window(
    steps: Seq<DecisionRunbookReplayStep>,
    selection: DecisionContextPackReplaySelection,
)
    requires
        selection_error(steps.len(), selection) is None,
    ensures
        exists|start: int, end: int|
            0 <= start <= end <= steps.len() && selected_steps(steps, selection) == steps.subrange(
                start,
                end,
            ),
        summary_bytes(selected_steps(steps, selection)) <= summary_bytes(steps),
        selection matches DecisionContextPackReplaySelection::Last(count) ==> {
            &&& selected_steps(steps, selection).len() == if count >= steps.len() {
                steps.len() as int
            } else {
                count as int
            }
            &&& selected_steps(steps, selection) == steps.skip(
                steps.len() - selected_steps(steps, selection).len(),
            )
        },
{
    let (start, end): (int, int) = match selection {
        DecisionContextPackReplaySelection::All => (0, steps.len() as int),
        DecisionContextPackReplaySelection::Last(count) => if count >= steps.len() {
            (0, steps.len() as int)
        } else {
            (steps.len() - count, steps.len() as int)
        },
        DecisionContextPackReplaySelection::Range { start, end_exclusive } => (
            start as int,
            end_exclusive as int,
        ),
    };
    let window = steps.subrange(start, end);
    assert(selected_steps(steps, selection) =~= window);
    assert(steps =~= steps.take(start) + window + steps.skip(end));
    lemma_summary_bytes_concat(steps.take(start), window);
    lemma_summary_bytes_concat(steps.take(start) + window, steps.skip(end));
    if selection is Last {
        assert(steps.skip(steps.len() - window.len()) =~= window);
    }
}

/// What each replay selection keeps of a journal's `available` replay steps,
/// and when it is refused: `All` keeps every step; `Last(count)` is refused
/// for a count of zero and otherwise keeps the final `count` steps (all of
/// them when there are fewer), in order; `Range { start, end_exclusive }` is
/// refused as empty unless `start < end_exclusive`, refused as out of bounds
/// when it ends past the last step, and otherwise keeps exactly the steps
/// from `start` up to `end_exclusive`, in order.
pub proof fn lemma_replay_selection_keeps(
    steps: Seq<DecisionRunbookReplayStep>,
    selection: DecisionContextPackReplaySelection,
)
    ensures
        selection is All ==> selection_error(steps.len(), selection) is None && selected_steps(
            steps,
            selection,
        ) == steps,
        selection matches DecisionContextPackReplaySelection::Last(count) ==> {
            &&& (selection_error(steps.len(), selection) is None <==> count > 0)
            &&& (count == 0 ==> selection_error(steps.len(), selection) == Some(
                DecisionContextPackError::EmptyReplaySelection,
            ))
            &&& selected_steps(steps, selection).len() == if count < steps.len() {
                count as int
            } else {
                steps.len() as int
            }
            &&& forall|k: int|
                0 <= k < selected_steps(steps, selection).len() ==> #[trigger] selected_steps(
                    steps,
                    selection,
                )[k] == steps[steps.len() - selected_steps(steps, selection).len() + k]
        },
        selection matches DecisionContextPackReplaySelection::Range { start, end_exclusive } ==> {
            &&& (selection_error(steps.len(), selection) is None <==> start < end_exclusive
                && end_exclusive <= steps.len())
            &&& (start >= end_exclusive ==> selection_error(steps.len(), selection) == Some(
                DecisionContextPackError::EmptyReplaySelection,
            ))
            &&& (start < end_exclusive && end_exclusive > steps.len() ==> selection_error(
                steps.len(),
                selection,
            ) == Some(
                DecisionContextPackError::ReplayRangeOutOfBounds {
                    start,
                    end_exclusive,
                    available: steps.len() as usize,
                },
            ))
            &&& (start < end_exclusive && end_exclusive <= steps.len() ==> {
                &&& selected_steps(steps, selection).len() == end_exclusive - start
                &&& forall|k: int|
                    0 <= k < end_exclusive - start ==> #[trigger] selected_steps(steps, selection)[k]
                        == steps[start + k]
            })
        },
{
}

/// The bytes a pack counts: no bytes for no steps or questions; one more step
/// adds the UTF-8 bytes of its compact summary, one more question the bytes
/// of its question text and of its responsibility.
pub proof fn lemma_context_bytes_add_up(
    steps: Seq<DecisionRunbookReplayStep>,
    step: DecisionRunbookReplayStep,
    questions: Seq<DecisionQuestionSpec>,
    question: DecisionQuestionSpec,
)
    ensures
        summary_bytes(Seq::empty()) == 0,
        question_bytes(Seq::empty()) == 0,
        summary_bytes(steps.push(step)) == summary_bytes(steps) + utf8_len(step.compact_summary@),
        question_bytes(questions.push(question)) == question_bytes(questions) + utf8_len(
            question.question@,
        ) + utf8_len(question.responsibility@),
{
    assert(steps.push(step).drop_last() =~= steps);
    assert(questions.push(question).drop_last() =~= questions);
}

} // verus!
