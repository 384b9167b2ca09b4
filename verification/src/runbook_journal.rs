//! Append-only journals for decision runbook records.
//!
//! A `DecisionRunbookRecord` proves one runbook instance was satisfied. This
//! module links many records into a deterministic journal so a longer solution
//! path can be replayed without loading every raw command output into context.
//! Each entry keeps a compact summary and links to the previous entry digest.

use crate::runbook::DecisionRunbookMode;
use crate::runbook_record::DecisionRunbookRecord;
use crate::stable::{
    copy_opt_string, decimal, opt_str, opt_text, opt_view, push_stable_field, sha256_digest,
    sha256_hex, stable_field, text_of, usize_text,
};
use vstd::prelude::*;

verus! {

#[derive(Debug, Clone, PartialEq, Eq)]
pub enum DecisionRunbookJournalError {
    EntryIndexMismatch { expected_index: usize, actual_index: usize },
    PreviousEntryDigestMismatch {
        index: usize,
        expected_previous_entry_digest: Option<String>,
        actual_previous_entry_digest: Option<String>,
    },
    DuplicateRecordDigest { first_index: usize, duplicate_index: usize, record_digest: String },
}

pub type DecisionRunbookJournalResult<T> = Result<T, DecisionRunbookJournalError>;

#[derive(Debug, Clone, PartialEq, Eq)]
pub struct DecisionRunbookJournalEntry {
    pub index: usize,
    pub previous_entry_digest: Option<String>,
    pub runbook_id: String,
    pub mode: DecisionRunbookMode,
    pub record_digest: String,
    pub contract_digest: String,
    pub guided_context_digest: String,
    pub acknowledged_path_digest: String,
    pub execution_receipt_digest: Option<String>,
    pub observation_receipt_digest: Option<String>,
    pub compact_summary: String,
}

impl DecisionRunbookJournalEntry {
    /// Whether an entry records the given record at the given index, after the
    /// given previous entry digest, with the given summary.
    pub open spec fn records(
        self,
        index: int,
        previous_entry_digest: Option<Seq<char>>,
        record: DecisionRunbookRecord,
        compact_summary: Seq<char>,
    ) -> bool {
        &&& self.index == index
        &&& opt_view(self.previous_entry_digest) == previous_entry_digest
        &&& self.runbook_id == record.runbook_id
        &&& self.mode == record.mode
        &&& self.record_digest@ == sha256_hex(record.material())
        &&& self.contract_digest == record.contract_digest
        &&& self.guided_context_digest == record.guided_context_digest
        &&& self.acknowledged_path_digest == record.acknowledged_path_digest
        &&& self.execution_receipt_digest == record.execution_receipt_digest
        &&& self.observation_receipt_digest == record.observation_receipt_digest
        &&& self.compact_summary@ == compact_summary
    }

    #[verifier::opaque]
    pub open spec fn material(self) -> Seq<char> {
        "xccute.decisions.runbook.journal.entry.v1\n"@
            + stable_field("index"@, decimal(self.index as nat))
            + stable_field("previous_entry_digest"@, opt_text(self.previous_entry_digest))
            + stable_field("runbook_id"@, self.runbook_id@)
            + stable_field("mode"@, self.mode.label_text())
            + stable_field("record_digest"@, self.record_digest@)
            + stable_field("contract_digest"@, self.contract_digest@)
            + stable_field("guided_context_digest"@, self.guided_context_digest@)
            + stable_field("acknowledged_path_digest"@, self.acknowledged_path_digest@)
            + stable_field("execution_receipt_digest"@, opt_text(self.execution_receipt_digest))
            + stable_field("observation_receipt_digest"@, opt_text(self.observation_receipt_digest))
            + stable_field("compact_summary"@, self.compact_summary@)
    }

    pub fn new(
        index: usize,
        previous_entry_digest: Option<String>,
        record: &DecisionRunbookRecord,
        compact_summary: &str,
    ) -> (entry: Self)
        ensures
            entry.records(index as int, opt_view(previous_entry_digest), *record, compact_summary@),
            entry.previous_entry_digest == previous_entry_digest,
    {
        DecisionRunbookJournalEntry {
            index,
            previous_entry_digest,
            runbook_id: record.runbook_id.clone(),
            mode: record.mode,
            record_digest: record.digest(),
            contract_digest: record.contract_digest.clone(),
            guided_context_digest: record.guided_context_digest.clone(),
            acknowledged_path_digest: record.acknowledged_path_digest.clone(),
            execution_receipt_digest: copy_opt_string(&record.execution_receipt_digest),
            observation_receipt_digest: copy_opt_string(&record.observation_receipt_digest),
            compact_summary: text_of(compact_summary),
        }
    }

    pub fn stable_material(&self) -> (material: String)
        ensures
            material@ == self.material(),
    {
        let mut material = text_of("xccute.decisions.runbook.journal.entry.v1\n");
        let index = usize_text(self.index);
        push_stable_field(&mut material, "index", index.as_str());
        push_stable_field(&mut material, "previous_entry_digest", opt_str(&self.previous_entry_digest));
        push_stable_field(&mut material, "runbook_id", self.runbook_id.as_str());
        push_stable_field(&mut material, "mode", self.mode.stable_label());
        push_stable_field(&mut material, "record_digest", self.record_digest.as_str());
        push_stable_field(&mut material, "contract_digest", self.contract_digest.as_str());
        push_stable_field(&mut material, "guided_context_digest", self.guided_context_digest.as_str());
        push_stable_field(
            &mut material,
            "acknowledged_path_digest",
            self.acknowledged_path_digest.as_str(),
        );
        push_stable_field(
            &mut material,
            "execution_receipt_digest",
            opt_str(&self.execution_receipt_digest),
        );
        push_stable_field(
            &mut material,
            "observation_receipt_digest",
            opt_str(&self.observation_receipt_digest),
        );
        push_stable_field(&mut material, "compact_summary", self.compact_summary.as_str());
        proof {
            reveal(DecisionRunbookJournalEntry::material);
        }
        material
    }

    pub fn digest(&self) -> (digest: String)
        ensures
            digest@ == sha256_hex(self.material()),
    {
        let material = self.stable_material();
        sha256_digest(material.as_str())
    }

    /// A copy of this entry.
    pub fn copied(&self) -> (copy: Self)
        ensures
            copy == *self,
    {
        DecisionRunbookJournalEntry {
            index: self.index,
            previous_entry_digest: copy_opt_string(&self.previous_entry_digest),
            runbook_id: self.runbook_id.clone(),
            mode: self.mode,
            record_digest: self.record_digest.clone(),
            contract_digest: self.contract_digest.clone(),
            guided_context_digest: self.guided_context_digest.clone(),
            acknowledged_path_digest: self.acknowledged_path_digest.clone(),
            execution_receipt_digest: copy_opt_string(&self.execution_receipt_digest),
            observation_receipt_digest: copy_opt_string(&self.observation_receipt_digest),
            compact_summary: self.compact_summary.clone(),
        }
    }
}

#[derive(Debug, Clone, PartialEq, Eq)]
pub struct DecisionRunbookReplayStep {
    pub index: usize,
    pub runbook_id: String,
    pub mode: DecisionRunbookMode,
    pub record_digest: String,
    pub compact_summary: String,
}

impl DecisionRunbookReplayStep {
    /// A copy of this step.
    pub fn copied(&self) -> (copy: Self)
        ensures
            copy == *self,
    {
        DecisionRunbookReplayStep {
            index: self.index,
            runbook_id: self.runbook_id.clone(),
            mode: self.mode,
            record_digest: self.record_digest.clone(),
            compact_summary: self.compact_summary.clone(),
        }
    }
}

/// The replay step an entry yields.
pub open spec fn replay_of(entry: DecisionRunbookJournalEntry) -> DecisionRunbookReplayStep {
    DecisionRunbookReplayStep {
        index: entry.index,
        runbook_id: entry.runbook_id,
        mode: entry.mode,
        record_digest: entry.record_digest,
        compact_summary: entry.compact_summary,
    }
}

/// The replay steps of a list of entries, in order.
pub open spec fn replays_of(entries: Seq<DecisionRunbookJournalEntry>) -> Seq<DecisionRunbookReplayStep> {
    Seq::new(entries.len(), |i: int| replay_of(entries[i]))
}

/// The digest entry `index` must name as its previous entry: none for the
/// first entry, the digest of the entry before it otherwise.
pub open spec fn expected_previous_digest(entries: Seq<DecisionRunbookJournalEntry>, index: int) -> Option<
    Seq<char>,
> {
    if index == 0 {
        None
    } else {
        Some(sha256_hex(entries[index - 1].material()))
    }
}

/// Whether entry `index` sits at its own index, links to the entry before it,
/// and records a record digest no earlier entry records.
pub open spec fn entry_valid_at(entries: Seq<DecisionRunbookJournalEntry>, index: int) -> bool {
    &&& entries[index].index == index
    &&& opt_view(entries[index].previous_entry_digest) == expected_previous_digest(entries, index)
    &&& forall|j: int| 0 <= j < index ==> entries[j].record_digest@ != entries[index].record_digest@
}

/// Whether a list of entries forms an append-only chain.
pub open spec fn chain_valid(entries: Seq<DecisionRunbookJournalEntry>) -> bool {
    forall|i: int| 0 <= i < entries.len() ==> #[trigger] entry_valid_at(entries, i)
}

/// The entry index a validation error is reported at.
pub open spec fn failure_index(error: DecisionRunbookJournalError) -> int {
    match error {
        DecisionRunbookJournalError::EntryIndexMismatch { expected_index, .. } => expected_index as int,
        DecisionRunbookJournalError::PreviousEntryDigestMismatch { index, .. } => index as int,
        DecisionRunbookJournalError::DuplicateRecordDigest { duplicate_index, .. } => duplicate_index
            as int,
    }
}

/// Whether an error describes the first failing check of entry `index`:
/// checks run in the order index, previous link, duplicate record digest (the
/// first earlier entry with the same record digest).
pub open spec fn failure_at(
    entries: Seq<DecisionRunbookJournalEntry>,
    index: int,
    error: DecisionRunbookJournalError,
) -> bool {
    if entries[index].index != index {
        error == (DecisionRunbookJournalError::EntryIndexMismatch {
            expected_index: index as usize,
            actual_index: entries[index].index,
        })
    } else if opt_view(entries[index].previous_entry_digest) != expected_previous_digest(
        entries,
        index,
    ) {
        error matches DecisionRunbookJournalError::PreviousEntryDigestMismatch {
            index: reported,
            expected_previous_entry_digest,
            actual_previous_entry_digest,
        } && reported == index && opt_view(expected_previous_entry_digest)
            == expected_previous_digest(entries, index) && actual_previous_entry_digest
            == entries[index].previous_entry_digest
    } else {
        error matches DecisionRunbookJournalError::DuplicateRecordDigest {
            first_index,
            duplicate_index,
            record_digest,
        } && duplicate_index == index && 0 <= first_index < index
            && entries[first_index as int].record_digest@ == entries[index].record_digest@
            && (forall|m: int|
            0 <= m < first_index ==> entries[m].record_digest@ != entries[index].record_digest@)
            && record_digest == entries[index].record_digest
    }
}

/// Whether an error is the one validation reports: the first failing check of
/// the first entry that fails.
pub open spec fn chain_error(
    entries: Seq<DecisionRunbookJournalEntry>,
    error: DecisionRunbookJournalError,
) -> bool {
    let index = failure_index(error);
    &&& 0 <= index < entries.len()
    &&& forall|k: int| 0 <= k < index ==> #[trigger] entry_valid_at(entries, k)
    &&& !entry_valid_at(entries, index)
    &&& failure_at(entries, index, error)
}

/// Whether `after` is `before` with one entry appended for the record and
/// summary: the entry sits at the next index and links to the last entry.
pub open spec fn is_appended(
    before: Seq<DecisionRunbookJournalEntry>,
    record: DecisionRunbookRecord,
    compact_summary: Seq<char>,
    after: Seq<DecisionRunbookJournalEntry>,
) -> bool {
    &&& after.len() == before.len() + 1
    &&& after.drop_last() == before
    &&& after.last().records(
        before.len() as int,
        expected_previous_digest(after, before.len() as int),
        record,
        compact_summary,
    )
}

/// How a journal lists entry `index`: its digest, then its material.
pub open spec fn entry_listing(index: int, entry: DecisionRunbookJournalEntry) -> Seq<char> {
    "entry["@ + decimal(index as nat) + "].digest="@ + sha256_hex(entry.material()) + "\n"@
        + entry.material()
}

pub open spec fn entry_listings(entries: Seq<DecisionRunbookJournalEntry>) -> Seq<char>
    decreases entries.len(),
{
    if entries.len() == 0 {
        Seq::empty()
    } else {
        entry_listings(entries.drop_last()) + entry_listing(entries.len() - 1, entries.last())
    }
}

proof fn lemma_entry_listings_take(entries: Seq<DecisionRunbookJournalEntry>, i: int)
    requires
        0 <= i < entries.len(),
    ensures
        entry_listings(entries.take(i + 1)) == entry_listings(entries.take(i)) + entry_listing(
            i,
            entries[i],
        ),
{
    assert(entries.take(i + 1).drop_last() =~= entries.take(i));
}

/// One line of a journal's compact context: `index. runbook [mode]: summary`.
pub open spec fn replay_line(step: DecisionRunbookReplayStep) -> Seq<char> {
    decimal(step.index as nat) + ". "@ + step.runbook_id@ + " ["@ + step.mode.label_text() + "]: "@
        + step.compact_summary@ + "\n"@
}

pub open spec fn replay_lines(steps: Seq<DecisionRunbookReplayStep>) -> Seq<char>
    decreases steps.len(),
{
    if steps.len() == 0 {
        Seq::empty()
    } else {
        replay_lines(steps.drop_last()) + replay_line(steps.last())
    }
}

#[derive(Debug, Clone, PartialEq, Eq)]
pub struct DecisionRunbookJournal {
    pub journal_id: String,
    pub entries: Vec<DecisionRunbookJournalEntry>,
}

impl DecisionRunbookJournal {
    #[verifier::opaque]
    pub open spec fn material(self) -> Seq<char> {
        "xccute.decisions.runbook.journal.v1\n"@ + stable_field("journal_id"@, self.journal_id@)
            + entry_listings(self.entries@)
    }

    pub fn new(journal_id: &str) -> (journal: Self)
        ensures
            journal.journal_id@ == journal_id@,
            journal.entries@ == Seq::<DecisionRunbookJournalEntry>::empty(),
    {
        DecisionRunbookJournal { journal_id: text_of(journal_id), entries: Vec::new() }
    }

    /// The journal with an entry for the record appended: at the next index,
    /// linked to the digest of the last entry.
    pub fn append(self, record: &DecisionRunbookRecord, compact_summary: &str) -> (journal: Self)
        ensures
            journal.journal_id == self.journal_id,
            is_appended(self.entries@, *record, compact_summary@, journal.entries@),
    {
        let mut journal = self;
        let count = journal.entries.len();
        let previous_entry_digest = if count == 0 {
            None
        } else {
            Some(journal.entries[count - 1].digest())
        };
        let entry = DecisionRunbookJournalEntry::new(
            count,
            previous_entry_digest,
            record,
            compact_summary,
        );
        let ghost before = journal.entries@;
        journal.entries.push(entry);
        assert(journal.entries@.drop_last() =~= before);
        journal
    }

    pub fn try_from_entries(journal_id: &str, entries: Vec<DecisionRunbookJournalEntry>) -> (result:
        DecisionRunbookJournalResult<Self>)
        ensures
            result is Ok <==> chain_valid(entries@),
            result matches Err(error) ==> chain_error(entries@, error),
            result matches Ok(journal) ==> journal.journal_id@ == journal_id@ && journal.entries@
                == entries@,
    {
        match validate_entries(&entries) {
            Err(error) => Err(error),
            Ok(()) => Ok(DecisionRunbookJournal { journal_id: text_of(journal_id), entries }),
        }
    }

    pub fn replay_steps(&self) -> (steps: Vec<DecisionRunbookReplayStep>)
        ensures
            steps@ == replays_of(self.entries@),
    {
        let mut steps: Vec<DecisionRunbookReplayStep> = Vec::new();
        let mut i: usize = 0;
        while i < self.entries.len()
            invariant
                i <= self.entries.len(),
                steps@ =~= replays_of(self.entries@.take(i as int)),
            decreases self.entries.len() - i,
        {
            let entry = &self.entries[i];
            steps.push(
                DecisionRunbookReplayStep {
                    index: entry.index,
                    runbook_id: entry.runbook_id.clone(),
                    mode: entry.mode,
                    record_digest: entry.record_digest.clone(),
                    compact_summary: entry.compact_summary.clone(),
                },
            );
            i = i + 1;
        }
        assert(self.entries@.take(i as int) =~= self.entries@);
        steps
    }

    /// One line per replay step: `index. runbook [mode]: summary`.
    pub fn compact_context(&self) -> (context: String)
        ensures
            context@ == replay_lines(replays_of(self.entries@)),
    {
        let steps = self.replay_steps();
        let mut context = text_of("");
        proof {
            reveal_strlit("");
        }
        let mut i: usize = 0;
        while i < steps.len()
            invariant
                i <= steps.len(),
                context@ == replay_lines(steps@.take(i as int)),
            decreases steps.len() - i,
        {
            let step = &steps[i];
            let index = usize_text(step.index);
            let ghost before = context@;
            context.append(index.as_str());
            context.append(". ");
            context.append(step.runbook_id.as_str());
            context.append(" [");
            context.append(step.mode.stable_label());
            context.append("]: ");
            context.append(step.compact_summary.as_str());
            context.append("\n");
            assert(steps@.take(i + 1).drop_last() =~= steps@.take(i as int));
            assert(context@ =~= before + replay_line(steps@[i as int]));
            i = i + 1;
        }
        assert(steps@.take(i as int) =~= steps@);
        context
    }

    pub fn stable_material(&self) -> (material: String)
        ensures
            material@ == self.material(),
    {
        let mut material = text_of("xccute.decisions.runbook.journal.v1\n");
        push_stable_field(&mut material, "journal_id", self.journal_id.as_str());
        let ghost header = material@;
        let mut i: usize = 0;
        while i < self.entries.len()
            invariant
                i <= self.entries.len(),
                material@ == header + entry_listings(self.entries@.take(i as int)),
            decreases self.entries.len() - i,
        {
            let entry = &self.entries[i];
            let index_text = usize_text(i);
            let digest = entry.digest();
            let entry_material = entry.stable_material();
            let ghost before = material@;
            material.append("entry[");
            material.append(index_text.as_str());
            material.append("].digest=");
            material.append(digest.as_str());
            material.append("\n");
            material.append(entry_material.as_str());
            proof {
                lemma_entry_listings_take(self.entries@, i as int);
                assert(material@ =~= before + entry_listing(i as int, self.entries@[i as int]));
            }
            i = i + 1;
        }
        assert(self.entries@.take(i as int) =~= self.entries@);
        proof {
            reveal(DecisionRunbookJournal::material);
        }
        material
    }

    pub fn digest(&self) -> (digest: String)
        ensures
            digest@ == sha256_hex(self.material()),
    {
        let material = self.stable_material();
        sha256_digest(material.as_str())
    }
}

fn validate_entries(entries: &Vec<DecisionRunbookJournalEntry>) -> (result: DecisionRunbookJournalResult<()>)
    ensures
        result is Ok <==> chain_valid(entries@),
        result matches Err(error) ==> chain_error(entries@, error),
{
    let mut i: usize = 0;
    while i < entries.len()
        invariant
            i <= entries.len(),
            forall|k: int| 0 <= k < i ==> #[trigger] entry_valid_at(entries@, k),
        decreases entries.len() - i,
    {
        let entry = &entries[i];
        if entry.index != i {
            let error = DecisionRunbookJournalError::EntryIndexMismatch {
                expected_index: i,
                actual_index: entry.index,
            };
            assert(failure_index(error) == i);
            assert(!entry_valid_at(entries@, i as int));
            return Err(error);
        }
        let expected_previous_entry_digest = if i == 0 {
            None
        } else {
            Some(entries[i - 1].digest())
        };
        let linked = match (&expected_previous_entry_digest, &entry.previous_entry_digest) {
            (Some(expected), Some(actual)) => *expected == *actual,
            (None, None) => true,
            _ => false,
        };
        if !linked {
            let error = DecisionRunbookJournalError::PreviousEntryDigestMismatch {
                index: i,
                expected_previous_entry_digest,
                actual_previous_entry_digest: copy_opt_string(&entry.previous_entry_digest),
            };
            assert(failure_index(error) == i);
            assert(!entry_valid_at(entries@, i as int));
            return Err(error);
        }
        let mut j: usize = 0;
        while j < i
            invariant
                j <= i < entries.len(),
                entry == &entries@[i as int],
                entries@[i as int].index == i,
                opt_view(entries@[i as int].previous_entry_digest) == expected_previous_digest(
                    entries@,
                    i as int,
                ),
                forall|k: int| 0 <= k < i ==> #[trigger] entry_valid_at(entries@, k),
                forall|m: int|
                    0 <= m < j ==> entries@[m].record_digest@ != entries@[i as int].record_digest@,
            decreases i - j,
        {
            if entries[j].record_digest == entry.record_digest {
                let error = DecisionRunbookJournalError::DuplicateRecordDigest {
                    first_index: j,
                    duplicate_index: i,
                    record_digest: entry.record_digest.clone(),
                };
                assert(failure_index(error) == i);
                assert(entries@[j as int].record_digest@ == entries@[i as int].record_digest@);
                assert(!entry_valid_at(entries@, i as int));
                return Err(error);
            }
            j = j + 1;
        }
        assert(entry_valid_at(entries@, i as int));
        i = i + 1;
    }
    Ok(())
}

/// Appending a record whose digest no entry of a valid chain records keeps the
/// chain valid.
pub proof fn lemma_append_keeps_chain(
    before: Seq<DecisionRunbookJournalEntry>,
    record: DecisionRunbookRecord,
    compact_summary: Seq<char>,
    after: Seq<DecisionRunbookJournalEntry>,
)
    requires
        chain_valid(before),
        is_appended(before, record, compact_summary, after),
        forall|j: int| 0 <= j < before.len() ==> before[j].record_digest@ != sha256_hex(record.material()),
    ensures
        chain_valid(after),
{
    assert forall|i: int| 0 <= i < after.len() implies #[trigger] entry_valid_at(after, i) by {
        assert forall|k: int| 0 <= k < before.len() implies after[k] == before[k] by {
            assert(after.drop_last()[k] == after[k]);
        }
        if i < before.len() {
            assert(after[i] == before[i]);
            assert(entry_valid_at(before, i));
            if i > 0 {
                assert(after[i - 1] == before[i - 1]);
            }
            assert forall|j: int| 0 <= j < i implies after[j].record_digest@ != after[i].record_digest@ by {
                assert(after[j] == before[j]);
            }
        } else {
            assert forall|j: int| 0 <= j < i implies after[j].record_digest@ != after[i].record_digest@ by {
                assert(after[j] == before[j]);
            }
        }
    }
}

/// Appending a record leaves the replay of the earlier entries unchanged and
/// adds one replay step for the record: at the next index, with the record's
/// runbook, mode and digest and the given summary.
pub proof fn lemma_append_extends_replay(
    before: Seq<DecisionRunbookJournalEntry>,
    record: DecisionRunbookRecord,
    compact_summary: Seq<char>,
    after: Seq<DecisionRunbookJournalEntry>,
)
    requires
        is_appended(before, record, compact_summary, after),
    ensures
        replays_of(after).drop_last() == replays_of(before),
        replays_of(after).last().index == before.len(),
        replays_of(after).last().runbook_id == record.runbook_id,
        replays_of(after).last().mode == record.mode,
        replays_of(after).last().record_digest@ == sha256_hex(record.material()),
        replays_of(after).last().compact_summary@ == compact_summary,
{
    assert forall|k: int| 0 <= k < before.len() implies after[k] == before[k] by {
        assert(after.drop_last()[k] == after[k]);
    }
    assert(replays_of(after).drop_last() =~= replays_of(before));
}

/// What an append-only chain is: every entry sits at its own index, the first
/// entry names no previous entry, every later entry names the digest of the
/// entry before it, and no two entries record the same record digest.
pub proof fn lemma_chain_valid_means(entries: Seq<DecisionRunbookJournalEntry>)
    ensures
        chain_valid(entries) <==> {
            &&& forall|i: int| 0 <= i < entries.len() ==> (#[trigger] entries[i]).index == i
            &&& entries.len() > 0 ==> entries[0].previous_entry_digest is None
            &&& forall|i: int|
                1 <= i < entries.len() ==> opt_view((#[trigger] entries[i]).previous_entry_digest)
                    == Some(sha256_hex(entries[i - 1].material()))
            &&& forall|j: int, i: int|
                0 <= j < i < entries.len() ==> (#[trigger] entries[j]).record_digest@ != (
                #[trigger] entries[i]).record_digest@
        },
{
    if chain_valid(entries) {
        assert forall|i: int| 0 <= i < entries.len() implies (#[trigger] entries[i]).index == i by {
            assert(entry_valid_at(entries, i));
        }
        if entries.len() > 0 {
            assert(entry_valid_at(entries, 0));
        }
        assert forall|i: int| 1 <= i < entries.len() implies opt_view(
            (#[trigger] entries[i]).previous_entry_digest,
        ) == Some(sha256_hex(entries[i - 1].material())) by {
            assert(entry_valid_at(entries, i));
        }
        assert forall|j: int, i: int| 0 <= j < i < entries.len() implies (
        #[trigger] entries[j]).record_digest@ != (#[trigger] entries[i]).record_digest@ by {
            assert(entry_valid_at(entries, i));
        }
    }
    if {
        &&& forall|i: int| 0 <= i < entries.len() ==> (#[trigger] entries[i]).index == i
        &&& entries.len() > 0 ==> entries[0].previous_entry_digest is None
        &&& forall|i: int|
            1 <= i < entries.len() ==> opt_view((#[trigger] entries[i]).previous_entry_digest)
                == Some(sha256_hex(entries[i - 1].material()))
        &&& forall|j: int, i: int|
            0 <= j < i < entries.len() ==> (#[trigger] entries[j]).record_digest@ != (
            #[trigger] entries[i]).record_digest@
    } {
        assert forall|i: int| 0 <= i < entries.len() implies #[trigger] entry_valid_at(entries, i) by {
            assert(entries[i].index == i);
            if i > 0 {
                assert(opt_view(entries[i].previous_entry_digest) == Some(
                    sha256_hex(entries[i - 1].material()),
                ));
            }
            assert forall|j: int| 0 <= j < i implies entries[j].record_digest@
                != entries[i].record_digest@ by {}
        }
    }
}

/// A journal refused for a repeated record digest names, as its first index,
/// the earliest entry recording that digest, before the repeating entry, and
/// reports the repeated digest.
pub proof fn lemma_duplicate_error_names_first_entry(
    entries: Seq<DecisionRunbookJournalEntry>,
    error: DecisionRunbookJournalError,
)
    requires
        chain_error(entries, error),
        error is DuplicateRecordDigest,
    ensures
        error matches DecisionRunbookJournalError::DuplicateRecordDigest {
            first_index,
            duplicate_index,
            record_digest,
        } ==> {
            &&& first_index < duplicate_index < entries.len()
            &&& entries[first_index as int].record_digest@ == entries[duplicate_index as int].record_digest@
            &&& record_digest == entries[duplicate_index as int].record_digest
            &&& forall|m: int|
                0 <= m < first_index ==> entries[m].record_digest@
                    != entries[duplicate_index as int].record_digest@
            &&& forall|j: int, i: int|
                0 <= j < i < duplicate_index ==> (#[trigger] entries[j]).record_digest@ != (
                #[trigger] entries[i]).record_digest@
        },
{
    let index = failure_index(error);
    assert forall|j: int, i: int| 0 <= j < i < index implies (
    #[trigger] entries[j]).record_digest@ != (#[trigger] entries[i]).record_digest@ by {
        assert(entry_valid_at(entries, i));
    }
}

} // verus!
