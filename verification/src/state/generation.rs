//! Generation state: the queue of image generation batches and text
//! suggestion requests, their progress, read markers and "ready" flags.
use vstd::prelude::*;
use crate::copy::{copy_opt_string, copy_string, copy_strings};
use crate::seqs::{find_key, lemma_find_key};
use crate::text::owned;

verus! {

/// Status of a generation batch.
pub enum BatchStatus {
    /// Waiting in the queue.
    Queued { position: u32 },
    /// Currently generating.
    Generating { progress: u8 },
    /// Ready for selection.
    Ready { asset_count: u32 },
    /// Generation failed.
    Failed { error: String },
}

/// Status of a suggestion request.
pub enum SuggestionStatus {
    /// Queued.
    Queued,
    /// Being processed.
    Processing,
    /// Ready with results.
    Ready { suggestions: Vec<String> },
    /// Failed.
    Failed { error: String },
}

/// The context a suggestion request was made with, kept for retries.
pub struct SuggestionContext {
    pub entity_type: Option<String>,
    pub entity_name: Option<String>,
    pub world_setting: Option<String>,
    pub hints: Option<String>,
    pub additional_context: Option<String>,
}

/// A generation batch in the queue (images).
pub struct GenerationBatch {
    pub batch_id: String,
    pub entity_type: String,
    pub entity_id: String,
    pub asset_type: String,
    pub status: BatchStatus,
    pub is_read: bool,
}

/// A suggestion task in the queue (text suggestions).
pub struct SuggestionTask {
    pub request_id: String,
    pub field_type: String,
    pub entity_id: Option<String>,
    pub status: SuggestionStatus,
    pub is_read: bool,
    /// The context the request was made with, kept for retries.
    pub context: Option<SuggestionContext>,
    /// World ID for routing (needed for retries).
    pub world_id: Option<String>,
}

// ---------------------------------------------------------------------------
// Copies
// ---------------------------------------------------------------------------

/// Two suggestion statuses agree (suggestion lists compared by their strings).
pub open spec fn status_eqv(a: SuggestionStatus, b: SuggestionStatus) -> bool {
    match (a, b) {
        (SuggestionStatus::Ready { suggestions: x }, SuggestionStatus::Ready { suggestions: y }) => x@
            == y@,
        (SuggestionStatus::Ready { .. }, _) => false,
        (_, SuggestionStatus::Ready { .. }) => false,
        _ => a == b,
    }
}

/// Two suggestion tasks agree field by field.
pub open spec fn task_eqv(a: SuggestionTask, b: SuggestionTask) -> bool {
    &&& a.request_id == b.request_id
    &&& a.field_type == b.field_type
    &&& a.entity_id == b.entity_id
    &&& status_eqv(a.status, b.status)
    &&& a.is_read == b.is_read
    &&& a.context == b.context
    &&& a.world_id == b.world_id
}

/// Two sequences of suggestion tasks agree element by element.
pub open spec fn tasks_eqv(a: Seq<SuggestionTask>, b: Seq<SuggestionTask>) -> bool {
    a.len() == b.len() && forall|i: int| 0 <= i < a.len() ==> task_eqv(#[trigger] a[i], b[i])
}

/// An exact copy of a batch status.
pub fn copy_batch_status(s: &BatchStatus) -> (r: BatchStatus)
    ensures
        r == *s,
{
    match s {
        BatchStatus::Queued { position } => BatchStatus::Queued { position: *position },
        BatchStatus::Generating { progress } => BatchStatus::Generating { progress: *progress },
        BatchStatus::Ready { asset_count } => BatchStatus::Ready { asset_count: *asset_count },
        BatchStatus::Failed { error } => BatchStatus::Failed { error: copy_string(error) },
    }
}

/// An exact copy of a batch.
pub fn copy_batch(b: &GenerationBatch) -> (r: GenerationBatch)
    ensures
        r == *b,
{
    GenerationBatch {
        batch_id: copy_string(&b.batch_id),
        entity_type: copy_string(&b.entity_type),
        entity_id: copy_string(&b.entity_id),
        asset_type: copy_string(&b.asset_type),
        status: copy_batch_status(&b.status),
        is_read: b.is_read,
    }
}

/// A copy of a suggestion status.
pub fn copy_suggestion_status(s: &SuggestionStatus) -> (r: SuggestionStatus)
    ensures
        status_eqv(r, *s),
{
    match s {
        SuggestionStatus::Queued => SuggestionStatus::Queued,
        SuggestionStatus::Processing => SuggestionStatus::Processing,
        SuggestionStatus::Ready { suggestions } => SuggestionStatus::Ready {
            suggestions: copy_strings(suggestions),
        },
        SuggestionStatus::Failed { error } => SuggestionStatus::Failed { error: copy_string(error) },
    }
}

/// An exact copy of a suggestion context.
pub fn copy_context(c: &SuggestionContext) -> (r: SuggestionContext)
    ensures
        r == *c,
{
    SuggestionContext {
        entity_type: copy_opt_string(&c.entity_type),
        entity_name: copy_opt_string(&c.entity_name),
        world_setting: copy_opt_string(&c.world_setting),
        hints: copy_opt_string(&c.hints),
        additional_context: copy_opt_string(&c.additional_context),
    }
}

/// A copy of a suggestion task.
pub fn copy_task(t: &SuggestionTask) -> (r: SuggestionTask)
    ensures
        task_eqv(r, *t),
{
    SuggestionTask {
        request_id: copy_string(&t.request_id),
        field_type: copy_string(&t.field_type),
        entity_id: copy_opt_string(&t.entity_id),
        status: copy_suggestion_status(&t.status),
        is_read: t.is_read,
        context: match &t.context {
            Some(c) => Some(copy_context(c)),
            None => None,
        },
        world_id: copy_opt_string(&t.world_id),
    }
}

// ---------------------------------------------------------------------------
// The model
// ---------------------------------------------------------------------------

/// The batch IDs of `s`, in order.
pub open spec fn batch_ids(s: Seq<GenerationBatch>) -> Seq<Seq<char>> {
    s.map_values(|b: GenerationBatch| b.batch_id@)
}

/// The request IDs of `s`, in order.
pub open spec fn request_ids(s: Seq<SuggestionTask>) -> Seq<Seq<char>> {
    s.map_values(|t: SuggestionTask| t.request_id@)
}

/// Some batch of `s` is ready.
pub open spec fn any_ready_batch(s: Seq<GenerationBatch>) -> bool {
    exists|i: int| 0 <= i < s.len() && (#[trigger] s[i]).status is Ready
}

/// Some task of `s` is ready.
pub open spec fn any_ready_task(s: Seq<SuggestionTask>) -> bool {
    exists|i: int| 0 <= i < s.len() && (#[trigger] s[i]).status is Ready
}

/// A batch is queued or generating.
pub open spec fn batch_is_active(b: GenerationBatch) -> bool {
    b.status is Queued || b.status is Generating
}

/// A task is queued or processing.
pub open spec fn task_is_active(t: SuggestionTask) -> bool {
    t.status is Queued || t.status is Processing
}

/// A batch with another ID than `id`.
pub open spec fn not_batch(id: Seq<char>) -> spec_fn(GenerationBatch) -> bool {
    |b: GenerationBatch| b.batch_id@ != id
}

/// A task with another ID than `id`.
pub open spec fn not_task(id: Seq<char>) -> spec_fn(SuggestionTask) -> bool {
    |t: SuggestionTask| t.request_id@ != id
}

/// The abstract state: both queues and the two "ready" flags.
pub struct GenerationModel {
    pub batches: Seq<GenerationBatch>,
    pub suggestions: Seq<SuggestionTask>,
    pub ready_batches: bool,
    pub ready_suggestions: bool,
}

impl GenerationModel {
    /// The empty state.
    pub open spec fn empty() -> GenerationModel {
        GenerationModel {
            batches: Seq::empty(),
            suggestions: Seq::empty(),
            ready_batches: false,
            ready_suggestions: false,
        }
    }

    /// The "ready" flags say whether some batch and some task are ready.
    pub open spec fn flags_agree(self) -> bool {
        &&& self.ready_batches == any_ready_batch(self.batches)
        &&& self.ready_suggestions == any_ready_task(self.suggestions)
    }

    /// Both flags set from the queues.
    pub open spec fn recompute(self) -> GenerationModel {
        GenerationModel {
            batches: self.batches,
            suggestions: self.suggestions,
            ready_batches: any_ready_batch(self.batches),
            ready_suggestions: any_ready_task(self.suggestions),
        }
    }

    /// The queues with new batches, flags kept.
    pub open spec fn with_batches(self, batches: Seq<GenerationBatch>) -> GenerationModel {
        GenerationModel {
            batches,
            suggestions: self.suggestions,
            ready_batches: self.ready_batches,
            ready_suggestions: self.ready_suggestions,
        }
    }

    /// The queues with new suggestions, flags kept.
    pub open spec fn with_suggestions(self, suggestions: Seq<SuggestionTask>) -> GenerationModel {
        GenerationModel {
            batches: self.batches,
            suggestions,
            ready_batches: self.ready_batches,
            ready_suggestions: self.ready_suggestions,
        }
    }

    /// `add_batch`: append, then set the flags.
    pub open spec fn add_batch(self, b: GenerationBatch) -> GenerationModel {
        self.with_batches(self.batches.push(b)).recompute()
    }

    /// `batch_queued`: a batch whose ID is already queued goes back to
    /// `Queued` at the given position; an unknown one is appended; either way
    /// the flags are set afterwards.
    pub open spec fn queue_batch(self, b: GenerationBatch) -> GenerationModel {
        if find_key(batch_ids(self.batches), b.batch_id@) is Some {
            self.set_batch_status(b.batch_id@, b.status).recompute()
        } else {
            self.add_batch(b)
        }
    }

    /// The first batch with ID `id` gets status `st`; nothing else changes.
    pub open spec fn set_batch_status(self, id: Seq<char>, st: BatchStatus) -> GenerationModel {
        match find_key(batch_ids(self.batches), id) {
            Some(i) => self.with_batches(
                self.batches.update(
                    i,
                    GenerationBatch {
                        batch_id: self.batches[i].batch_id,
                        entity_type: self.batches[i].entity_type,
                        entity_id: self.batches[i].entity_id,
                        asset_type: self.batches[i].asset_type,
                        status: st,
                        is_read: self.batches[i].is_read,
                    },
                ),
            ),
            None => self,
        }
    }

    /// The first batch with ID `id` is marked read.
    pub open spec fn mark_batch_read(self, id: Seq<char>) -> GenerationModel {
        match find_key(batch_ids(self.batches), id) {
            Some(i) => self.with_batches(
                self.batches.update(
                    i,
                    GenerationBatch {
                        batch_id: self.batches[i].batch_id,
                        entity_type: self.batches[i].entity_type,
                        entity_id: self.batches[i].entity_id,
                        asset_type: self.batches[i].asset_type,
                        status: self.batches[i].status,
                        is_read: true,
                    },
                ),
            ),
            None => self,
        }
    }

    /// `remove_batch`: drop every batch with ID `id`, then set the flags.
    pub open spec fn remove_batch(self, id: Seq<char>) -> GenerationModel {
        self.with_batches(self.batches.filter(not_batch(id))).recompute()
    }

    /// `add_suggestion_task`: append, then set the flags.
    pub open spec fn add_task(self, t: SuggestionTask) -> GenerationModel {
        self.with_suggestions(self.suggestions.push(t)).recompute()
    }

    /// The first task with ID `id` gets status `st`; nothing else changes.
    pub open spec fn set_task_status(self, id: Seq<char>, st: SuggestionStatus) -> GenerationModel {
        match find_key(request_ids(self.suggestions), id) {
            Some(i) => self.with_suggestions(
                self.suggestions.update(
                    i,
                    SuggestionTask {
                        request_id: self.suggestions[i].request_id,
                        field_type: self.suggestions[i].field_type,
                        entity_id: self.suggestions[i].entity_id,
                        status: st,
                        is_read: self.suggestions[i].is_read,
                        context: self.suggestions[i].context,
                        world_id: self.suggestions[i].world_id,
                    },
                ),
            ),
            None => self,
        }
    }

    /// The first task with ID `id` is marked read.
    pub open spec fn mark_task_read(self, id: Seq<char>) -> GenerationModel {
        match find_key(request_ids(self.suggestions), id) {
            Some(i) => self.with_suggestions(
                self.suggestions.update(
                    i,
                    SuggestionTask {
                        request_id: self.suggestions[i].request_id,
                        field_type: self.suggestions[i].field_type,
                        entity_id: self.suggestions[i].entity_id,
                        status: self.suggestions[i].status,
                        is_read: true,
                        context: self.suggestions[i].context,
                        world_id: self.suggestions[i].world_id,
                    },
                ),
            ),
            None => self,
        }
    }

    /// `remove_suggestion`: drop every task with ID `id`, then set the flags.
    pub open spec fn remove_task(self, id: Seq<char>) -> GenerationModel {
        self.with_suggestions(self.suggestions.filter(not_task(id))).recompute()
    }
}

/// State for managing asset generation and suggestions.
pub struct GenerationState {
    batches: Vec<GenerationBatch>,
    suggestions: Vec<SuggestionTask>,
    has_ready_batches: bool,
    has_ready_suggestions: bool,
}

impl View for GenerationState {
    type V = GenerationModel;

    closed spec fn view(&self) -> GenerationModel {
        GenerationModel {
            batches: self.batches@,
            suggestions: self.suggestions@,
            ready_batches: self.has_ready_batches,
            ready_suggestions: self.has_ready_suggestions,
        }
    }
}

impl GenerationState {
    /// An empty generation state.
    pub fn new() -> (r: GenerationState)
        ensures
            r@ == GenerationModel::empty(),
            r@.flags_agree(),
    {
        GenerationState {
            batches: Vec::new(),
            suggestions: Vec::new(),
            has_ready_batches: false,
            has_ready_suggestions: false,
        }
    }

    /// Index of the first batch with ID `id`.
    fn find_batch(&self, id: &String) -> (r: Option<usize>)
        ensures
            match r {
                Some(i) => find_key(batch_ids(self@.batches), id@) == Some(i as int) && i
                    < self@.batches.len(),
                None => find_key(batch_ids(self@.batches), id@) is None,
            },
    {
        let ghost keys = batch_ids(self@.batches);
        let mut i: usize = 0;
        while i < self.batches.len()
            invariant
                i <= self.batches.len(),
                keys == batch_ids(self.batches@),
                find_key(keys, id@) == crate::seqs::find_from(keys, id@, i as int),
            decreases self.batches.len() - i,
        {
            if self.batches[i].batch_id == *id {
                return Some(i);
            }
            i = i + 1;
        }
        None
    }

    /// Index of the first task with ID `id`.
    fn find_task(&self, id: &String) -> (r: Option<usize>)
        ensures
            match r {
                Some(i) => find_key(request_ids(self@.suggestions), id@) == Some(i as int) && i
                    < self@.suggestions.len(),
                None => find_key(request_ids(self@.suggestions), id@) is None,
            },
    {
        let ghost keys = request_ids(self@.suggestions);
        let mut i: usize = 0;
        while i < self.suggestions.len()
            invariant
                i <= self.suggestions.len(),
                keys == request_ids(self.suggestions@),
                find_key(keys, id@) == crate::seqs::find_from(keys, id@, i as int),
            decreases self.suggestions.len() - i,
        {
            if self.suggestions[i].request_id == *id {
                return Some(i);
            }
            i = i + 1;
        }
        None
    }

    /// Sets both "ready" flags from the queues.
    fn update_ready_flag(&mut self)
        ensures
            final(self)@ == old(self)@.recompute(),
    {
        let mut any = false;
        let mut i: usize = 0;
        while i < self.batches.len()
            invariant
                i <= self.batches.len(),
                any == exists|k: int| 0 <= k < i && (#[trigger] self.batches@[k]).status is Ready,
            decreases self.batches.len() - i,
        {
            if let BatchStatus::Ready { .. } = self.batches[i].status {
                any = true;
            }
            i = i + 1;
        }
        self.has_ready_batches = any;
        let mut any_s = false;
        let mut j: usize = 0;
        while j < self.suggestions.len()
            invariant
                j <= self.suggestions.len(),
                any_s == exists|k: int|
                    0 <= k < j && (#[trigger] self.suggestions@[k]).status is Ready,
            decreases self.suggestions.len() - j,
        {
            if let SuggestionStatus::Ready { .. } = self.suggestions[j].status {
                any_s = true;
            }
            j = j + 1;
        }
        self.has_ready_suggestions = any_s;
    }

    /// Adds a new batch to the queue.
    pub fn add_batch(&mut self, batch: GenerationBatch)
        ensures
            final(self)@ == old(self)@.add_batch(batch),
            final(self)@.flags_agree(),
    {
        self.batches.push(batch);
        self.update_ready_flag();
    }

    /// Records a queued batch: a batch already in the queue with that ID goes
    /// back to `Queued` at the given position (its other fields kept); an
    /// unknown one is appended, unread; either way the flags are set
    /// afterwards. Batch IDs that were all different stay so.
    pub fn batch_queued(
        &mut self,
        batch_id: String,
        entity_type: String,
        entity_id: String,
        asset_type: String,
        position: u32,
    )
        ensures
            final(self)@ == old(self)@.queue_batch(
                GenerationBatch {
                    batch_id,
                    entity_type,
                    entity_id,
                    asset_type,
                    status: BatchStatus::Queued { position },
                    is_read: false,
                },
            ),
            final(self)@.flags_agree(),
            batch_ids(old(self)@.batches).no_duplicates() ==> batch_ids(final(self)@.batches).no_duplicates(),
    {
        proof {
            lemma_queue_batch_unique(
                self@,
                GenerationBatch {
                    batch_id,
                    entity_type,
                    entity_id,
                    asset_type,
                    status: BatchStatus::Queued { position },
                    is_read: false,
                },
            );
        }
        match self.find_batch(&batch_id) {
            Some(i) => {
                self.batches[i].status = BatchStatus::Queued { position };
                assert(self@.batches =~= old(self)@.set_batch_status(
                    batch_id@,
                    BatchStatus::Queued { position },
                ).batches);
                self.update_ready_flag();
            },
            None => {
                let batch = GenerationBatch {
                    batch_id,
                    entity_type,
                    entity_id,
                    asset_type,
                    status: BatchStatus::Queued { position },
                    is_read: false,
                };
                self.add_batch(batch);
            },
        }
    }

    /// Gives the first batch with ID `batch_id` a new status.
    fn set_batch_status(&mut self, batch_id: &str, status: BatchStatus)
        ensures
            final(self)@ == old(self)@.set_batch_status(batch_id@, status),
    {
        let key = owned(batch_id);
        match self.find_batch(&key) {
            Some(i) => {
                self.batches[i].status = status;
                assert(self@.batches =~= old(self)@.set_batch_status(batch_id@, status).batches);
            },
            None => {},
        }
    }

    /// Updates batch progress, then sets the flags.
    pub fn batch_progress(&mut self, batch_id: &str, progress: u8)
        ensures
            final(self)@ == old(self)@.set_batch_status(
                batch_id@,
                BatchStatus::Generating { progress },
            ).recompute(),
            final(self)@.flags_agree(),
    {
        self.set_batch_status(batch_id, BatchStatus::Generating { progress });
        self.update_ready_flag();
    }

    /// Marks a batch as complete, then sets the flags.
    pub fn batch_complete(&mut self, batch_id: &str, asset_count: u32)
        ensures
            final(self)@ == old(self)@.set_batch_status(
                batch_id@,
                BatchStatus::Ready { asset_count },
            ).recompute(),
            final(self)@.flags_agree(),
    {
        self.set_batch_status(batch_id, BatchStatus::Ready { asset_count });
        self.update_ready_flag();
    }

    /// Marks a batch as failed, then sets the flags.
    pub fn batch_failed(&mut self, batch_id: &str, error: String)
        ensures
            final(self)@ == old(self)@.set_batch_status(
                batch_id@,
                BatchStatus::Failed { error },
            ).recompute(),
            final(self)@.flags_agree(),
    {
        self.set_batch_status(batch_id, BatchStatus::Failed { error });
        self.update_ready_flag();
    }

    /// Removes every batch with ID `batch_id`, then sets the flags.
    pub fn remove_batch(&mut self, batch_id: &str)
        ensures
            final(self)@ == old(self)@.remove_batch(batch_id@),
            final(self)@.flags_agree(),
    {
        let key = owned(batch_id);
        let ghost pred = not_batch(batch_id@);
        let mut old_batches: Vec<GenerationBatch> = Vec::new();
        std::mem::swap(&mut old_batches, &mut self.batches);
        let ghost orig = old_batches@;
        let mut kept: Vec<GenerationBatch> = Vec::new();
        proof {
            reveal_with_fuel(Seq::<_>::filter, 1);
            assert(orig.take(0) =~= Seq::<GenerationBatch>::empty());
        }
        for b in it: old_batches
            invariant
                forall|b: GenerationBatch| #[trigger] pred(b) == (b.batch_id@ != batch_id@),
                it.seq() == orig,
                kept@ == orig.take(it.index() as int).filter(pred),
                key@ == batch_id@,
        {
            proof {
                crate::seqs::lemma_filter_step(orig, it.index() as int, pred);
            }
            if b.batch_id != key {
                kept.push(b);
            }
        }
        assert(orig.take(orig.len() as int) =~= orig);
        self.batches = kept;
        self.update_ready_flag();
    }

    /// A copy of all batches.
    pub fn get_batches(&self) -> (r: Vec<GenerationBatch>)
        ensures
            r@ == self@.batches,
    {
        let mut r: Vec<GenerationBatch> = Vec::new();
        let mut i: usize = 0;
        while i < self.batches.len()
            invariant
                i <= self.batches.len(),
                r@ =~= self.batches@.take(i as int),
            decreases self.batches.len() - i,
        {
            r.push(copy_batch(&self.batches[i]));
            i = i + 1;
        }
        assert(self.batches@.take(self.batches.len() as int) =~= self.batches@);
        r
    }

    /// Copies of the batches for one entity, in queue order.
    pub fn get_batches_for_entity(&self, entity_type: &str, entity_id: &str) -> (r: Vec<
        GenerationBatch,
    >)
        ensures
            r@ == self@.batches.filter(
                |b: GenerationBatch| b.entity_type@ == entity_type@ && b.entity_id@ == entity_id@,
            ),
    {
        let ty = owned(entity_type);
        let id = owned(entity_id);
        let ghost pred = |b: GenerationBatch|
            b.entity_type@ == entity_type@ && b.entity_id@ == entity_id@;
        let mut r: Vec<GenerationBatch> = Vec::new();
        let mut i: usize = 0;
        proof {
            reveal_with_fuel(Seq::<_>::filter, 1);
        }
        assert(self.batches@.take(0) =~= Seq::<GenerationBatch>::empty());
        while i < self.batches.len()
            invariant
                forall|b: GenerationBatch| #[trigger] pred(b) == (b.entity_type@ == entity_type@ && b.entity_id@ == entity_id@),
                i <= self.batches.len(),
                ty@ == entity_type@,
                id@ == entity_id@,
                r@ == self.batches@.take(i as int).filter(pred),
            decreases self.batches.len() - i,
        {
            proof {
                crate::seqs::lemma_filter_step(self.batches@, i as int, pred);
            }
            if self.batches[i].entity_type == ty && self.batches[i].entity_id == id {
                r.push(copy_batch(&self.batches[i]));
            }
            i = i + 1;
        }
        assert(self.batches@.take(self.batches.len() as int) =~= self.batches@);
        r
    }

    /// Copies of the ready batches, in queue order.
    pub fn get_ready_batches(&self) -> (r: Vec<GenerationBatch>)
        ensures
            r@ == self@.batches.filter(|b: GenerationBatch| b.status is Ready),
    {
        let ghost pred = |b: GenerationBatch| b.status is Ready;
        let mut r: Vec<GenerationBatch> = Vec::new();
        let mut i: usize = 0;
        proof {
            reveal_with_fuel(Seq::<_>::filter, 1);
        }
        assert(self.batches@.take(0) =~= Seq::<GenerationBatch>::empty());
        while i < self.batches.len()
            invariant
                forall|b: GenerationBatch| #[trigger] pred(b) == (b.status is Ready),
                i <= self.batches.len(),
                r@ == self.batches@.take(i as int).filter(pred),
            decreases self.batches.len() - i,
        {
            proof {
                crate::seqs::lemma_filter_step(self.batches@, i as int, pred);
            }
            if let BatchStatus::Ready { .. } = self.batches[i].status {
                r.push(copy_batch(&self.batches[i]));
            }
            i = i + 1;
        }
        assert(self.batches@.take(self.batches.len() as int) =~= self.batches@);
        r
    }

    /// Whether some batch is ready. Read from the queue itself, so it is
    /// exact in every state; it equals the "ready batches" flag, which every
    /// operation keeps in agreement with the queue.
    pub fn has_ready(&self) -> (r: bool)
        ensures
            r <==> any_ready_batch(self@.batches),
            self@.flags_agree() ==> r == self@.ready_batches,
    {
        let mut i: usize = 0;
        while i < self.batches.len()
            invariant
                i <= self.batches.len(),
                forall|k: int| 0 <= k < i ==> !((#[trigger] self.batches@[k]).status is Ready),
            decreases self.batches.len() - i,
        {
            if let BatchStatus::Ready { .. } = self.batches[i].status {
                return true;
            }
            i = i + 1;
        }
        false
    }

    /// The number of queued or generating batches.
    pub fn active_count(&self) -> (r: usize)
        ensures
            r == self@.batches.filter(|b: GenerationBatch| batch_is_active(b)).len(),
    {
        let ghost pred = |b: GenerationBatch| batch_is_active(b);
        let mut n: usize = 0;
        let mut i: usize = 0;
        proof {
            reveal_with_fuel(Seq::<_>::filter, 1);
        }
        assert(self.batches@.take(0) =~= Seq::<GenerationBatch>::empty());
        while i < self.batches.len()
            invariant
                forall|b: GenerationBatch| #[trigger] pred(b) == (batch_is_active(b)),
                i <= self.batches.len(),
                n == self.batches@.take(i as int).filter(pred).len(),
                n <= i,
            decreases self.batches.len() - i,
        {
            proof {
                crate::seqs::lemma_filter_step(self.batches@, i as int, pred);
            }
            match self.batches[i].status {
                BatchStatus::Queued { .. } | BatchStatus::Generating { .. } => {
                    n = n + 1;
                },
                _ => {},
            }
            i = i + 1;
        }
        assert(self.batches@.take(self.batches.len() as int) =~= self.batches@);
        n
    }

    // ========== Suggestion methods ==========

    /// Adds a new (queued, unread) suggestion task, then sets the flags.
    pub fn add_suggestion_task(
        &mut self,
        request_id: String,
        field_type: String,
        entity_id: Option<String>,
        context: Option<SuggestionContext>,
        world_id: Option<String>,
    )
        ensures
            final(self)@ == old(self)@.add_task(
                SuggestionTask {
                    request_id,
                    field_type,
                    entity_id,
                    status: SuggestionStatus::Queued,
                    is_read: false,
                    context,
                    world_id,
                },
            ),
            final(self)@.flags_agree(),
    {
        let task = SuggestionTask {
            request_id,
            field_type,
            entity_id,
            status: SuggestionStatus::Queued,
            is_read: false,
            context,
            world_id,
        };
        self.suggestions.push(task);
        self.update_ready_flag();
    }

    /// Gives the first task with ID `request_id` a new status.
    fn set_task_status(&mut self, request_id: &str, status: SuggestionStatus) -> (found: bool)
        ensures
            final(self)@ == old(self)@.set_task_status(request_id@, status),
            found == find_key(request_ids(old(self)@.suggestions), request_id@) is Some,
    {
        let key = owned(request_id);
        match self.find_task(&key) {
            Some(i) => {
                self.suggestions[i].status = status;
                assert(self@.suggestions =~= old(self)@.set_task_status(
                    request_id@,
                    status,
                ).suggestions);
                true
            },
            None => false,
        }
    }

    /// A queued event from the server: the known task (first with this ID)
    /// goes back to `Queued`; an unknown one is added as a new queued task
    /// without context or world; either way the flags are set afterwards.
    pub fn suggestion_queued(&mut self, request_id: String, field_type: String, entity_id: Option<
        String,
    >)
        ensures
            final(self)@ == (if find_key(request_ids(old(self)@.suggestions), request_id@) is Some {
                old(self)@.set_task_status(request_id@, SuggestionStatus::Queued).recompute()
            } else {
                old(self)@.add_task(
                    SuggestionTask {
                        request_id,
                        field_type,
                        entity_id,
                        status: SuggestionStatus::Queued,
                        is_read: false,
                        context: None,
                        world_id: None,
                    },
                )
            }),
            final(self)@.flags_agree(),
    {
        match self.find_task(&request_id) {
            Some(i) => {
                self.suggestions[i].status = SuggestionStatus::Queued;
                assert(self@.suggestions =~= old(self)@.set_task_status(
                    request_id@,
                    SuggestionStatus::Queued,
                ).suggestions);
                self.update_ready_flag();
            },
            None => {
                self.suggestions.push(
                    SuggestionTask {
                        request_id,
                        field_type,
                        entity_id,
                        status: SuggestionStatus::Queued,
                        is_read: false,
                        context: None,
                        world_id: None,
                    },
                );
                self.update_ready_flag();
            },
        }
    }

    /// Marks the task as processing (the status text is not kept), then
    /// sets the flags.
    pub fn suggestion_progress(&mut self, request_id: &str, status: &str)
        ensures
            final(self)@ == old(self)@.set_task_status(
                request_id@,
                SuggestionStatus::Processing,
            ).recompute(),
            final(self)@.flags_agree(),
    {
        self.set_task_status(request_id, SuggestionStatus::Processing);
        self.update_ready_flag();
    }

    /// Marks the task as ready with its suggestions, then sets the flags.
    pub fn suggestion_complete(&mut self, request_id: &str, suggestions: Vec<String>)
        ensures
            final(self)@ == old(self)@.set_task_status(
                request_id@,
                SuggestionStatus::Ready { suggestions },
            ).recompute(),
            final(self)@.flags_agree(),
    {
        self.set_task_status(request_id, SuggestionStatus::Ready { suggestions });
        self.update_ready_flag();
    }

    /// Marks the task as failed, then sets the flags.
    pub fn suggestion_failed(&mut self, request_id: &str, error: String)
        ensures
            final(self)@ == old(self)@.set_task_status(
                request_id@,
                SuggestionStatus::Failed { error },
            ).recompute(),
            final(self)@.flags_agree(),
    {
        self.set_task_status(request_id, SuggestionStatus::Failed { error });
        self.update_ready_flag();
    }

    /// Removes every task with ID `request_id`, then sets the flags.
    pub fn remove_suggestion(&mut self, request_id: &str)
        ensures
            final(self)@ == old(self)@.remove_task(request_id@),
            final(self)@.flags_agree(),
    {
        let key = owned(request_id);
        let ghost pred = not_task(request_id@);
        let mut old_tasks: Vec<SuggestionTask> = Vec::new();
        std::mem::swap(&mut old_tasks, &mut self.suggestions);
        let ghost orig = old_tasks@;
        let mut kept: Vec<SuggestionTask> = Vec::new();
        proof {
            reveal_with_fuel(Seq::<_>::filter, 1);
            assert(orig.take(0) =~= Seq::<SuggestionTask>::empty());
        }
        for t in it: old_tasks
            invariant
                forall|t: SuggestionTask| #[trigger] pred(t) == (t.request_id@ != request_id@),
                it.seq() == orig,
                kept@ == orig.take(it.index() as int).filter(pred),
                key@ == request_id@,
        {
            proof {
                crate::seqs::lemma_filter_step(orig, it.index() as int, pred);
            }
            if t.request_id != key {
                kept.push(t);
            }
        }
        assert(orig.take(orig.len() as int) =~= orig);
        self.suggestions = kept;
        self.update_ready_flag();
    }

    /// Copies of all suggestion tasks.
    pub fn get_suggestions(&self) -> (r: Vec<SuggestionTask>)
        ensures
            tasks_eqv(r@, self@.suggestions),
    {
        let mut r: Vec<SuggestionTask> = Vec::new();
        let mut i: usize = 0;
        while i < self.suggestions.len()
            invariant
                i <= self.suggestions.len(),
                tasks_eqv(r@, self.suggestions@.take(i as int)),
            decreases self.suggestions.len() - i,
        {
            r.push(copy_task(&self.suggestions[i]));
            i = i + 1;
        }
        assert(self.suggestions@.take(self.suggestions.len() as int) =~= self.suggestions@);
        r
    }

    /// Copies of the ready suggestion tasks, in queue order.
    pub fn get_ready_suggestions(&self) -> (r: Vec<SuggestionTask>)
        ensures
            tasks_eqv(r@, self@.suggestions.filter(|t: SuggestionTask| t.status is Ready)),
    {
        let ghost pred = |t: SuggestionTask| t.status is Ready;
        let mut r: Vec<SuggestionTask> = Vec::new();
        let mut i: usize = 0;
        proof {
            reveal_with_fuel(Seq::<_>::filter, 1);
        }
        assert(self.suggestions@.take(0) =~= Seq::<SuggestionTask>::empty());
        while i < self.suggestions.len()
            invariant
                forall|t: SuggestionTask| #[trigger] pred(t) == (t.status is Ready),
                i <= self.suggestions.len(),
                tasks_eqv(r@, self.suggestions@.take(i as int).filter(pred)),
            decreases self.suggestions.len() - i,
        {
            proof {
                crate::seqs::lemma_filter_step(self.suggestions@, i as int, pred);
            }
            if let SuggestionStatus::Ready { .. } = self.suggestions[i].status {
                r.push(copy_task(&self.suggestions[i]));
            }
            i = i + 1;
        }
        assert(self.suggestions@.take(self.suggestions.len() as int) =~= self.suggestions@);
        r
    }

    /// Whether some task is ready. Read from the queue itself, so it is exact
    /// in every state; it equals the "ready suggestions" flag, which every
    /// operation keeps in agreement with the queue.
    pub fn has_ready_suggestions(&self) -> (r: bool)
        ensures
            r <==> any_ready_task(self@.suggestions),
            self@.flags_agree() ==> r == self@.ready_suggestions,
    {
        let mut i: usize = 0;
        while i < self.suggestions.len()
            invariant
                i <= self.suggestions.len(),
                forall|k: int| 0 <= k < i ==> !((#[trigger] self.suggestions@[k]).status is Ready),
            decreases self.suggestions.len() - i,
        {
            if let SuggestionStatus::Ready { .. } = self.suggestions[i].status {
                return true;
            }
            i = i + 1;
        }
        false
    }

    /// The number of queued or processing tasks.
    pub fn active_suggestion_count(&self) -> (r: usize)
        ensures
            r == self@.suggestions.filter(|t: SuggestionTask| task_is_active(t)).len(),
    {
        let ghost pred = |t: SuggestionTask| task_is_active(t);
        let mut n: usize = 0;
        let mut i: usize = 0;
        proof {
            reveal_with_fuel(Seq::<_>::filter, 1);
        }
        assert(self.suggestions@.take(0) =~= Seq::<SuggestionTask>::empty());
        while i < self.suggestions.len()
            invariant
                forall|t: SuggestionTask| #[trigger] pred(t) == (task_is_active(t)),
                i <= self.suggestions.len(),
                n == self.suggestions@.take(i as int).filter(pred).len(),
                n <= i,
            decreases self.suggestions.len() - i,
        {
            proof {
                crate::seqs::lemma_filter_step(self.suggestions@, i as int, pred);
            }
            match self.suggestions[i].status {
                SuggestionStatus::Queued | SuggestionStatus::Processing => {
                    n = n + 1;
                },
                _ => {},
            }
            i = i + 1;
        }
        assert(self.suggestions@.take(self.suggestions.len() as int) =~= self.suggestions@);
        n
    }

    /// Marks the first batch with ID `batch_id` as read.
    pub fn mark_batch_read(&mut self, batch_id: &str)
        ensures
            final(self)@ == old(self)@.mark_batch_read(batch_id@),
            old(self)@.flags_agree() ==> final(self)@.flags_agree(),
    {
        proof {
            lemma_marking_keeps_flags(old(self)@, batch_id@);
        }
        let key = owned(batch_id);
        match self.find_batch(&key) {
            Some(i) => {
                self.batches[i].is_read = true;
                assert(self@.batches =~= old(self)@.mark_batch_read(batch_id@).batches);
            },
            None => {},
        }
    }

    /// Marks the first task with ID `request_id` as read.
    pub fn mark_suggestion_read(&mut self, request_id: &str)
        ensures
            final(self)@ == old(self)@.mark_task_read(request_id@),
            old(self)@.flags_agree() ==> final(self)@.flags_agree(),
    {
        proof {
            lemma_marking_keeps_flags(old(self)@, request_id@);
        }
        let key = owned(request_id);
        match self.find_task(&key) {
            Some(i) => {
                self.suggestions[i].is_read = true;
                assert(self@.suggestions =~= old(self)@.mark_task_read(request_id@).suggestions);
            },
            None => {},
        }
    }

    /// Clears all batches and suggestions.
    pub fn clear(&mut self)
        ensures
            final(self)@ == GenerationModel::empty(),
            final(self)@.flags_agree(),
    {
        self.batches = Vec::new();
        self.suggestions = Vec::new();
        self.has_ready_batches = false;
        self.has_ready_suggestions = false;
    }
}

impl Default for GenerationState {
    fn default() -> (r: GenerationState)
        ensures
            r@ == GenerationModel::empty(),
            r@.flags_agree(),
    {
        GenerationState::new()
    }
}

// ---------------------------------------------------------------------------
// Laws
// ---------------------------------------------------------------------------

/// Completing a batch that is in the queue makes "ready batches" true.
pub proof fn law_complete_sets_ready(m: GenerationModel, id: Seq<char>, count: u32)
    requires
        batch_ids(m.batches).contains(id),
    ensures
        m.set_batch_status(id, BatchStatus::Ready { asset_count: count }).recompute().ready_batches,
{
    crate::seqs::lemma_find_key_contains(batch_ids(m.batches), id);
    let i = find_key(batch_ids(m.batches), id)->0;
    lemma_find_key(batch_ids(m.batches), id);
    let after = m.set_batch_status(id, BatchStatus::Ready { asset_count: count });
    assert(after.batches[i].status is Ready);
}

/// Completing a queued suggestion makes "ready suggestions" true.
pub proof fn law_suggestion_complete_sets_ready(
    m: GenerationModel,
    id: Seq<char>,
    suggestions: Vec<String>,
)
    requires
        request_ids(m.suggestions).contains(id),
    ensures
        m.set_task_status(id, SuggestionStatus::Ready { suggestions }).recompute().ready_suggestions,
{
    crate::seqs::lemma_find_key_contains(request_ids(m.suggestions), id);
    let i = find_key(request_ids(m.suggestions), id)->0;
    lemma_find_key(request_ids(m.suggestions), id);
    let after = m.set_task_status(id, SuggestionStatus::Ready { suggestions });
    assert(after.suggestions[i].status is Ready);
}

/// After `remove_batch(id)` no batch has that ID, and every other batch stays.
pub proof fn law_remove_batch(m: GenerationModel, id: Seq<char>)
    ensures
        !batch_ids(m.remove_batch(id).batches).contains(id),
        forall|b: GenerationBatch|
            m.batches.contains(b) && b.batch_id@ != id ==> m.remove_batch(id).batches.contains(b),
{
    let pred = not_batch(id);
    let kept = m.batches.filter(pred);
    broadcast use vstd::seq_lib::group_filter_ensures;
    if batch_ids(kept).contains(id) {
        let k = choose|k: int| 0 <= k < batch_ids(kept).len() && batch_ids(kept)[k] == id;
        assert(pred(kept[k]));
    }
    assert forall|b: GenerationBatch| m.batches.contains(b) && b.batch_id@ != id implies kept.contains(
        b,
    ) by {
        let j = choose|j: int| 0 <= j < m.batches.len() && m.batches[j] == b;
        m.batches.lemma_filter_contains(pred, j);
    }
}

/// After `remove_suggestion(id)` no task has that ID.
pub proof fn law_remove_suggestion(m: GenerationModel, id: Seq<char>)
    ensures
        !request_ids(m.remove_task(id).suggestions).contains(id),
{
    let pred = not_task(id);
    let kept = m.suggestions.filter(pred);
    broadcast use vstd::seq_lib::group_filter_ensures;
    if request_ids(kept).contains(id) {
        let k = choose|k: int| 0 <= k < request_ids(kept).len() && request_ids(kept)[k] == id;
        assert(pred(kept[k]));
    }
}

/// Marking a batch read twice is the same as marking it once, and afterwards
/// the first batch with that ID is read.
pub proof fn law_mark_batch_read(m: GenerationModel, id: Seq<char>)
    ensures
        m.mark_batch_read(id).mark_batch_read(id) == m.mark_batch_read(id),
        batch_ids(m.batches).contains(id) ==> m.mark_batch_read(id).batches[find_key(
            batch_ids(m.batches),
            id,
        )->0].is_read,
{
    lemma_find_key(batch_ids(m.batches), id);
    let once = m.mark_batch_read(id);
    assert(batch_ids(once.batches) =~= batch_ids(m.batches));
    if let Some(i) = find_key(batch_ids(m.batches), id) {
        assert(once.mark_batch_read(id).batches =~= once.batches);
    }
    crate::seqs::lemma_find_key_contains(batch_ids(m.batches), id);
}

/// Status changes and read markers never change the IDs in the queues.
pub proof fn law_status_keeps_ids(m: GenerationModel, id: Seq<char>, st: BatchStatus, tst: SuggestionStatus)
    ensures
        batch_ids(m.set_batch_status(id, st).batches) == batch_ids(m.batches),
        batch_ids(m.mark_batch_read(id).batches) == batch_ids(m.batches),
        request_ids(m.set_task_status(id, tst).suggestions) == request_ids(m.suggestions),
        request_ids(m.mark_task_read(id).suggestions) == request_ids(m.suggestions),
{
    lemma_find_key(batch_ids(m.batches), id);
    lemma_find_key(request_ids(m.suggestions), id);
    assert(batch_ids(m.set_batch_status(id, st).batches) =~= batch_ids(m.batches));
    assert(batch_ids(m.mark_batch_read(id).batches) =~= batch_ids(m.batches));
    assert(request_ids(m.set_task_status(id, tst).suggestions) =~= request_ids(m.suggestions));
    assert(request_ids(m.mark_task_read(id).suggestions) =~= request_ids(m.suggestions));
}

/// Every batch is active (queued or generating), ready, or failed: the three
/// counts add up to the queue length.
pub proof fn law_batch_partition(s: Seq<GenerationBatch>)
    ensures
        s.filter(|b: GenerationBatch| batch_is_active(b)).len() + s.filter(
            |b: GenerationBatch| b.status is Ready,
        ).len() + s.filter(|b: GenerationBatch| b.status is Failed).len() == s.len(),
    decreases s.len(),
{
    reveal_with_fuel(Seq::<_>::filter, 1);
    if s.len() > 0 {
        law_batch_partition(s.drop_last());
    }
}

/// Every task is active (queued or processing), ready, or failed: the three
/// counts add up to the queue length.
pub proof fn law_task_partition(s: Seq<SuggestionTask>)
    ensures
        s.filter(|t: SuggestionTask| task_is_active(t)).len() + s.filter(
            |t: SuggestionTask| t.status is Ready,
        ).len() + s.filter(|t: SuggestionTask| t.status is Failed).len() == s.len(),
    decreases s.len(),
{
    reveal_with_fuel(Seq::<_>::filter, 1);
    if s.len() > 0 {
        law_task_partition(s.drop_last());
    }
}


/// The "ready" flags agree with the queues after every operation that sets
/// them: adding or removing a batch or a task, and completing one.
pub proof fn law_flags_follow_queues(
    m: GenerationModel,
    b: GenerationBatch,
    t: SuggestionTask,
    id: Seq<char>,
    count: u32,
    suggestions: Vec<String>,
)
    ensures
        m.add_batch(b).ready_batches == any_ready_batch(m.add_batch(b).batches),
        m.add_batch(b).ready_suggestions == any_ready_task(m.add_batch(b).suggestions),
        m.add_task(t).ready_batches == any_ready_batch(m.add_task(t).batches),
        m.add_task(t).ready_suggestions == any_ready_task(m.add_task(t).suggestions),
        m.remove_batch(id).ready_batches == any_ready_batch(m.remove_batch(id).batches),
        m.remove_task(id).ready_suggestions == any_ready_task(m.remove_task(id).suggestions),
        ({
            let c = m.set_batch_status(id, BatchStatus::Ready { asset_count: count }).recompute();
            c.ready_batches == any_ready_batch(c.batches) && c.ready_suggestions == any_ready_task(
                c.suggestions,
            )
        }),
        ({
            let c = m.set_task_status(id, SuggestionStatus::Ready { suggestions }).recompute();
            c.ready_batches == any_ready_batch(c.batches) && c.ready_suggestions == any_ready_task(
                c.suggestions,
            )
        }),
{
}


/// Marking an item read changes no status, so the flags keep agreeing with
/// the queues.
pub proof fn lemma_marking_keeps_flags(m: GenerationModel, id: Seq<char>)
    ensures
        m.flags_agree() ==> m.mark_batch_read(id).flags_agree(),
        m.flags_agree() ==> m.mark_task_read(id).flags_agree(),
{
    lemma_find_key(batch_ids(m.batches), id);
    lemma_find_key(request_ids(m.suggestions), id);
    let a = m.mark_batch_read(id);
    assert(a.batches.len() == m.batches.len());
    assert(a.ready_batches == m.ready_batches && a.ready_suggestions == m.ready_suggestions);
    assert(a.suggestions == m.suggestions);
    assert forall|i: int| 0 <= i < a.batches.len() implies (#[trigger] a.batches[i]).status == m.batches[i].status by {}
    if any_ready_batch(m.batches) {
        let i = choose|i: int| 0 <= i < m.batches.len() && (#[trigger] m.batches[i]).status is Ready;
        assert(a.batches[i].status == m.batches[i].status);
    }
    if any_ready_batch(a.batches) {
        let i = choose|i: int| 0 <= i < a.batches.len() && (#[trigger] a.batches[i]).status is Ready;
        assert(a.batches[i].status == m.batches[i].status);
    }
    let b = m.mark_task_read(id);
    assert(b.suggestions.len() == m.suggestions.len());
    assert(b.ready_batches == m.ready_batches && b.ready_suggestions == m.ready_suggestions);
    assert(b.batches == m.batches);
    assert forall|i: int| 0 <= i < b.suggestions.len() implies (#[trigger] b.suggestions[i]).status == m.suggestions[i].status by {}
    if any_ready_task(m.suggestions) {
        let i = choose|i: int| 0 <= i < m.suggestions.len() && (#[trigger] m.suggestions[i]).status is Ready;
        assert(b.suggestions[i].status == m.suggestions[i].status);
    }
    if any_ready_task(b.suggestions) {
        let i = choose|i: int| 0 <= i < b.suggestions.len() && (#[trigger] b.suggestions[i]).status is Ready;
        assert(b.suggestions[i].status == m.suggestions[i].status);
    }
}

/// Removing a batch twice is the same as removing it once, and likewise for
/// a task.
pub proof fn law_remove_twice(m: GenerationModel, id: Seq<char>)
    ensures
        m.remove_batch(id).remove_batch(id) == m.remove_batch(id),
        m.remove_task(id).remove_task(id) == m.remove_task(id),
{
    let p = not_batch(id);
    let once = m.batches.filter(p);
    assert forall|i: int| 0 <= i < once.len() implies p(#[trigger] once[i]) by {
        m.batches.lemma_filter_pred(p, i);
    }
    lemma_filter_all_pass(once, p);
    let q = not_task(id);
    let once_t = m.suggestions.filter(q);
    assert forall|i: int| 0 <= i < once_t.len() implies q(#[trigger] once_t[i]) by {
        m.suggestions.lemma_filter_pred(q, i);
    }
    lemma_filter_all_pass(once_t, q);
}

/// Filtering a sequence whose elements all pass leaves it as it is.
proof fn lemma_filter_all_pass<A>(s: Seq<A>, p: spec_fn(A) -> bool)
    requires
        forall|i: int| 0 <= i < s.len() ==> p(#[trigger] s[i]),
    ensures
        s.filter(p) == s,
    decreases s.len(),
{
    reveal_with_fuel(Seq::<_>::filter, 1);
    if s.len() > 0 {
        assert forall|i: int| 0 <= i < s.drop_last().len() implies p(#[trigger] s.drop_last()[i]) by {
            assert(s.drop_last()[i] == s[i]);
        }
        lemma_filter_all_pass(s.drop_last(), p);
        assert(s.drop_last().push(s.last()) =~= s);
    } else {
        assert(s =~= Seq::<A>::empty());
    }
}

/// Queueing a batch keeps batch IDs all different.
pub proof fn lemma_queue_batch_unique(m: GenerationModel, b: GenerationBatch)
    ensures
        batch_ids(m.batches).no_duplicates() ==> batch_ids(m.queue_batch(b).batches).no_duplicates(),
{
    crate::seqs::lemma_find_key_contains(batch_ids(m.batches), b.batch_id@);
    let r = m.queue_batch(b);
    match find_key(batch_ids(m.batches), b.batch_id@) {
        Some(i) => {
            crate::seqs::lemma_find_key(batch_ids(m.batches), b.batch_id@);
            let u = m.set_batch_status(b.batch_id@, b.status);
            assert(u.batches.len() == m.batches.len());
            assert forall|k: int| 0 <= k < m.batches.len() implies #[trigger] u.batches[k].batch_id
                == m.batches[k].batch_id by {}
            assert(batch_ids(u.batches) =~= batch_ids(m.batches));
            assert(batch_ids(r.batches) =~= batch_ids(m.batches));
        },
        None => {
            assert(batch_ids(r.batches) =~= batch_ids(m.batches).push(b.batch_id@));
        },
    }
}

/// A re-queued batch is updated in place, not duplicated: queueing an ID
/// already in the queue keeps the queue's length and gives that batch the
/// new status; queueing a new ID appends one batch.
pub proof fn law_queue_batch(m: GenerationModel, b: GenerationBatch)
    ensures
        batch_ids(m.batches).contains(b.batch_id@) ==> {
            let i = find_key(batch_ids(m.batches), b.batch_id@)->0;
            &&& m.queue_batch(b).batches.len() == m.batches.len()
            &&& m.queue_batch(b).batches[i].status == b.status
        },
        !batch_ids(m.batches).contains(b.batch_id@) ==> m.queue_batch(b).batches == m.batches.push(b),
{
    crate::seqs::lemma_find_key_contains(batch_ids(m.batches), b.batch_id@);
    crate::seqs::lemma_find_key(batch_ids(m.batches), b.batch_id@);
}

/// `k` is the first position of `s` holding a batch with ID `id`.
pub open spec fn first_batch_at(s: Seq<GenerationBatch>, id: Seq<char>, k: int) -> bool {
    0 <= k < s.len() && s[k].batch_id@ == id && forall|j: int| 0 <= j < k ==> s[j].batch_id@ != id
}

/// `k` is the first position of `s` holding a task with ID `id`.
pub open spec fn first_task_at(s: Seq<SuggestionTask>, id: Seq<char>, k: int) -> bool {
    0 <= k < s.len() && s[k].request_id@ == id && forall|j: int| 0 <= j < k ==> s[j].request_id@ != id
}

/// `after` is `before` with only the first batch with ID `id` (if any) given
/// status `st`: same length, same order, every other field kept.
pub open spec fn batch_status_set(before: Seq<GenerationBatch>, after: Seq<GenerationBatch>, id: Seq<char>, st: BatchStatus) -> bool {
    &&& after.len() == before.len()
    &&& forall|k: int|
        0 <= k < before.len() ==> #[trigger] after[k] == (if first_batch_at(before, id, k) {
            GenerationBatch { status: st, ..before[k] }
        } else {
            before[k]
        })
}

/// `after` is `before` with only the first task with ID `id` (if any) given
/// status `st`.
pub open spec fn task_status_set(before: Seq<SuggestionTask>, after: Seq<SuggestionTask>, id: Seq<char>, st: SuggestionStatus) -> bool {
    &&& after.len() == before.len()
    &&& forall|k: int|
        0 <= k < before.len() ==> #[trigger] after[k] == (if first_task_at(before, id, k) {
            SuggestionTask { status: st, ..before[k] }
        } else {
            before[k]
        })
}

/// A status update reaches exactly the first batch with the ID: it takes the
/// new status and keeps its other fields, every other batch and all tasks
/// stay, and the ready flags then describe the queues.
pub proof fn law_batch_status_update(m: GenerationModel, id: Seq<char>, st: BatchStatus)
    ensures
        batch_status_set(m.batches, m.set_batch_status(id, st).recompute().batches, id, st),
        m.set_batch_status(id, st).recompute().suggestions == m.suggestions,
        m.set_batch_status(id, st).recompute().flags_agree(),
        (st is Ready && batch_ids(m.batches).contains(id)) ==> m.set_batch_status(id, st).recompute().ready_batches,
{
    let r = m.set_batch_status(id, st).recompute();
    lemma_find_key(batch_ids(m.batches), id);
    crate::seqs::lemma_find_key_contains(batch_ids(m.batches), id);
    assert forall|j: int| 0 <= j < m.batches.len() implies #[trigger] batch_ids(m.batches)[j]
        == m.batches[j].batch_id@ by {}
    assert forall|k: int| 0 <= k < m.batches.len() implies #[trigger] r.batches[k] == (if first_batch_at(m.batches, id, k) {
        GenerationBatch { status: st, ..m.batches[k] }
    } else {
        m.batches[k]
    }) by {
        match find_key(batch_ids(m.batches), id) {
            Some(i) => {
                assert forall|j: int| 0 <= j < i implies m.batches[j].batch_id@ != id by {
                    assert(batch_ids(m.batches)[j] != id);
                }
                assert(first_batch_at(m.batches, id, i));
                if first_batch_at(m.batches, id, k) && k != i {
                    if k < i {
                        assert(batch_ids(m.batches)[k] == id);
                    } else {
                        assert(m.batches[i].batch_id@ == batch_ids(m.batches)[i]);
                    }
                }
            },
            None => {
                if first_batch_at(m.batches, id, k) {
                    assert(batch_ids(m.batches)[k] == id);
                }
            },
        }
    }
    if st is Ready && batch_ids(m.batches).contains(id) {
        let i = find_key(batch_ids(m.batches), id)->0;
        assert(r.batches[i].status is Ready);
    }
}

/// A status update reaches exactly the first task with the ID, in the same
/// way; the batches stay.
pub proof fn law_task_status_update(m: GenerationModel, id: Seq<char>, st: SuggestionStatus)
    ensures
        task_status_set(m.suggestions, m.set_task_status(id, st).recompute().suggestions, id, st),
        m.set_task_status(id, st).recompute().batches == m.batches,
        m.set_task_status(id, st).recompute().flags_agree(),
        (st is Ready && request_ids(m.suggestions).contains(id)) ==> m.set_task_status(id, st).recompute().ready_suggestions,
{
    let r = m.set_task_status(id, st).recompute();
    lemma_find_key(request_ids(m.suggestions), id);
    crate::seqs::lemma_find_key_contains(request_ids(m.suggestions), id);
    assert forall|j: int| 0 <= j < m.suggestions.len() implies #[trigger] request_ids(m.suggestions)[j]
        == m.suggestions[j].request_id@ by {}
    assert forall|k: int| 0 <= k < m.suggestions.len() implies #[trigger] r.suggestions[k] == (if first_task_at(m.suggestions, id, k) {
        SuggestionTask { status: st, ..m.suggestions[k] }
    } else {
        m.suggestions[k]
    }) by {
        match find_key(request_ids(m.suggestions), id) {
            Some(i) => {
                assert forall|j: int| 0 <= j < i implies m.suggestions[j].request_id@ != id by {
                    assert(request_ids(m.suggestions)[j] != id);
                }
                assert(first_task_at(m.suggestions, id, i));
                if first_task_at(m.suggestions, id, k) && k != i {
                    if k < i {
                        assert(request_ids(m.suggestions)[k] == id);
                    } else {
                        assert(m.suggestions[i].request_id@ == request_ids(m.suggestions)[i]);
                    }
                }
            },
            None => {
                if first_task_at(m.suggestions, id, k) {
                    assert(request_ids(m.suggestions)[k] == id);
                }
            },
        }
    }
    if st is Ready && request_ids(m.suggestions).contains(id) {
        let i = find_key(request_ids(m.suggestions), id)->0;
        assert(r.suggestions[i].status is Ready);
    }
}

/// Marking read reaches exactly the first item with the ID, which becomes
/// read with nothing else changed; every other item stays.
pub proof fn law_marking_read(m: GenerationModel, id: Seq<char>)
    ensures
        m.mark_batch_read(id).batches.len() == m.batches.len(),
        forall|k: int|
            0 <= k < m.batches.len() ==> #[trigger] m.mark_batch_read(id).batches[k] == (if first_batch_at(
                m.batches,
                id,
                k,
            ) {
                GenerationBatch { is_read: true, ..m.batches[k] }
            } else {
                m.batches[k]
            }),
        m.mark_batch_read(id).suggestions == m.suggestions,
        m.mark_task_read(id).suggestions.len() == m.suggestions.len(),
        forall|k: int|
            0 <= k < m.suggestions.len() ==> #[trigger] m.mark_task_read(id).suggestions[k] == (if first_task_at(
                m.suggestions,
                id,
                k,
            ) {
                SuggestionTask { is_read: true, ..m.suggestions[k] }
            } else {
                m.suggestions[k]
            }),
        m.mark_task_read(id).batches == m.batches,
{
    lemma_find_key(batch_ids(m.batches), id);
    lemma_find_key(request_ids(m.suggestions), id);
    assert forall|j: int| 0 <= j < m.batches.len() implies #[trigger] batch_ids(m.batches)[j]
        == m.batches[j].batch_id@ by {}
    assert forall|j: int| 0 <= j < m.suggestions.len() implies #[trigger] request_ids(m.suggestions)[j]
        == m.suggestions[j].request_id@ by {}
    match find_key(batch_ids(m.batches), id) {
        Some(i) => {
            assert forall|j: int| 0 <= j < i implies m.batches[j].batch_id@ != id by {
                assert(batch_ids(m.batches)[j] != id);
            }
            assert forall|k: int| 0 <= k < m.batches.len() && k != i implies !first_batch_at(m.batches, id, k) by {
                if k < i {
                    assert(batch_ids(m.batches)[k] != id);
                }
            }
        },
        None => {
            assert forall|k: int| 0 <= k < m.batches.len() implies !first_batch_at(m.batches, id, k) by {
                assert(batch_ids(m.batches)[k] != id);
            }
        },
    }
    match find_key(request_ids(m.suggestions), id) {
        Some(i) => {
            assert forall|j: int| 0 <= j < i implies m.suggestions[j].request_id@ != id by {
                assert(request_ids(m.suggestions)[j] != id);
            }
            assert forall|k: int| 0 <= k < m.suggestions.len() && k != i implies !first_task_at(m.suggestions, id, k) by {
                if k < i {
                    assert(request_ids(m.suggestions)[k] != id);
                }
            }
        },
        None => {
            assert forall|k: int| 0 <= k < m.suggestions.len() implies !first_task_at(m.suggestions, id, k) by {
                assert(request_ids(m.suggestions)[k] != id);
            }
        },
    }
}

/// Adding appends the item at the end of its queue; the other queue stays.
pub proof fn law_adding_appends(m: GenerationModel, b: GenerationBatch, t: SuggestionTask)
    ensures
        m.add_batch(b).batches == m.batches.push(b),
        m.add_batch(b).suggestions == m.suggestions,
        m.add_task(t).suggestions == m.suggestions.push(t),
        m.add_task(t).batches == m.batches,
        GenerationModel::empty().batches.len() == 0 && GenerationModel::empty().suggestions.len() == 0,
        !GenerationModel::empty().ready_batches && !GenerationModel::empty().ready_suggestions,
{
}

} // verus!
