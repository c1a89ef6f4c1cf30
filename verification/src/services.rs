//! Generation queue services: rebuilding the queue from the Engine's
//! snapshot, read markers kept between sessions, and the queue filters the
//! views show.
use vstd::prelude::*;
use crate::copy::{copy_opt_string, copy_strings};
use crate::dto::opt_str;
use crate::seqs::{find_key, lemma_find_key, lemma_find_key_contains, lemma_push_contains};
use crate::state::generation::{
    batch_ids, request_ids, BatchStatus, GenerationBatch, GenerationModel, GenerationState,
    SuggestionStatus, SuggestionTask,
};
use crate::text::{
    join_strings, join_with, lemma_split_join, listed_in, owned, split_on, split_trimmed_nonempty, str_eq,
    trim, views,
};

verus! {

/// A batch as the Engine's queue snapshot reports it.
pub struct GenerationBatchSnapshot {
    pub batch_id: String,
    pub entity_type: String,
    pub entity_id: String,
    pub asset_type: String,
    /// "queued", "generating", "ready" or "failed".
    pub status: String,
    pub position: Option<u32>,
    pub progress: Option<u8>,
    pub asset_count: Option<u32>,
    pub error: Option<String>,
    pub is_read: bool,
}

/// A suggestion request as the Engine's queue snapshot reports it.
pub struct SuggestionTaskSnapshot {
    pub request_id: String,
    pub field_type: String,
    pub entity_id: Option<String>,
    /// "queued", "processing", "ready" or "failed".
    pub status: String,
    pub suggestions: Option<Vec<String>>,
    pub error: Option<String>,
}

/// The Engine's generation queue for one user and world.
pub struct GenerationQueueSnapshot {
    pub batches: Vec<GenerationBatchSnapshot>,
    pub suggestions: Vec<SuggestionTaskSnapshot>,
}

/// The error text reported, or "Unknown error".
pub open spec fn error_or_unknown(e: Option<String>) -> Seq<char> {
    match e {
        Some(s) => s@,
        None => "Unknown error"@,
    }
}

/// The status a batch of the snapshot gets: by its status name, with the
/// missing numbers taken as 0; an unknown name counts as queued at 0.
pub open spec fn batch_status_matches(b: GenerationBatchSnapshot, st: BatchStatus) -> bool {
    if b.status@ == "queued"@ {
        st == BatchStatus::Queued { position: match b.position { Some(p) => p, None => 0 } }
    } else if b.status@ == "generating"@ {
        st == BatchStatus::Generating { progress: match b.progress { Some(p) => p, None => 0 } }
    } else if b.status@ == "ready"@ {
        st == BatchStatus::Ready { asset_count: match b.asset_count { Some(c) => c, None => 0 } }
    } else if b.status@ == "failed"@ {
        st matches BatchStatus::Failed { error } && error@ == error_or_unknown(b.error)
    } else {
        st == BatchStatus::Queued { position: 0 }
    }
}

/// A batch of the state rebuilt from a batch of the snapshot.
pub open spec fn batch_hydrated(b: GenerationBatchSnapshot, g: GenerationBatch) -> bool {
    &&& g.batch_id == b.batch_id
    &&& g.entity_type == b.entity_type
    &&& g.entity_id == b.entity_id
    &&& g.asset_type == b.asset_type
    &&& batch_status_matches(b, g.status)
    &&& g.is_read == b.is_read
}

/// The status a suggestion request of the snapshot gets: by its status name,
/// with missing suggestions taken as none; an unknown name counts as queued.
pub open spec fn task_status_matches(s: SuggestionTaskSnapshot, st: SuggestionStatus) -> bool {
    if s.status@ == "queued"@ {
        st is Queued
    } else if s.status@ == "processing"@ {
        st is Processing
    } else if s.status@ == "ready"@ {
        st matches SuggestionStatus::Ready { suggestions } && suggestions@ == match s.suggestions {
            Some(v) => v@,
            None => Seq::<String>::empty(),
        }
    } else if s.status@ == "failed"@ {
        st matches SuggestionStatus::Failed { error } && error@ == error_or_unknown(s.error)
    } else {
        st is Queued
    }
}

/// A snapshot batch keeps its identity, read marker and the numbers its
/// status carries: a queued batch keeps its position, a generating one its
/// progress, a ready one its asset count (each 0 when missing), a failed one
/// its error ("Unknown error" when missing); an unknown status reads as
/// queued at position 0.
pub proof fn law_batch_hydration(b: GenerationBatchSnapshot, g: GenerationBatch)
    requires
        batch_hydrated(b, g),
    ensures
        g.batch_id == b.batch_id && g.entity_type == b.entity_type && g.entity_id == b.entity_id
            && g.asset_type == b.asset_type && g.is_read == b.is_read,
        b.status@ == "ready"@ ==> (g.status is Ready && (b.asset_count matches Some(c) ==> g.status
            == (BatchStatus::Ready { asset_count: c })) && (b.asset_count is None ==> g.status
            == (BatchStatus::Ready { asset_count: 0 }))),
        b.status@ == "queued"@ ==> (g.status is Queued && (b.position matches Some(p) ==> g.status
            == (BatchStatus::Queued { position: p })) && (b.position is None ==> g.status
            == (BatchStatus::Queued { position: 0 }))),
        b.status@ == "generating"@ ==> (g.status is Generating && (b.progress matches Some(p) ==> g.status
            == (BatchStatus::Generating { progress: p })) && (b.progress is None ==> g.status
            == (BatchStatus::Generating { progress: 0 }))),
        b.status@ == "failed"@ ==> (g.status is Failed && (b.error matches Some(e) ==> g.status->Failed_error@
            == e@) && (b.error is None ==> g.status->Failed_error@ == "Unknown error"@)),
        (b.status@ != "ready"@ && b.status@ != "queued"@ && b.status@ != "generating"@ && b.status@
            != "failed"@) ==> g.status == (BatchStatus::Queued { position: 0 }),
{
    reveal_strlit("ready");
    reveal_strlit("queued");
    reveal_strlit("generating");
    reveal_strlit("failed");
    assert("ready"@.len() == 5 && "queued"@.len() == 6 && "generating"@.len() == 10 && "failed"@.len() == 6);
    assert("queued"@[0] == 'q' && "failed"@[0] == 'f');
}

/// A snapshot request's status keeps what it carries: ready with the
/// suggestions sent (none when missing), failed with the error ("Unknown
/// error" when missing); queued and processing as named; anything else reads
/// as queued.
pub proof fn law_task_hydration(t: SuggestionTaskSnapshot, st: SuggestionStatus)
    requires
        task_status_matches(t, st),
    ensures
        t.status@ == "ready"@ ==> (st is Ready && (t.suggestions matches Some(v) ==> st->Ready_suggestions@
            == v@) && (t.suggestions is None ==> st->Ready_suggestions@.len() == 0)),
        t.status@ == "failed"@ ==> (st is Failed && (t.error matches Some(e) ==> st->Failed_error@ == e@) && (
        t.error is None ==> st->Failed_error@ == "Unknown error"@)),
        t.status@ == "processing"@ ==> st is Processing,
        t.status@ == "queued"@ ==> st is Queued,
        (t.status@ != "ready"@ && t.status@ != "failed"@ && t.status@ != "processing"@ && t.status@
            != "queued"@) ==> st is Queued,
{
    reveal_strlit("ready");
    reveal_strlit("queued");
    reveal_strlit("processing");
    reveal_strlit("failed");
    assert("ready"@.len() == 5 && "queued"@.len() == 6 && "processing"@.len() == 10 && "failed"@.len() == 6);
    assert("queued"@[0] == 'q' && "failed"@[0] == 'f');
}

/// Converts a batch of the snapshot.
pub fn batch_from_snapshot(b: &GenerationBatchSnapshot) -> (g: GenerationBatch)
    ensures
        batch_hydrated(*b, g),
{
    let status = if str_eq(b.status.as_str(), "queued") {
        BatchStatus::Queued { position: match b.position { Some(p) => p, None => 0 } }
    } else if str_eq(b.status.as_str(), "generating") {
        BatchStatus::Generating { progress: match b.progress { Some(p) => p, None => 0 } }
    } else if str_eq(b.status.as_str(), "ready") {
        BatchStatus::Ready { asset_count: match b.asset_count { Some(c) => c, None => 0 } }
    } else if str_eq(b.status.as_str(), "failed") {
        BatchStatus::Failed {
            error: match &b.error {
                Some(e) => e.clone(),
                None => owned("Unknown error"),
            },
        }
    } else {
        BatchStatus::Queued { position: 0 }
    };
    GenerationBatch {
        batch_id: b.batch_id.clone(),
        entity_type: b.entity_type.clone(),
        entity_id: b.entity_id.clone(),
        asset_type: b.asset_type.clone(),
        status,
        is_read: b.is_read,
    }
}

/// The status of a suggestion request of the snapshot.
pub fn suggestion_status_from_snapshot(s: &SuggestionTaskSnapshot) -> (st: SuggestionStatus)
    ensures
        task_status_matches(*s, st),
{
    if str_eq(s.status.as_str(), "queued") {
        SuggestionStatus::Queued
    } else if str_eq(s.status.as_str(), "processing") {
        SuggestionStatus::Processing
    } else if str_eq(s.status.as_str(), "ready") {
        SuggestionStatus::Ready {
            suggestions: match &s.suggestions {
                Some(v) => copy_strings(v),
                None => Vec::new(),
            },
        }
    } else if str_eq(s.status.as_str(), "failed") {
        SuggestionStatus::Failed {
            error: match &s.error {
                Some(e) => e.clone(),
                None => owned("Unknown error"),
            },
        }
    } else {
        SuggestionStatus::Queued
    }
}


// ---------------------------------------------------------------------------
// Rebuilding the queue from a snapshot
// ---------------------------------------------------------------------------

/// A request of the snapshot as it is first added: queued, unread, without
/// context or world.
pub open spec fn task_of(s: SuggestionTaskSnapshot) -> SuggestionTask {
    SuggestionTask {
        request_id: s.request_id,
        field_type: s.field_type,
        entity_id: s.entity_id,
        status: SuggestionStatus::Queued,
        is_read: false,
        context: None,
        world_id: None,
    }
}

/// The state after taking in one request of the snapshot with status `st`:
/// the request is added as queued, then the first request with its ID gets
/// `st` unless that is `Queued`, and the flags are set again.
pub open spec fn task_hydrated(m: GenerationModel, s: SuggestionTaskSnapshot, st: SuggestionStatus) -> GenerationModel {
    let m1 = m.add_task(task_of(s));
    match st {
        SuggestionStatus::Queued => m1,
        _ => m1.set_task_status(s.request_id@, st).recompute(),
    }
}

/// The state after taking in the requests `ts` in order, the k-th with status `sts[k]`.
pub open spec fn tasks_hydrated(
    m: GenerationModel,
    ts: Seq<SuggestionTaskSnapshot>,
    sts: Seq<SuggestionStatus>,
) -> GenerationModel
    decreases ts.len(),
{
    if ts.len() == 0 || sts.len() == 0 {
        m
    } else {
        task_hydrated(tasks_hydrated(m, ts.drop_last(), sts.drop_last()), ts.last(), sts.last())
    }
}

/// `gs` and `sts` are what the batches and the requests of the snapshot
/// convert to, one by one.
pub open spec fn converted(
    snap: GenerationQueueSnapshot,
    gs: Seq<GenerationBatch>,
    sts: Seq<SuggestionStatus>,
) -> bool {
    &&& gs.len() == snap.batches@.len()
    &&& forall|k: int| 0 <= k < gs.len() ==> batch_hydrated(#[trigger] snap.batches@[k], gs[k])
    &&& sts.len() == snap.suggestions@.len()
    &&& forall|k: int| 0 <= k < sts.len() ==> task_status_matches(#[trigger] snap.suggestions@[k], sts[k])
}

/// The queue holding exactly the batches `gs`, no requests, flags set.
pub open spec fn with_batches_only(gs: Seq<GenerationBatch>) -> GenerationModel {
    GenerationModel::empty().with_batches(gs).recompute()
}

// ---------------------------------------------------------------------------
// Read markers kept between sessions
// ---------------------------------------------------------------------------

/// Storage key of the read batch IDs.
pub const STORAGE_KEY_GEN_READ_BATCHES: &'static str = "wrldbldr_gen_read_batches";

/// Storage key of the read suggestion request IDs.
pub const STORAGE_KEY_GEN_READ_SUGGESTIONS: &'static str = "wrldbldr_gen_read_suggestions";

/// `id` is one of the comma-separated IDs of a stored value.
pub open spec fn stored_lists(stored: Option<Seq<char>>, id: Seq<char>) -> bool {
    match stored {
        Some(s) => listed_in(s, ',', id),
        None => false,
    }
}

/// The `i`-th batch is the first with its ID.
pub open spec fn first_batch(s: Seq<GenerationBatch>, i: int) -> bool {
    find_key(batch_ids(s), s[i].batch_id@) == Some(i)
}

/// The `i`-th request is the first with its ID.
pub open spec fn first_task(s: Seq<SuggestionTask>, i: int) -> bool {
    find_key(request_ids(s), s[i].request_id@) == Some(i)
}

/// The state with the first batch of each listed ID marked read.
pub open spec fn marked_batches(m: GenerationModel, listed: spec_fn(Seq<char>) -> bool) -> GenerationModel {
    m.with_batches(
        Seq::new(
            m.batches.len(),
            |i: int|
                GenerationBatch {
                    is_read: m.batches[i].is_read || (listed(m.batches[i].batch_id@) && first_batch(
                        m.batches,
                        i,
                    )),
                    ..m.batches[i]
                },
        ),
    )
}

/// The state with the first request of each listed ID marked read.
pub open spec fn marked_tasks(m: GenerationModel, listed: spec_fn(Seq<char>) -> bool) -> GenerationModel {
    m.with_suggestions(
        Seq::new(
            m.suggestions.len(),
            |i: int|
                SuggestionTask {
                    is_read: m.suggestions[i].is_read || (listed(m.suggestions[i].request_id@)
                        && first_task(m.suggestions, i)),
                    ..m.suggestions[i]
                },
        ),
    )
}

/// The state with the stored read markers applied.
pub open spec fn read_state_applied(
    m: GenerationModel,
    stored_batches: Option<Seq<char>>,
    stored_suggestions: Option<Seq<char>>,
) -> GenerationModel {
    marked_tasks(
        marked_batches(m, |id: Seq<char>| stored_lists(stored_batches, id)),
        |id: Seq<char>| stored_lists(stored_suggestions, id),
    )
}

/// Marking one more ID read extends the marked set by that ID.
proof fn lemma_mark_batch_step(m: GenerationModel, listed: spec_fn(Seq<char>) -> bool, id: Seq<char>)
    ensures
        marked_batches(m, listed).mark_batch_read(id) == marked_batches(
            m,
            |x: Seq<char>| listed(x) || x == id,
        ),
{
    let a = marked_batches(m, listed);
    let b = marked_batches(m, |x: Seq<char>| listed(x) || x == id);
    assert(batch_ids(a.batches) =~= batch_ids(m.batches));
    lemma_find_key(batch_ids(m.batches), id);
    assert forall|i: int| 0 <= i < m.batches.len() implies first_batch(m.batches, i) == first_batch(
        a.batches,
        i,
    ) by {}
    match find_key(batch_ids(m.batches), id) {
        Some(j) => {
            assert(a.mark_batch_read(id).batches =~= b.batches);
        },
        None => {
            assert(a.batches =~= b.batches);
        },
    }
}

/// Marking one more ID read extends the marked set by that ID.
proof fn lemma_mark_task_step(m: GenerationModel, listed: spec_fn(Seq<char>) -> bool, id: Seq<char>)
    ensures
        marked_tasks(m, listed).mark_task_read(id) == marked_tasks(
            m,
            |x: Seq<char>| listed(x) || x == id,
        ),
{
    let a = marked_tasks(m, listed);
    let b = marked_tasks(m, |x: Seq<char>| listed(x) || x == id);
    assert(request_ids(a.suggestions) =~= request_ids(m.suggestions));
    lemma_find_key(request_ids(m.suggestions), id);
    match find_key(request_ids(m.suggestions), id) {
        Some(j) => {
            assert(a.mark_task_read(id).suggestions =~= b.suggestions);
        },
        None => {
            assert(a.suggestions =~= b.suggestions);
        },
    }
}

/// Marks read the first batch of each ID listed in the stored value.
fn mark_stored_batches(state: &mut GenerationState, stored: &Option<String>)
    ensures
        final(state)@ == marked_batches(old(state)@, |id: Seq<char>| stored_lists(opt_str(*stored), id)),
        old(state)@.flags_agree() ==> final(state)@.flags_agree(),
{
    let ghost m0 = state@;
    let ghost target = |id: Seq<char>| stored_lists(opt_str(*stored), id);
    match stored {
        None => {
            assert(marked_batches(m0, target).batches =~= m0.batches);
        },
        Some(s) => {
            let ids = split_trimmed_nonempty(s.as_str(), ',');
            let mut k: usize = 0;
            assert(marked_batches(m0, |id: Seq<char>| views(ids@.take(0)).contains(id)).batches
                =~= m0.batches);
            while k < ids.len()
                invariant
                    k <= ids.len(),
                    state@ == marked_batches(m0, |id: Seq<char>| views(ids@.take(k as int)).contains(id)),
                    m0.flags_agree() ==> state@.flags_agree(),
                decreases ids.len() - k,
            {
                let ghost l0 = |id: Seq<char>| views(ids@.take(k as int)).contains(id);
                let ghost l1 = |id: Seq<char>| views(ids@.take(k + 1)).contains(id);
                let ghost id = ids@[k as int]@;
                proof {
                    lemma_mark_batch_step(m0, l0, id);
                    assert(views(ids@.take(k + 1)) =~= views(ids@.take(k as int)).push(id));
                    assert forall|x: Seq<char>| #[trigger] l1(x) == (l0(x) || x == id) by {
                        lemma_push_contains(views(ids@.take(k as int)), id, x);
                    }
                    assert(l1 =~= (|x: Seq<char>| l0(x) || x == id));
                }
                state.mark_batch_read(ids[k].as_str());
                k = k + 1;
            }
            assert(ids@.take(ids.len() as int) =~= ids@);
            assert forall|id: Seq<char>| views(ids@).contains(id) == target(id) by {
                assert(target(id) == listed_in(s@, ',', id));
            }
            assert((|id: Seq<char>| views(ids@.take(k as int)).contains(id)) =~= target);
        },
    }
}

/// Marks read the first request of each ID listed in the stored value.
fn mark_stored_tasks(state: &mut GenerationState, stored: &Option<String>)
    ensures
        final(state)@ == marked_tasks(old(state)@, |id: Seq<char>| stored_lists(opt_str(*stored), id)),
        old(state)@.flags_agree() ==> final(state)@.flags_agree(),
{
    let ghost m0 = state@;
    let ghost target = |id: Seq<char>| stored_lists(opt_str(*stored), id);
    match stored {
        None => {
            assert(marked_tasks(m0, target).suggestions =~= m0.suggestions);
        },
        Some(s) => {
            let ids = split_trimmed_nonempty(s.as_str(), ',');
            let mut k: usize = 0;
            assert(marked_tasks(m0, |id: Seq<char>| views(ids@.take(0)).contains(id)).suggestions
                =~= m0.suggestions);
            while k < ids.len()
                invariant
                    k <= ids.len(),
                    state@ == marked_tasks(m0, |id: Seq<char>| views(ids@.take(k as int)).contains(id)),
                    m0.flags_agree() ==> state@.flags_agree(),
                decreases ids.len() - k,
            {
                let ghost l0 = |id: Seq<char>| views(ids@.take(k as int)).contains(id);
                let ghost l1 = |id: Seq<char>| views(ids@.take(k + 1)).contains(id);
                let ghost id = ids@[k as int]@;
                proof {
                    lemma_mark_task_step(m0, l0, id);
                    assert(views(ids@.take(k + 1)) =~= views(ids@.take(k as int)).push(id));
                    assert forall|x: Seq<char>| #[trigger] l1(x) == (l0(x) || x == id) by {
                        lemma_push_contains(views(ids@.take(k as int)), id, x);
                    }
                    assert(l1 =~= (|x: Seq<char>| l0(x) || x == id));
                }
                state.mark_suggestion_read(ids[k].as_str());
                k = k + 1;
            }
            assert(ids@.take(ids.len() as int) =~= ids@);
            assert forall|id: Seq<char>| views(ids@).contains(id) == target(id) by {
                assert(target(id) == listed_in(s@, ',', id));
            }
            assert((|id: Seq<char>| views(ids@.take(k as int)).contains(id)) =~= target);
        },
    }
}

/// Applies the stored read markers (comma-separated IDs, as
/// `persist_generation_read_state` stores them) to the queue.
pub fn apply_generation_read_state(
    state: &mut GenerationState,
    stored_batches: &Option<String>,
    stored_suggestions: &Option<String>,
)
    ensures
        final(state)@ == read_state_applied(old(state)@, opt_str(*stored_batches), opt_str(*stored_suggestions)),
        old(state)@.flags_agree() ==> final(state)@.flags_agree(),
{
    mark_stored_batches(state, stored_batches);
    mark_stored_tasks(state, stored_suggestions);
}


/// Rebuilds the queue from the Engine's snapshot: the queue is cleared, the
/// batches are added in order, then the requests, each first added as queued
/// and then given its status; last the stored read markers are applied.
pub fn hydrate_generation_queue(
    state: &mut GenerationState,
    snapshot: &GenerationQueueSnapshot,
    stored_batches: &Option<String>,
    stored_suggestions: &Option<String>,
)
    ensures
        exists|gs: Seq<GenerationBatch>, sts: Seq<SuggestionStatus>|
            {
                &&& converted(*snapshot, gs, sts)
                &&& final(state)@ == read_state_applied(
                    tasks_hydrated(with_batches_only(gs), snapshot.suggestions@, sts),
                    opt_str(*stored_batches),
                    opt_str(*stored_suggestions),
                )
            },
        final(state)@.flags_agree(),
{
    state.clear();
    let ghost mut gs: Seq<GenerationBatch> = Seq::empty();
    let mut i: usize = 0;
    assert(GenerationModel::empty() =~= with_batches_only(gs));
    while i < snapshot.batches.len()
        invariant
            i <= snapshot.batches@.len(),
            gs.len() == i,
            forall|k: int| 0 <= k < i ==> batch_hydrated(#[trigger] snapshot.batches@[k], gs[k]),
            state@ == with_batches_only(gs),
            state@.flags_agree(),
        decreases snapshot.batches.len() - i,
    {
        let g = batch_from_snapshot(&snapshot.batches[i]);
        proof {
            gs = gs.push(g);
        }
        state.add_batch(g);
        i = i + 1;
    }
    let ghost base = with_batches_only(gs);
    let ghost mut sts: Seq<SuggestionStatus> = Seq::empty();
    let ghost ts = snapshot.suggestions@;
    let mut j: usize = 0;
    assert(ts.take(0) =~= Seq::<SuggestionTaskSnapshot>::empty());
    while j < snapshot.suggestions.len()
        invariant
            j <= ts.len(),
            ts == snapshot.suggestions@,
            sts.len() == j,
            forall|k: int| 0 <= k < j ==> task_status_matches(#[trigger] ts[k], sts[k]),
            state@ == tasks_hydrated(base, ts.take(j as int), sts),
            state@.flags_agree(),
        decreases ts.len() - j,
    {
        let t = &snapshot.suggestions[j];
        let st = suggestion_status_from_snapshot(t);
        proof {
            assert(ts.take(j + 1).drop_last() =~= ts.take(j as int));
            assert(sts.push(st).drop_last() =~= sts);
            sts = sts.push(st);
        }
        let ghost before = state@;
        state.add_suggestion_task(
            t.request_id.clone(),
            t.field_type.clone(),
            copy_opt_string(&t.entity_id),
            None,
            None,
        );
        proof {
            let ids = request_ids(state@.suggestions);
            assert(ids[ids.len() - 1] == t.request_id@);
            lemma_find_key_contains(ids, t.request_id@);
        }
        match st {
            SuggestionStatus::Queued => {},
            SuggestionStatus::Processing => {
                state.suggestion_progress(t.request_id.as_str(), "processing");
            },
            SuggestionStatus::Ready { suggestions } => {
                state.suggestion_complete(t.request_id.as_str(), suggestions);
            },
            SuggestionStatus::Failed { error } => {
                state.suggestion_failed(t.request_id.as_str(), error);
            },
        }
        j = j + 1;
    }
    assert(ts.take(ts.len() as int) =~= ts);
    apply_generation_read_state(state, stored_batches, stored_suggestions);
    assert(converted(*snapshot, gs, sts));
}

// ---------------------------------------------------------------------------
// Persisting and syncing read markers
// ---------------------------------------------------------------------------

/// The IDs of the read batches, in queue order.
pub open spec fn read_batch_ids(m: GenerationModel) -> Seq<Seq<char>> {
    batch_ids(m.batches.filter(|b: GenerationBatch| b.is_read))
}

/// The IDs of the read requests, in queue order.
pub open spec fn read_request_ids(m: GenerationModel) -> Seq<Seq<char>> {
    request_ids(m.suggestions.filter(|t: SuggestionTask| t.is_read))
}

/// The IDs of the read batches and of the read requests, in queue order.
pub fn read_markers(state: &GenerationState) -> (r: (Vec<String>, Vec<String>))
    ensures
        views(r.0@) == read_batch_ids(state@),
        views(r.1@) == read_request_ids(state@),
{
    let batches = state.get_batches();
    let ghost bpred = |b: GenerationBatch| b.is_read;
    let mut read_batches: Vec<String> = Vec::new();
    let mut i: usize = 0;
    proof {
        reveal_with_fuel(Seq::<_>::filter, 1);
    }
    assert(batches@.take(0) =~= Seq::<GenerationBatch>::empty());
    while i < batches.len()
        invariant
            forall|b: GenerationBatch| #[trigger] bpred(b) == b.is_read,
            i <= batches.len(),
            views(read_batches@) == batch_ids(batches@.take(i as int).filter(bpred)),
        decreases batches.len() - i,
    {
        proof {
            crate::seqs::lemma_filter_step(batches@, i as int, bpred);
        }
        if batches[i].is_read {
            let ghost before = read_batches@;
            read_batches.push(batches[i].batch_id.clone());
            assert(views(read_batches@) =~= views(before).push(batches@[i as int].batch_id@));
            assert(batch_ids(batches@.take(i + 1).filter(bpred)) =~= batch_ids(
                batches@.take(i as int).filter(bpred),
            ).push(batches@[i as int].batch_id@));
        }
        i = i + 1;
    }
    assert(batches@.take(batches.len() as int) =~= batches@);
    let tasks = state.get_suggestions();
    let ghost tpred = |t: SuggestionTask| t.is_read;
    let mut read_tasks: Vec<String> = Vec::new();
    let mut j: usize = 0;
    assert(tasks@.take(0) =~= Seq::<SuggestionTask>::empty());
    assert(state@.suggestions.take(0) =~= Seq::<SuggestionTask>::empty());
    while j < tasks.len()
        invariant
            forall|t: SuggestionTask| #[trigger] tpred(t) == t.is_read,
            j <= tasks.len(),
            crate::state::generation::tasks_eqv(tasks@, state@.suggestions),
            views(read_tasks@) == request_ids(state@.suggestions.take(j as int).filter(tpred)),
        decreases tasks.len() - j,
    {
        proof {
            crate::seqs::lemma_filter_step(state@.suggestions, j as int, tpred);
            assert(crate::state::generation::task_eqv(tasks@[j as int], state@.suggestions[j as int]));
        }
        if tasks[j].is_read {
            let ghost before = read_tasks@;
            read_tasks.push(tasks[j].request_id.clone());
            assert(views(read_tasks@) =~= views(before).push(state@.suggestions[j as int].request_id@));
            assert(request_ids(state@.suggestions.take(j + 1).filter(tpred)) =~= request_ids(
                state@.suggestions.take(j as int).filter(tpred),
            ).push(state@.suggestions[j as int].request_id@));
        }
        j = j + 1;
    }
    assert(state@.suggestions.take(state@.suggestions.len() as int) =~= state@.suggestions);
    (read_batches, read_tasks)
}

/// The values to store for the read markers: the read batch IDs and the
/// read request IDs, each joined with commas (stored under
/// `STORAGE_KEY_GEN_READ_BATCHES` and `STORAGE_KEY_GEN_READ_SUGGESTIONS`).
pub fn persist_generation_read_state(state: &GenerationState) -> (r: (String, String))
    ensures
        r.0@ == join_with(read_batch_ids(state@), ","@),
        r.1@ == join_with(read_request_ids(state@), ","@),
{
    let (batches, tasks) = read_markers(state);
    (join_strings(&batches, ","), join_strings(&tasks, ","))
}

/// What to send the Engine to sync the read markers: both ID lists, or
/// nothing when no item is read.
pub fn sync_generation_read_state(state: &GenerationState) -> (r: Option<(Vec<String>, Vec<String>)>)
    ensures
        match r {
            None => read_batch_ids(state@).len() == 0 && read_request_ids(state@).len() == 0,
            Some((b, s)) => {
                &&& views(b@) == read_batch_ids(state@)
                &&& views(s@) == read_request_ids(state@)
                &&& (b@.len() > 0 || s@.len() > 0)
            },
        },
{
    let (batches, tasks) = read_markers(state);
    if batches.len() == 0 && tasks.len() == 0 {
        None
    } else {
        Some((batches, tasks))
    }
}

/// What marking an item read asks to store and to send.
pub struct ReadStateUpdate {
    /// The value to store under `STORAGE_KEY_GEN_READ_BATCHES`.
    pub stored_batches: String,
    /// The value to store under `STORAGE_KEY_GEN_READ_SUGGESTIONS`.
    pub stored_suggestions: String,
    /// The ID lists to send the Engine, if any item is read.
    pub sync: Option<(Vec<String>, Vec<String>)>,
}

/// The update describes the read markers of `m`.
pub open spec fn describes(u: ReadStateUpdate, m: GenerationModel) -> bool {
    &&& u.stored_batches@ == join_with(read_batch_ids(m), ","@)
    &&& u.stored_suggestions@ == join_with(read_request_ids(m), ","@)
    &&& match u.sync {
        None => read_batch_ids(m).len() == 0 && read_request_ids(m).len() == 0,
        Some((b, s)) => views(b@) == read_batch_ids(m) && views(s@) == read_request_ids(m),
    }
}

/// Marks a batch read, then gives what to store and what to send the Engine.
pub fn mark_batch_read_and_sync(state: &mut GenerationState, batch_id: &str) -> (u: ReadStateUpdate)
    ensures
        final(state)@ == old(state)@.mark_batch_read(batch_id@),
        describes(u, final(state)@),
{
    state.mark_batch_read(batch_id);
    let (stored_batches, stored_suggestions) = persist_generation_read_state(state);
    let sync = sync_generation_read_state(state);
    ReadStateUpdate { stored_batches, stored_suggestions, sync }
}

/// Marks a suggestion request read, then gives what to store and what to
/// send the Engine.
pub fn mark_suggestion_read_and_sync(state: &mut GenerationState, request_id: &str) -> (u: ReadStateUpdate)
    ensures
        final(state)@ == old(state)@.mark_task_read(request_id@),
        describes(u, final(state)@),
{
    state.mark_suggestion_read(request_id);
    let (stored_batches, stored_suggestions) = persist_generation_read_state(state);
    let sync = sync_generation_read_state(state);
    ReadStateUpdate { stored_batches, stored_suggestions, sync }
}

// ---------------------------------------------------------------------------
// Queue filters
// ---------------------------------------------------------------------------

/// The batches shown: all of them, or only the unread ones.
pub fn visible_batches(state: &GenerationState, show_read: bool) -> (r: Vec<GenerationBatch>)
    ensures
        r@ == state@.batches.filter(|b: GenerationBatch| show_read || !b.is_read),
{
    let all = state.get_batches();
    let ghost pred = |b: GenerationBatch| show_read || !b.is_read;
    let mut r: Vec<GenerationBatch> = Vec::new();
    let mut i: usize = 0;
    proof {
        reveal_with_fuel(Seq::<_>::filter, 1);
    }
    assert(all@.take(0) =~= Seq::<GenerationBatch>::empty());
    while i < all.len()
        invariant
            forall|b: GenerationBatch| #[trigger] pred(b) == (show_read || !b.is_read),
            i <= all.len(),
            r@ == all@.take(i as int).filter(pred),
        decreases all.len() - i,
    {
        proof {
            crate::seqs::lemma_filter_step(all@, i as int, pred);
        }
        if show_read || !all[i].is_read {
            r.push(crate::state::generation::copy_batch(&all[i]));
        }
        i = i + 1;
    }
    assert(all@.take(all.len() as int) =~= all@);
    r
}

/// The suggestion requests shown: all of them, or only the unread ones.
pub fn visible_suggestions(state: &GenerationState, show_read: bool) -> (r: Vec<SuggestionTask>)
    ensures
        crate::state::generation::tasks_eqv(
            r@,
            state@.suggestions.filter(|t: SuggestionTask| show_read || !t.is_read),
        ),
{
    let all = state.get_suggestions();
    let ghost src = state@.suggestions;
    let ghost pred = |t: SuggestionTask| show_read || !t.is_read;
    let mut r: Vec<SuggestionTask> = Vec::new();
    let mut i: usize = 0;
    proof {
        reveal_with_fuel(Seq::<_>::filter, 1);
    }
    assert(src.take(0) =~= Seq::<SuggestionTask>::empty());
    while i < all.len()
        invariant
            forall|t: SuggestionTask| #[trigger] pred(t) == (show_read || !t.is_read),
            i <= all.len(),
            crate::state::generation::tasks_eqv(all@, src),
            crate::state::generation::tasks_eqv(r@, src.take(i as int).filter(pred)),
        decreases all.len() - i,
    {
        proof {
            crate::seqs::lemma_filter_step(src, i as int, pred);
            assert(crate::state::generation::task_eqv(all@[i as int], src[i as int]));
        }
        if show_read || !all[i].is_read {
            r.push(crate::state::generation::copy_task(&all[i]));
        }
        i = i + 1;
    }
    assert(src.take(src.len() as int) =~= src);
    r
}


// ---------------------------------------------------------------------------
// Read markers survive a reload
// ---------------------------------------------------------------------------

/// An ID that can be stored in a comma-separated list and read back:
/// non-empty, without surrounding whitespace, without a comma.
pub open spec fn storable_id(id: Seq<char>) -> bool {
    &&& id.len() > 0
    &&& trim(id) == id
    &&& !id.contains(',')
}

/// IDs that are all storable and all different.
pub open spec fn storable_ids(ids: Seq<Seq<char>>) -> bool {
    &&& ids.no_duplicates()
    &&& forall|k: int| 0 <= k < ids.len() ==> storable_id(#[trigger] ids[k])
}

/// The queue with every read marker cleared.
pub open spec fn all_unread(m: GenerationModel) -> GenerationModel {
    GenerationModel {
        batches: m.batches.map_values(|b: GenerationBatch| GenerationBatch { is_read: false, ..b }),
        suggestions: m.suggestions.map_values(
            |t: SuggestionTask| SuggestionTask { is_read: false, ..t },
        ),
        ..m
    }
}

/// A stored list of storable IDs lists exactly those IDs.
proof fn lemma_stored_list(ids: Seq<Seq<char>>, id: Seq<char>)
    requires
        forall|k: int| 0 <= k < ids.len() ==> storable_id(#[trigger] ids[k]),
    ensures
        listed_in(join_with(ids, ","@), ',', id) <==> ids.contains(id),
{
    reveal_strlit(",");
    assert(","@ =~= seq![',']);
    if ids.len() == 0 {
        assert(join_with(ids, ","@) =~= Seq::<char>::empty());
        assert(split_on(Seq::<char>::empty(), ',') =~= seq![Seq::<char>::empty()]);
        if listed_in(join_with(ids, ","@), ',', id) {
            let m = choose|m: int|
                0 <= m < split_on(join_with(ids, ","@), ',').len() && trim(
                    #[trigger] split_on(join_with(ids, ","@), ',')[m],
                ) == id;
            assert(trim(Seq::<char>::empty()) =~= Seq::<char>::empty());
        }
    } else {
        lemma_split_join(ids, ',');
        let parts = split_on(join_with(ids, ","@), ',');
        assert(parts == ids);
        if ids.contains(id) {
            let k = choose|k: int| 0 <= k < ids.len() && ids[k] == id;
            assert(storable_id(ids[k]));
            assert(trim(parts[k]) == id);
        }
        if listed_in(join_with(ids, ","@), ',', id) {
            let m = choose|m: int| 0 <= m < parts.len() && trim(#[trigger] parts[m]) == id;
            assert(storable_id(ids[m]));
            assert(ids[m] == id);
        }
    }
}

/// In a queue with all batch IDs different, a batch's ID is among the read
/// batch IDs exactly when the batch is read.
proof fn lemma_read_batch_ids(m: GenerationModel, i: int)
    requires
        batch_ids(m.batches).no_duplicates(),
        0 <= i < m.batches.len(),
    ensures
        read_batch_ids(m).contains(m.batches[i].batch_id@) <==> m.batches[i].is_read,
{
    let pred = |b: GenerationBatch| b.is_read;
    let f = m.batches.filter(pred);
    let ids = batch_ids(m.batches);
    if m.batches[i].is_read {
        m.batches.lemma_filter_contains(pred, i);
        let k = choose|k: int| 0 <= k < f.len() && f[k] == m.batches[i];
        assert(batch_ids(f)[k] == m.batches[i].batch_id@);
    }
    if read_batch_ids(m).contains(m.batches[i].batch_id@) {
        let k = choose|k: int| 0 <= k < batch_ids(f).len() && batch_ids(f)[k] == m.batches[i].batch_id@;
        m.batches.lemma_filter_pred(pred, k);
        assert(f.contains(f[k]));
        m.batches.lemma_filter_contains_rev(pred, f[k]);
        let j = choose|j: int| 0 <= j < m.batches.len() && m.batches[j] == f[k];
        assert(ids[j] == ids[i]);
    }
}

/// In a queue with all request IDs different, a request's ID is among the
/// read request IDs exactly when the request is read.
proof fn lemma_read_request_ids(m: GenerationModel, i: int)
    requires
        request_ids(m.suggestions).no_duplicates(),
        0 <= i < m.suggestions.len(),
    ensures
        read_request_ids(m).contains(m.suggestions[i].request_id@) <==> m.suggestions[i].is_read,
{
    let pred = |t: SuggestionTask| t.is_read;
    let f = m.suggestions.filter(pred);
    let ids = request_ids(m.suggestions);
    if m.suggestions[i].is_read {
        m.suggestions.lemma_filter_contains(pred, i);
        let k = choose|k: int| 0 <= k < f.len() && f[k] == m.suggestions[i];
        assert(request_ids(f)[k] == m.suggestions[i].request_id@);
    }
    if read_request_ids(m).contains(m.suggestions[i].request_id@) {
        let k = choose|k: int|
            0 <= k < request_ids(f).len() && request_ids(f)[k] == m.suggestions[i].request_id@;
        m.suggestions.lemma_filter_pred(pred, k);
        assert(f.contains(f[k]));
        m.suggestions.lemma_filter_contains_rev(pred, f[k]);
        let j = choose|j: int| 0 <= j < m.suggestions.len() && m.suggestions[j] == f[k];
        assert(ids[j] == ids[i]);
    }
}

/// The IDs of read items are IDs of the queue.
proof fn lemma_read_ids_storable(m: GenerationModel)
    requires
        storable_ids(batch_ids(m.batches)),
        storable_ids(request_ids(m.suggestions)),
    ensures
        forall|k: int| 0 <= k < read_batch_ids(m).len() ==> storable_id(#[trigger] read_batch_ids(m)[k]),
        forall|k: int|
            0 <= k < read_request_ids(m).len() ==> storable_id(#[trigger] read_request_ids(m)[k]),
{
    let bp = |b: GenerationBatch| b.is_read;
    let tp = |t: SuggestionTask| t.is_read;
    assert forall|k: int| 0 <= k < read_batch_ids(m).len() implies storable_id(
        #[trigger] read_batch_ids(m)[k],
    ) by {
        let f = m.batches.filter(bp);
        assert(f.contains(f[k]));
        m.batches.lemma_filter_contains_rev(bp, f[k]);
        let j = choose|j: int| 0 <= j < m.batches.len() && m.batches[j] == f[k];
        assert(storable_id(batch_ids(m.batches)[j]));
    }
    assert forall|k: int| 0 <= k < read_request_ids(m).len() implies storable_id(
        #[trigger] read_request_ids(m)[k],
    ) by {
        let f = m.suggestions.filter(tp);
        assert(f.contains(f[k]));
        m.suggestions.lemma_filter_contains_rev(tp, f[k]);
        let j = choose|j: int| 0 <= j < m.suggestions.len() && m.suggestions[j] == f[k];
        assert(storable_id(request_ids(m.suggestions)[j]));
    }
}

/// Read markers survive a reload: when all IDs are storable and different,
/// applying what `persist_generation_read_state` stores to the same queue
/// with its read markers cleared gives back the queue with its markers.
pub proof fn law_read_state_roundtrip(m: GenerationModel)
    requires
        storable_ids(batch_ids(m.batches)),
        storable_ids(request_ids(m.suggestions)),
    ensures
        read_state_applied(
            all_unread(m),
            Some(join_with(read_batch_ids(m), ","@)),
            Some(join_with(read_request_ids(m), ","@)),
        ) == m,
{
    let u = all_unread(m);
    let sb = Some(join_with(read_batch_ids(m), ","@));
    let ss = Some(join_with(read_request_ids(m), ","@));
    lemma_read_ids_storable(m);
    let mb = marked_batches(u, |id: Seq<char>| stored_lists(sb, id));
    assert(batch_ids(u.batches) =~= batch_ids(m.batches));
    assert(request_ids(mb.suggestions) =~= request_ids(m.suggestions));
    assert forall|i: int| 0 <= i < m.batches.len() implies #[trigger] mb.batches[i] == m.batches[i] by {
        lemma_stored_list(read_batch_ids(m), m.batches[i].batch_id@);
        lemma_read_batch_ids(m, i);
        lemma_find_key(batch_ids(m.batches), m.batches[i].batch_id@);
        let f = find_key(batch_ids(m.batches), m.batches[i].batch_id@);
        if f != Some(i) {
            let j = f.unwrap();
            assert(batch_ids(m.batches)[j] == batch_ids(m.batches)[i]);
        }
    }
    assert(mb.batches =~= m.batches);
    let mt = marked_tasks(mb, |id: Seq<char>| stored_lists(ss, id));
    assert forall|i: int| 0 <= i < m.suggestions.len() implies #[trigger] mt.suggestions[i]
        == m.suggestions[i] by {
        lemma_stored_list(read_request_ids(m), m.suggestions[i].request_id@);
        lemma_read_request_ids(m, i);
        lemma_find_key(request_ids(m.suggestions), m.suggestions[i].request_id@);
        let f = find_key(request_ids(m.suggestions), m.suggestions[i].request_id@);
        if f != Some(i) {
            let j = f.unwrap();
            assert(request_ids(m.suggestions)[j] == request_ids(m.suggestions)[i]);
        }
    }
    assert(mt.suggestions =~= m.suggestions);
}

/// Read markers carry over to any queue: applying the markers stored from a
/// queue `saved` (whose read IDs are storable) to a queue `current` whose IDs
/// are all different marks read exactly the items of `current` that were
/// already read or whose ID was read in `saved`; nothing else changes.
pub proof fn law_read_markers_carry_over(saved: GenerationModel, current: GenerationModel)
    requires
        forall|k: int| 0 <= k < read_batch_ids(saved).len() ==> storable_id(#[trigger] read_batch_ids(saved)[k]),
        forall|k: int|
            0 <= k < read_request_ids(saved).len() ==> storable_id(#[trigger] read_request_ids(saved)[k]),
        batch_ids(current.batches).no_duplicates(),
        request_ids(current.suggestions).no_duplicates(),
    ensures
        ({
            let r = read_state_applied(
                current,
                Some(join_with(read_batch_ids(saved), ","@)),
                Some(join_with(read_request_ids(saved), ","@)),
            );
            &&& r.ready_batches == current.ready_batches
            &&& r.ready_suggestions == current.ready_suggestions
            &&& r.batches.len() == current.batches.len()
            &&& r.suggestions.len() == current.suggestions.len()
            &&& forall|i: int|
                0 <= i < current.batches.len() ==> #[trigger] r.batches[i] == (GenerationBatch {
                    is_read: current.batches[i].is_read || read_batch_ids(saved).contains(
                        current.batches[i].batch_id@,
                    ),
                    ..current.batches[i]
                })
            &&& forall|i: int|
                0 <= i < current.suggestions.len() ==> #[trigger] r.suggestions[i] == (SuggestionTask {
                    is_read: current.suggestions[i].is_read || read_request_ids(saved).contains(
                        current.suggestions[i].request_id@,
                    ),
                    ..current.suggestions[i]
                })
        }),
{
    let sb = Some(join_with(read_batch_ids(saved), ","@));
    let ss = Some(join_with(read_request_ids(saved), ","@));
    let mb = marked_batches(current, |id: Seq<char>| stored_lists(sb, id));
    let r = read_state_applied(current, sb, ss);
    assert(request_ids(mb.suggestions) =~= request_ids(current.suggestions));
    assert forall|i: int| 0 <= i < current.batches.len() implies #[trigger] r.batches[i] == (GenerationBatch {
        is_read: current.batches[i].is_read || read_batch_ids(saved).contains(current.batches[i].batch_id@),
        ..current.batches[i]
    }) by {
        lemma_stored_list(read_batch_ids(saved), current.batches[i].batch_id@);
        lemma_find_key(batch_ids(current.batches), current.batches[i].batch_id@);
        let f = find_key(batch_ids(current.batches), current.batches[i].batch_id@);
        if f != Some(i) {
            let j = f.unwrap();
            assert(batch_ids(current.batches)[j] == batch_ids(current.batches)[i]);
        }
    }
    assert forall|i: int| 0 <= i < current.suggestions.len() implies #[trigger] r.suggestions[i] == (
    SuggestionTask {
        is_read: current.suggestions[i].is_read || read_request_ids(saved).contains(
            current.suggestions[i].request_id@,
        ),
        ..current.suggestions[i]
    }) by {
        lemma_stored_list(read_request_ids(saved), current.suggestions[i].request_id@);
        lemma_find_key(request_ids(current.suggestions), current.suggestions[i].request_id@);
        let f = find_key(request_ids(current.suggestions), current.suggestions[i].request_id@);
        if f != Some(i) {
            let j = f.unwrap();
            assert(request_ids(current.suggestions)[j] == request_ids(current.suggestions)[i]);
        }
    }
}

/// Taking in requests leaves the batches alone and adds one request per
/// request taken in.
proof fn lemma_tasks_hydrated_shape(m: GenerationModel, ts: Seq<SuggestionTaskSnapshot>, sts: Seq<SuggestionStatus>)
    requires
        ts.len() == sts.len(),
    ensures
        tasks_hydrated(m, ts, sts).batches == m.batches,
        tasks_hydrated(m, ts, sts).suggestions.len() == m.suggestions.len() + ts.len(),
    decreases ts.len(),
{
    if ts.len() > 0 {
        lemma_tasks_hydrated_shape(m, ts.drop_last(), sts.drop_last());
        let prev = tasks_hydrated(m, ts.drop_last(), sts.drop_last());
        crate::state::generation::law_task_status_update(
            prev.add_task(task_of(ts.last())),
            ts.last().request_id@,
            sts.last(),
        );
    }
}

/// Rebuilding the queue keeps the snapshot's batches, in order, one for one:
/// each has the snapshot batch's ID, entity, asset type and the status it
/// converts to, and is read only when the snapshot or the stored markers say
/// so; there is one request per request of the snapshot.
pub proof fn law_hydrated_queue(
    snap: GenerationQueueSnapshot,
    gs: Seq<GenerationBatch>,
    sts: Seq<SuggestionStatus>,
    stored_batches: Option<Seq<char>>,
    stored_suggestions: Option<Seq<char>>,
)
    requires
        converted(snap, gs, sts),
    ensures
        ({
            let r = read_state_applied(
                tasks_hydrated(with_batches_only(gs), snap.suggestions@, sts),
                stored_batches,
                stored_suggestions,
            );
            &&& r.batches.len() == snap.batches@.len()
            &&& r.suggestions.len() == snap.suggestions@.len()
            &&& forall|k: int|
                0 <= k < r.batches.len() ==> {
                    &&& (#[trigger] r.batches[k]).batch_id == snap.batches@[k].batch_id
                    &&& r.batches[k].entity_type == snap.batches@[k].entity_type
                    &&& r.batches[k].entity_id == snap.batches@[k].entity_id
                    &&& r.batches[k].asset_type == snap.batches@[k].asset_type
                    &&& batch_status_matches(snap.batches@[k], r.batches[k].status)
                    &&& (r.batches[k].is_read <==> (snap.batches@[k].is_read || (stored_lists(
                        stored_batches,
                        snap.batches@[k].batch_id@,
                    ) && first_batch(r.batches, k))))
                }
        }),
{
    let m0 = with_batches_only(gs);
    lemma_tasks_hydrated_shape(m0, snap.suggestions@, sts);
    let h = tasks_hydrated(m0, snap.suggestions@, sts);
    let r = read_state_applied(h, stored_batches, stored_suggestions);
    let mb = marked_batches(h, |id: Seq<char>| stored_lists(stored_batches, id));
    assert(batch_ids(mb.batches) =~= batch_ids(h.batches));
    assert forall|k: int| 0 <= k < r.batches.len() implies first_batch(r.batches, k) == first_batch(h.batches, k) by {
        assert(batch_ids(r.batches) =~= batch_ids(h.batches));
    }
}

/// A request of the snapshot first comes in with its ID, field and entity,
/// queued, unread, without context or world; its own status then reaches it.
pub proof fn law_request_taken_in(m: GenerationModel, t: SuggestionTaskSnapshot, st: SuggestionStatus)
    ensures
        task_of(t).request_id == t.request_id,
        task_of(t).field_type == t.field_type,
        task_of(t).entity_id == t.entity_id,
        task_of(t).status is Queued,
        !task_of(t).is_read,
        task_of(t).context is None && task_of(t).world_id is None,
        task_hydrated(m, t, st).suggestions.len() == m.suggestions.len() + 1,
        !request_ids(m.suggestions).contains(t.request_id@) ==> task_hydrated(m, t, st).suggestions.last()
            == (SuggestionTask { status: st, ..task_of(t) }),
        task_hydrated(m, t, st).batches == m.batches,
{
    let m1 = m.add_task(task_of(t));
    crate::state::generation::law_task_status_update(m1, t.request_id@, st);
    if !request_ids(m.suggestions).contains(t.request_id@) {
        let n = m.suggestions.len() as int;
        assert forall|j: int| 0 <= j < n implies m1.suggestions[j].request_id@ != t.request_id@ by {
            assert(request_ids(m.suggestions)[j] == m.suggestions[j].request_id@);
        }
        assert(crate::state::generation::first_task_at(m1.suggestions, t.request_id@, n));
    }
}

} // verus!
