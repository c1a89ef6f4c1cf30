use wrldbldr_player::services::{
    apply_generation_read_state, hydrate_generation_queue, mark_batch_read_and_sync,
    mark_suggestion_read_and_sync, persist_generation_read_state, read_markers,
    sync_generation_read_state, visible_batches, visible_suggestions, GenerationBatchSnapshot,
    GenerationQueueSnapshot, SuggestionTaskSnapshot, STORAGE_KEY_GEN_READ_BATCHES,
    STORAGE_KEY_GEN_READ_SUGGESTIONS,
};
use wrldbldr_player::state::generation::{BatchStatus, GenerationBatch, GenerationState, SuggestionStatus};

fn s(x: &str) -> String {
    x.to_string()
}

fn bsnap(id: &str, status: &str) -> GenerationBatchSnapshot {
    GenerationBatchSnapshot {
        batch_id: s(id),
        entity_type: s("character"),
        entity_id: s("c1"),
        asset_type: s("portrait"),
        status: s(status),
        position: None,
        progress: None,
        asset_count: None,
        error: None,
        is_read: false,
    }
}

fn tsnap(id: &str, status: &str) -> SuggestionTaskSnapshot {
    SuggestionTaskSnapshot {
        request_id: s(id),
        field_type: s("name"),
        entity_id: None,
        status: s(status),
        suggestions: None,
        error: None,
    }
}

fn batch(id: &str, read: bool) -> GenerationBatch {
    GenerationBatch {
        batch_id: s(id),
        entity_type: s("t"),
        entity_id: s("e"),
        asset_type: s("a"),
        status: BatchStatus::Queued { position: 0 },
        is_read: read,
    }
}

#[test]
fn hydrate_maps_batch_statuses_with_defaults() {
    let mut g = GenerationState::new();
    g.add_batch(batch("stale", false));
    let mut queued = bsnap("b1", "queued");
    queued.position = Some(4);
    let mut failed = bsnap("b4", "failed");
    failed.is_read = true;
    let snap = GenerationQueueSnapshot {
        batches: vec![queued, bsnap("b2", "generating"), bsnap("b3", "ready"), failed, bsnap("b5", "weird")],
        suggestions: vec![],
    };
    hydrate_generation_queue(&mut g, &snap, &None, &None);
    let b = g.get_batches();
    assert_eq!(b.len(), 5);
    assert_eq!(b[0].batch_id, "b1");
    assert!(matches!(b[0].status, BatchStatus::Queued { position: 4 }));
    assert!(matches!(b[1].status, BatchStatus::Generating { progress: 0 }));
    assert!(matches!(b[2].status, BatchStatus::Ready { asset_count: 0 }));
    match &b[3].status {
        BatchStatus::Failed { error } => assert_eq!(error, "Unknown error"),
        _ => panic!("expected failed"),
    }
    assert!(b[3].is_read);
    assert!(matches!(b[4].status, BatchStatus::Queued { position: 0 }));
    assert!(g.has_ready());
}

#[test]
fn hydrate_maps_suggestion_statuses() {
    let mut g = GenerationState::new();
    let mut ready = tsnap("r3", "ready");
    ready.suggestions = Some(vec![s("Ana"), s("Bo")]);
    let mut failed = tsnap("r4", "failed");
    failed.error = Some(s("quota"));
    let snap = GenerationQueueSnapshot {
        batches: vec![],
        suggestions: vec![tsnap("r1", "queued"), tsnap("r2", "processing"), ready, failed, tsnap("r5", "?")],
    };
    hydrate_generation_queue(&mut g, &snap, &None, &None);
    let t = g.get_suggestions();
    assert_eq!(t.len(), 5);
    assert!(matches!(t[0].status, SuggestionStatus::Queued));
    assert!(matches!(t[1].status, SuggestionStatus::Processing));
    match &t[2].status {
        SuggestionStatus::Ready { suggestions } => assert_eq!(suggestions, &vec![s("Ana"), s("Bo")]),
        _ => panic!("expected ready"),
    }
    match &t[3].status {
        SuggestionStatus::Failed { error } => assert_eq!(error, "quota"),
        _ => panic!("expected failed"),
    }
    assert!(matches!(t[4].status, SuggestionStatus::Queued));
    assert!(t.iter().all(|x| !x.is_read && x.context.is_none() && x.world_id.is_none()));
    assert!(g.has_ready_suggestions());
}

#[test]
fn hydrate_ready_without_list_has_no_suggestions() {
    let mut g = GenerationState::new();
    let snap = GenerationQueueSnapshot { batches: vec![], suggestions: vec![tsnap("r1", "ready")] };
    hydrate_generation_queue(&mut g, &snap, &None, &None);
    match &g.get_suggestions()[0].status {
        SuggestionStatus::Ready { suggestions } => assert!(suggestions.is_empty()),
        _ => panic!("expected ready"),
    }
}

#[test]
fn hydrate_applies_stored_read_markers() {
    let mut g = GenerationState::new();
    let snap = GenerationQueueSnapshot {
        batches: vec![bsnap("b1", "queued"), bsnap("b2", "queued"), bsnap("b3", "queued")],
        suggestions: vec![tsnap("r1", "queued"), tsnap("r2", "queued")],
    };
    hydrate_generation_queue(&mut g, &snap, &Some(s(" b3 ,, b1")), &Some(s("r2")));
    let read: Vec<bool> = g.get_batches().iter().map(|b| b.is_read).collect();
    assert_eq!(read, vec![true, false, true]);
    let read: Vec<bool> = g.get_suggestions().iter().map(|t| t.is_read).collect();
    assert_eq!(read, vec![false, true]);
}

#[test]
fn apply_read_state_marks_only_first_duplicate() {
    let mut g = GenerationState::new();
    g.add_batch(batch("dup", false));
    g.add_batch(batch("dup", false));
    apply_generation_read_state(&mut g, &Some(s("dup")), &None);
    let read: Vec<bool> = g.get_batches().iter().map(|b| b.is_read).collect();
    assert_eq!(read, vec![true, false]);
}

#[test]
fn persist_joins_read_ids_with_commas() {
    let mut g = GenerationState::new();
    g.add_batch(batch("b1", true));
    g.add_batch(batch("b2", false));
    g.add_batch(batch("b3", true));
    g.add_suggestion_task(s("r1"), s("f"), None, None, None);
    g.mark_suggestion_read("r1");
    let (batches, tasks) = persist_generation_read_state(&g);
    assert_eq!(batches, "b1,b3");
    assert_eq!(tasks, "r1");
    assert_eq!(STORAGE_KEY_GEN_READ_BATCHES, "wrldbldr_gen_read_batches");
    assert_eq!(STORAGE_KEY_GEN_READ_SUGGESTIONS, "wrldbldr_gen_read_suggestions");
}

#[test]
fn read_state_roundtrip() {
    let mut g = GenerationState::new();
    g.add_batch(batch("b1", true));
    g.add_batch(batch("b2", false));
    g.add_batch(batch("b3", true));
    g.add_suggestion_task(s("r1"), s("f"), None, None, None);
    g.add_suggestion_task(s("r2"), s("f"), None, None, None);
    g.mark_suggestion_read("r2");
    let (sb, ss) = persist_generation_read_state(&g);
    let mut fresh = GenerationState::new();
    fresh.add_batch(batch("b1", false));
    fresh.add_batch(batch("b2", false));
    fresh.add_batch(batch("b3", false));
    fresh.add_suggestion_task(s("r1"), s("f"), None, None, None);
    fresh.add_suggestion_task(s("r2"), s("f"), None, None, None);
    apply_generation_read_state(&mut fresh, &Some(sb), &Some(ss));
    let before: Vec<bool> = g.get_batches().iter().map(|b| b.is_read).collect();
    let after: Vec<bool> = fresh.get_batches().iter().map(|b| b.is_read).collect();
    assert_eq!(before, after);
    let before: Vec<bool> = g.get_suggestions().iter().map(|b| b.is_read).collect();
    let after: Vec<bool> = fresh.get_suggestions().iter().map(|b| b.is_read).collect();
    assert_eq!(before, after);
}

#[test]
fn sync_is_skipped_when_nothing_read() {
    let mut g = GenerationState::new();
    g.add_batch(batch("b1", false));
    assert!(sync_generation_read_state(&g).is_none());
    g.mark_batch_read("b1");
    let (b, t) = sync_generation_read_state(&g).unwrap();
    assert_eq!(b, vec![s("b1")]);
    assert!(t.is_empty());
    let (b2, t2) = read_markers(&g);
    assert_eq!(b2, vec![s("b1")]);
    assert!(t2.is_empty());
}

#[test]
fn visible_filters_hide_read_items() {
    let mut g = GenerationState::new();
    g.add_batch(batch("b1", true));
    g.add_batch(batch("b2", false));
    g.add_suggestion_task(s("r1"), s("f"), None, None, None);
    g.add_suggestion_task(s("r2"), s("f"), None, None, None);
    g.mark_suggestion_read("r1");
    let ids: Vec<String> = visible_batches(&g, false).into_iter().map(|b| b.batch_id).collect();
    assert_eq!(ids, vec![s("b2")]);
    assert_eq!(visible_batches(&g, true).len(), 2);
    let ids: Vec<String> = visible_suggestions(&g, false).into_iter().map(|t| t.request_id).collect();
    assert_eq!(ids, vec![s("r2")]);
    assert_eq!(visible_suggestions(&g, true).len(), 2);
}

#[test]
fn mark_and_sync_reports_what_to_store_and_send() {
    let mut g = GenerationState::new();
    g.add_batch(batch("b1", false));
    g.add_batch(batch("b2", false));
    g.add_suggestion_task(s("r1"), s("f"), None, None, None);
    let u = mark_batch_read_and_sync(&mut g, "b2");
    assert!(g.get_batches()[1].is_read);
    assert_eq!(u.stored_batches, "b2");
    assert_eq!(u.stored_suggestions, "");
    assert_eq!(u.sync.as_ref().unwrap().0, vec![s("b2")]);
    let u = mark_suggestion_read_and_sync(&mut g, "r1");
    assert_eq!(u.stored_suggestions, "r1");
    assert_eq!(u.sync.unwrap().1, vec![s("r1")]);
}
