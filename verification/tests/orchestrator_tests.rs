use tiermask::app::App;
use tiermask::errors::{describe_restore_error, BackendFailure};
use tiermask::mask::{MaskKind, ObjectMask};
use tiermask::models::{
    describe_restore_state, format_size, BucketInfo, ObjectInfo, RestoreState, StorageClassTier,
};
use tiermask::orchestrator::{
    copy_source, ingest_objects, record_restore_outcome, record_restore_request_outcome,
    record_transition_outcome, start_restore_batch, start_transition_batch,
    update_refreshed_object, BatchCall,
};

fn bucket(name: &str) -> BucketInfo {
    BucketInfo {
        name: name.to_string(),
        region: None,
        creation_date: None,
    }
}

fn object(key: &str) -> ObjectInfo {
    ObjectInfo {
        key: key.to_string(),
        size: 0,
        last_modified: None,
        storage_class: StorageClassTier::GlacierFlexibleRetrieval,
        restore_state: None,
    }
}

fn masked_app(keys: &[&str], pattern: &str) -> App {
    let mut app = App::new(Vec::new());
    app.set_buckets(vec![bucket("b1")]);
    app.set_objects(keys.iter().map(|k| object(k)).collect());
    app.apply_mask(Some(ObjectMask {
        name: "m".to_string(),
        pattern: pattern.to_string(),
        kind: MaskKind::Prefix,
        case_sensitive: true,
    }));
    app
}

fn no_such_key() -> BackendFailure {
    BackendFailure::ServiceRejected {
        code: "NoSuchKey".to_string(),
        message: "ignored".to_string(),
    }
}

#[test]
fn restore_first_batch_isolates_the_failing_key() {
    let mut app = masked_app(&["k1", "k2", "k3"], "k");
    let mut batch = start_transition_batch(&mut app, StorageClassTier::DeepArchive, true)
        .expect("batch should open");
    let mut transitioned: Vec<String> = Vec::new();
    loop {
        match batch.next_call() {
            None => break,
            Some(BatchCall::Restore { key, days }) => {
                assert_eq!(days, 7);
                if key == "k2" {
                    record_restore_outcome(&mut app, &mut batch, Err(no_such_key()));
                } else {
                    record_restore_outcome(&mut app, &mut batch, Ok(()));
                }
            }
            Some(BatchCall::Transition { key, target_class }) => {
                assert_eq!(target_class, StorageClassTier::DeepArchive);
                transitioned.push(key);
                record_transition_outcome(&mut app, &mut batch, Ok(()));
            }
        }
    }
    // Keys 1 and 3 were transitioned, key 2 was skipped after its restore
    // failed, and exactly one failure line was reported.
    assert_eq!(transitioned, vec!["k1", "k3"]);
    let failures: Vec<&String> = app
        .status
        .iter()
        .filter(|s| s.starts_with("Restore failed"))
        .collect();
    assert_eq!(failures.len(), 1);
    assert_eq!(
        failures[0].as_str(),
        "Restore failed for k2: NoSuchKey: object was not found (mask may target stale keys or bucket differs)"
    );
    assert!(app
        .status
        .iter()
        .any(|s| s == "Transitioned k1 to DEEP_ARCHIVE"));
    assert!(app
        .status
        .iter()
        .any(|s| s == "Transitioned k3 to DEEP_ARCHIVE"));
    assert!(!app.status.iter().any(|s| s.starts_with("Transitioned k2")));
}

#[test]
fn transition_batch_without_selection_is_a_reported_no_op() {
    let mut app = App::new(Vec::new());
    app.set_buckets(vec![bucket("b1")]);
    let batch = start_transition_batch(&mut app, StorageClassTier::Standard, false);
    assert!(batch.is_none());
    assert_eq!(
        app.status.back().map(|s| s.as_str()),
        Some("No objects selected for transition")
    );
}

#[test]
fn transition_batch_needs_a_bucket() {
    let mut app = App::new(Vec::new());
    let batch = start_transition_batch(&mut app, StorageClassTier::Standard, false);
    assert!(batch.is_none());
    assert_eq!(
        app.status.back().map(|s| s.as_str()),
        Some("Select a bucket before transitioning")
    );
}

#[test]
fn restore_batch_reports_each_key_independently() {
    let mut app = masked_app(&["k1", "k2"], "k");
    let mut batch = start_restore_batch(&mut app, 7).expect("batch should open");
    match batch.next_call() {
        Some(BatchCall::Restore { key, days }) => {
            assert_eq!((key.as_str(), days), ("k1", 7));
        }
        _ => panic!("expected a restore call"),
    }
    record_restore_request_outcome(&mut app, &mut batch, Ok(()));
    record_restore_request_outcome(&mut app, &mut batch, Err(no_such_key()));
    assert!(batch.next_call().is_none());
    assert!(app.status.iter().any(|s| s == "Restore requested for k1"));
    assert!(app
        .status
        .iter()
        .any(|s| s.starts_with("Restore failed for k2: NoSuchKey")));
}

#[test]
fn ingest_sorts_objects_and_reapplies_the_mask() {
    let mut app = masked_app(&["k2", "k1", "a9"], "k");
    ingest_objects(
        &mut app,
        "b1",
        vec![object("k3"), object("a1"), object("k0")],
    );
    let listed: Vec<&str> = app.objects.iter().map(|o| o.key.as_str()).collect();
    assert_eq!(listed, vec!["a1", "k0", "k3"]);
    let filtered: Vec<&str> = app
        .active_objects()
        .iter()
        .map(|o| o.key.as_str())
        .collect();
    assert_eq!(filtered, vec!["k0", "k3"]);
    assert_eq!(
        app.status.back().map(|s| s.as_str()),
        Some("Loaded objects for bucket b1")
    );
}

#[test]
fn refresh_replaces_the_listed_object_and_refilters() {
    let mut app = masked_app(&["k1", "k2"], "k");
    let mut refreshed = object("k2");
    refreshed.storage_class = StorageClassTier::Standard;
    refreshed.restore_state = Some(RestoreState::Available);
    update_refreshed_object(&mut app, refreshed);
    assert_eq!(app.objects[1].storage_class, StorageClassTier::Standard);
    assert_eq!(
        app.active_objects()[1].storage_class,
        StorageClassTier::Standard
    );
    assert_eq!(
        app.status.back().map(|s| s.as_str()),
        Some("Object metadata refreshed")
    );
}

#[test]
fn copy_source_percent_encodes_the_path() {
    assert_eq!(copy_source("b", "k"), "b%2Fk");
    assert_eq!(copy_source("my bucket", "a b.txt"), "my%20bucket%2Fa%20b.txt");
    assert_eq!(copy_source("b", "safe-key_0.~"), "b%2Fsafe-key_0.~");
}

#[test]
fn classified_failures_render_their_detail() {
    assert_eq!(
        describe_restore_error(&no_such_key()),
        "NoSuchKey: object was not found (mask may target stale keys or bucket differs)"
    );
    assert_eq!(
        describe_restore_error(&BackendFailure::ServiceRejected {
            code: "InvalidObjectState".to_string(),
            message: "ignored".to_string(),
        }),
        "InvalidObjectState: object is already being restored or not eligible for this operation"
    );
    assert_eq!(
        describe_restore_error(&BackendFailure::ServiceRejected {
            code: "Throttling".to_string(),
            message: "slow down".to_string(),
        }),
        "Throttling: slow down"
    );
    assert_eq!(
        describe_restore_error(&BackendFailure::DispatchFailure {
            detail: "dns".to_string()
        }),
        "network/dispatch failure: dns"
    );
    assert_eq!(
        describe_restore_error(&BackendFailure::Timeout),
        "request timed out; please retry"
    );
    assert_eq!(
        describe_restore_error(&BackendFailure::ResponseMalformed {
            detail: "truncated".to_string()
        }),
        "response error: truncated"
    );
    assert_eq!(
        describe_restore_error(&BackendFailure::Unknown {
            raw: "boom".to_string()
        }),
        "boom"
    );
    assert_eq!(
        describe_restore_error(&BackendFailure::Validation {
            detail: "no bucket".to_string()
        }),
        "no bucket"
    );
}

#[test]
fn restore_states_render_for_the_status_feed() {
    assert_eq!(describe_restore_state(&RestoreState::Available), "available");
    assert_eq!(describe_restore_state(&RestoreState::Expired), "expired");
    assert_eq!(
        describe_restore_state(&RestoreState::InProgress { expiry: None }),
        "in-progress"
    );
    assert_eq!(
        describe_restore_state(&RestoreState::InProgress {
            expiry: Some("2030-01-01T00:00:00+00:00".to_string())
        }),
        "in-progress (ready until 2030-01-01T00:00:00+00:00)"
    );
}

#[test]
fn sizes_render_with_the_largest_exceeded_unit() {
    assert_eq!(format_size(0), "0 B");
    assert_eq!(format_size(512), "512 B");
    assert_eq!(format_size(1024), "1024 B");
    assert_eq!(format_size(1536), "1.50 KB");
    assert_eq!(format_size(1048576), "1024.00 KB");
    assert_eq!(format_size(3 * 1048576 + 524288), "3.50 MB");
    assert_eq!(format_size(5 * 1073741824), "5.00 GB");
}

#[test]
fn tier_labels_match_the_backend_names() {
    assert_eq!(StorageClassTier::Standard.label(), "STANDARD");
    assert_eq!(StorageClassTier::DeepArchive.label(), "DEEP_ARCHIVE");
    assert_eq!(StorageClassTier::GlacierInstantRetrieval.label(), "GLACIER_IR");
    assert!(!StorageClassTier::Unknown.is_valid_target());
    assert!(StorageClassTier::OnezoneIa.is_valid_target());
    assert_eq!(StorageClassTier::selectable().len(), 7);
    assert!(!StorageClassTier::selectable().contains(&StorageClassTier::Unknown));
}
