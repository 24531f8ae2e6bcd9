use tiermask::app::{App, AppMode, MaskEditorField, PendingAction};
use tiermask::events::{handle_key_event, Effect, Key};
use tiermask::mask::{MaskKind, ObjectMask};
use tiermask::models::{BucketInfo, ObjectInfo, StorageClassTier};
use tiermask::policy::PolicyStore;

fn bucket(name: &str) -> BucketInfo {
    BucketInfo {
        name: name.to_string(),
        region: None,
        creation_date: None,
    }
}

fn object(key: &str) -> ObjectInfo {
    ObjectInfo {
        key: key.to_string(),
        size: 0,
        last_modified: None,
        storage_class: StorageClassTier::GlacierFlexibleRetrieval,
        restore_state: None,
    }
}

fn ready_app() -> App {
    let mut app = App::new(Vec::new());
    app.set_buckets(vec![bucket("b1")]);
    app.set_objects(vec![object("k1"), object("k2")]);
    app
}

fn prefix_mask(pattern: &str) -> ObjectMask {
    ObjectMask {
        name: "m".to_string(),
        pattern: pattern.to_string(),
        kind: MaskKind::Prefix,
        case_sensitive: true,
    }
}

#[test]
fn quit_fires_from_browsing_only() {
    let mut app = ready_app();
    let mut store = PolicyStore::with_policies(Vec::new());
    assert!(matches!(
        handle_key_event(Key::Char('q'), &mut app, &mut store),
        Some(Effect::Quit)
    ));
    app.set_mode(AppMode::ShowingHelp);
    assert!(handle_key_event(Key::Char('q'), &mut app, &mut store).is_none());
}

#[test]
fn help_and_log_overlays_open_and_close() {
    let mut app = ready_app();
    let mut store = PolicyStore::with_policies(Vec::new());
    handle_key_event(Key::Char('?'), &mut app, &mut store);
    assert_eq!(app.mode, AppMode::ShowingHelp);
    handle_key_event(Key::Esc, &mut app, &mut store);
    assert_eq!(app.mode, AppMode::Browsing);
    handle_key_event(Key::Char('l'), &mut app, &mut store);
    assert_eq!(app.mode, AppMode::ViewingLog);
    handle_key_event(Key::Char('l'), &mut app, &mut store);
    assert_eq!(app.mode, AppMode::Browsing);
}

#[test]
fn restore_flow_creates_pending_action_with_default_days() {
    let mut app = ready_app();
    let mut store = PolicyStore::with_policies(Vec::new());
    handle_key_event(Key::Char('r'), &mut app, &mut store);
    assert_eq!(app.mode, AppMode::Confirming);
    assert!(matches!(
        app.pending_action,
        Some(PendingAction::Restore { days: 7 })
    ));
}

#[test]
fn restore_flow_needs_a_target() {
    let mut app = App::new(Vec::new());
    let mut store = PolicyStore::with_policies(Vec::new());
    handle_key_event(Key::Char('r'), &mut app, &mut store);
    assert_eq!(app.mode, AppMode::Browsing);
    assert!(app.pending_action.is_none());
    assert_eq!(
        app.status.back().map(|s| s.as_str()),
        Some("Cannot request restore: Select objects to restore first")
    );
}

#[test]
fn cancel_discards_the_pending_action() {
    let mut app = ready_app();
    let mut store = PolicyStore::with_policies(Vec::new());
    handle_key_event(Key::Char('r'), &mut app, &mut store);
    assert!(app.pending_action.is_some());
    handle_key_event(Key::Esc, &mut app, &mut store);
    assert!(app.pending_action.is_none());
    assert_eq!(app.mode, AppMode::Browsing);
    assert_eq!(app.status.back().map(|s| s.as_str()), Some("Cancelled"));
}

#[test]
fn confirm_consumes_the_pending_action_and_requests_the_batch() {
    let mut app = ready_app();
    let mut store = PolicyStore::with_policies(Vec::new());
    handle_key_event(Key::Char('r'), &mut app, &mut store);
    let effect = handle_key_event(Key::Enter, &mut app, &mut store);
    assert!(matches!(effect, Some(Effect::RunRestore { days: 7 })));
    assert!(app.pending_action.is_none());
    assert_eq!(app.mode, AppMode::Browsing);
}

#[test]
fn storage_selection_walks_to_a_confirmed_transition() {
    let mut app = ready_app();
    let mut store = PolicyStore::with_policies(Vec::new());
    handle_key_event(Key::Char('s'), &mut app, &mut store);
    assert_eq!(app.mode, AppMode::SelectingStorageClass);
    handle_key_event(Key::Down, &mut app, &mut store);
    handle_key_event(Key::Down, &mut app, &mut store);
    handle_key_event(Key::Enter, &mut app, &mut store);
    assert_eq!(app.mode, AppMode::Confirming);
    assert!(matches!(
        app.pending_action,
        Some(PendingAction::Transition {
            target_class: StorageClassTier::StandardIa,
            restore_first: false
        })
    ));
    let effect = handle_key_event(Key::Enter, &mut app, &mut store);
    assert!(matches!(
        effect,
        Some(Effect::RunTransition {
            target_class: StorageClassTier::StandardIa,
            restore_first: false
        })
    ));
    assert!(app.pending_action.is_none());
}

#[test]
fn storage_selection_needs_a_bucket() {
    let mut app = App::new(Vec::new());
    let mut store = PolicyStore::with_policies(Vec::new());
    handle_key_event(Key::Char('s'), &mut app, &mut store);
    assert_eq!(app.mode, AppMode::Browsing);
    assert_eq!(
        app.status.back().map(|s| s.as_str()),
        Some("Storage selection unavailable: Select a bucket first")
    );
}

#[test]
fn restore_first_toggle_flips_only_a_pending_transition() {
    let mut app = ready_app();
    let mut store = PolicyStore::with_policies(Vec::new());
    handle_key_event(Key::Char('s'), &mut app, &mut store);
    handle_key_event(Key::Enter, &mut app, &mut store);
    handle_key_event(Key::Char('o'), &mut app, &mut store);
    assert!(matches!(
        app.pending_action,
        Some(PendingAction::Transition {
            restore_first: true,
            ..
        })
    ));
    assert_eq!(
        app.status.back().map(|s| s.as_str()),
        Some("Will request restore before transition")
    );
    handle_key_event(Key::Char('o'), &mut app, &mut store);
    assert!(matches!(
        app.pending_action,
        Some(PendingAction::Transition {
            restore_first: false,
            ..
        })
    ));
}

#[test]
fn saving_a_policy_without_a_mask_fails_and_leaves_the_store_untouched() {
    let mut app = ready_app();
    let mut store = PolicyStore::with_policies(Vec::new());
    // Force a save-policy confirmation although no mask is active: the save
    // re-validates at execution time.
    app.pending_action = Some(PendingAction::SavePolicy {
        target_class: StorageClassTier::DeepArchive,
    });
    app.set_mode(AppMode::Confirming);
    let effect = handle_key_event(Key::Enter, &mut app, &mut store);
    assert!(effect.is_none());
    assert!(store.policies.is_empty());
    assert!(app.policies.is_empty());
    assert!(app.pending_action.is_none());
    assert_eq!(
        app.status.back().map(|s| s.as_str()),
        Some("Cannot save policy: Apply a mask before saving policy")
    );
}

#[test]
fn saving_a_policy_appends_to_store_and_mirror() {
    let mut app = ready_app();
    let mut store = PolicyStore::with_policies(Vec::new());
    app.apply_mask(Some(prefix_mask("k")));
    handle_key_event(Key::Char('p'), &mut app, &mut store);
    assert_eq!(app.mode, AppMode::SelectingStorageClass);
    handle_key_event(Key::Enter, &mut app, &mut store);
    assert_eq!(app.mode, AppMode::Confirming);
    assert!(matches!(
        app.pending_action,
        Some(PendingAction::SavePolicy {
            target_class: StorageClassTier::Standard
        })
    ));
    let effect = handle_key_event(Key::Enter, &mut app, &mut store);
    assert_eq!(store.policies.len(), 1);
    assert_eq!(app.policies.len(), 1);
    let saved = &store.policies[0];
    assert_eq!(saved.bucket, "b1");
    assert_eq!(saved.mask.pattern, "k");
    assert_eq!(saved.target_storage_class, StorageClassTier::Standard);
    assert!(!saved.scheduled);
    assert!(saved.schedule.is_none());
    match effect {
        Some(Effect::PersistPolicy { policy }) => assert_eq!(policy.bucket, "b1"),
        other => panic!("expected a persist effect, got {:?}", other.is_some()),
    }
    assert!(app.pending_action.is_none());
    assert_eq!(app.status.back().map(|s| s.as_str()), Some("Policy saved"));
}

#[test]
fn mask_editor_edits_apply_and_cancel() {
    let mut app = ready_app();
    let mut store = PolicyStore::with_policies(Vec::new());
    handle_key_event(Key::Char('m'), &mut app, &mut store);
    assert_eq!(app.mode, AppMode::EditingMask);
    assert_eq!(app.mask_field, MaskEditorField::Pattern);
    handle_key_event(Key::Char('k'), &mut app, &mut store);
    handle_key_event(Key::Char('1'), &mut app, &mut store);
    handle_key_event(Key::Char('x'), &mut app, &mut store);
    handle_key_event(Key::Backspace, &mut app, &mut store);
    assert_eq!(app.mask_draft.pattern, "k1");
    handle_key_event(Key::Enter, &mut app, &mut store);
    assert_eq!(app.mode, AppMode::Browsing);
    assert!(app.active_mask.is_some());
    let filtered: Vec<&str> = app
        .active_objects()
        .iter()
        .map(|o| o.key.as_str())
        .collect();
    assert_eq!(filtered, vec!["k1"]);
}

#[test]
fn mask_editor_rejects_empty_pattern() {
    let mut app = ready_app();
    let mut store = PolicyStore::with_policies(Vec::new());
    handle_key_event(Key::Char('m'), &mut app, &mut store);
    handle_key_event(Key::Enter, &mut app, &mut store);
    assert_eq!(app.mode, AppMode::EditingMask);
    assert!(app.active_mask.is_none());
    assert_eq!(
        app.status.back().map(|s| s.as_str()),
        Some("Mask pattern cannot be empty")
    );
}

#[test]
fn invalid_regex_never_becomes_the_active_mask() {
    let mut app = ready_app();
    let mut store = PolicyStore::with_policies(Vec::new());
    app.apply_mask(Some(prefix_mask("k")));
    let before: Vec<String> = app
        .active_objects()
        .iter()
        .map(|o| o.key.clone())
        .collect();
    handle_key_event(Key::Char('m'), &mut app, &mut store);
    // Move the draft to the regex kind and give it an uncompilable pattern.
    app.mask_draft.kind = MaskKind::Regex;
    app.mask_draft.pattern = "[".to_string();
    handle_key_event(Key::Enter, &mut app, &mut store);
    assert_eq!(app.mode, AppMode::EditingMask);
    assert_eq!(app.active_mask.as_ref().map(|m| m.pattern.as_str()), Some("k"));
    let after: Vec<String> = app
        .active_objects()
        .iter()
        .map(|o| o.key.clone())
        .collect();
    assert_eq!(before, after);
    assert_eq!(
        app.status.back().map(|s| s.as_str()),
        Some("Mask pattern is not a valid regular expression")
    );
}

#[test]
fn mask_editor_cycles_kind_and_toggles_case() {
    let mut app = ready_app();
    let mut store = PolicyStore::with_policies(Vec::new());
    handle_key_event(Key::Char('m'), &mut app, &mut store);
    assert_eq!(app.mask_draft.kind, MaskKind::Prefix);
    handle_key_event(Key::Tab, &mut app, &mut store);
    assert_eq!(app.mask_field, MaskEditorField::Mode);
    handle_key_event(Key::Right, &mut app, &mut store);
    assert_eq!(app.mask_draft.kind, MaskKind::Suffix);
    handle_key_event(Key::Left, &mut app, &mut store);
    assert_eq!(app.mask_draft.kind, MaskKind::Prefix);
    assert!(!app.mask_draft.case_sensitive);
    handle_key_event(Key::Char('c'), &mut app, &mut store);
    assert!(app.mask_draft.case_sensitive);
    assert_eq!(app.mask_field, MaskEditorField::Case);
}

#[test]
fn escape_clears_the_active_mask_while_browsing() {
    let mut app = ready_app();
    let mut store = PolicyStore::with_policies(Vec::new());
    app.apply_mask(Some(prefix_mask("k1")));
    assert_eq!(app.active_objects().len(), 1);
    handle_key_event(Key::Esc, &mut app, &mut store);
    assert!(app.active_mask.is_none());
    assert_eq!(app.active_objects().len(), 2);
    assert_eq!(
        app.status.back().map(|s| s.as_str()),
        Some("Cleared mask filter")
    );
}

#[test]
fn load_refresh_and_inspect_request_their_effects() {
    let mut app = ready_app();
    let mut store = PolicyStore::with_policies(Vec::new());
    match handle_key_event(Key::Enter, &mut app, &mut store) {
        Some(Effect::LoadObjects { bucket }) => assert_eq!(bucket, "b1"),
        _ => panic!("expected a load effect"),
    }
    assert!(matches!(
        handle_key_event(Key::Char('f'), &mut app, &mut store),
        Some(Effect::RefreshBuckets)
    ));
    match handle_key_event(Key::Char('i'), &mut app, &mut store) {
        Some(Effect::RefreshObject { bucket, key }) => {
            assert_eq!(bucket, "b1");
            assert_eq!(key, "k1");
        },
        _ => panic!("expected a refresh effect"),
    }
}
