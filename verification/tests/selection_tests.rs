use tiermask::app::{ActivePane, App};
use tiermask::listing::sort_buckets;
use tiermask::mask::{MaskKind, ObjectMask};
use tiermask::models::{BucketInfo, ObjectInfo, StorageClassTier};
use tiermask::selection::{jump_selection, move_selection, target_count, target_keys};

fn bucket(name: &str) -> BucketInfo {
    BucketInfo {
        name: name.to_string(),
        region: None,
        creation_date: None,
    }
}

fn object(key: &str) -> ObjectInfo {
    ObjectInfo {
        key: key.to_string(),
        size: 0,
        last_modified: None,
        storage_class: StorageClassTier::Standard,
        restore_state: None,
    }
}

fn prefix_mask(pattern: &str) -> ObjectMask {
    ObjectMask {
        name: "m".to_string(),
        pattern: pattern.to_string(),
        kind: MaskKind::Prefix,
        case_sensitive: true,
    }
}

fn keys(objects: &[ObjectInfo]) -> Vec<String> {
    objects.iter().map(|o| o.key.clone()).collect()
}

#[test]
fn backend_bucket_listing_is_consumed_sorted_by_name() {
    let sorted = sort_buckets(vec![bucket("b"), bucket("a"), bucket("c")]);
    let names: Vec<&str> = sorted.iter().map(|b| b.name.as_str()).collect();
    assert_eq!(names, vec!["a", "b", "c"]);
    let mut app = App::new(Vec::new());
    app.set_buckets(sorted);
    assert_eq!(app.selected_bucket, 0);
    assert_eq!(app.selected_bucket_name(), Some("a"));
}

#[test]
fn apply_then_clear_mask_restores_prefilter_list_and_order() {
    let mut app = App::new(Vec::new());
    app.set_objects(vec![object("b/2"), object("a/1"), object("b/1")]);
    let before = keys(app.active_objects());
    app.apply_mask(Some(prefix_mask("b/")));
    assert_eq!(keys(app.active_objects()), vec!["b/2", "b/1"]);
    app.apply_mask(None);
    assert_eq!(keys(app.active_objects()), before);
    assert_eq!(keys(app.active_objects()), vec!["b/2", "a/1", "b/1"]);
}

#[test]
fn apply_mask_reports_match_count() {
    let mut app = App::new(Vec::new());
    app.set_objects(vec![object("b/2"), object("a/1"), object("b/1")]);
    app.apply_mask(Some(prefix_mask("b/")));
    assert_eq!(
        app.status.back().map(|s| s.as_str()),
        Some("Mask 'm' matched 2 objects")
    );
    app.apply_mask(Some(prefix_mask("zzz/")));
    assert_eq!(
        app.status.back().map(|s| s.as_str()),
        Some("Mask applied but matched no objects")
    );
    assert_eq!(target_count(&app), 0);
}

#[test]
fn status_log_is_a_bounded_ring_evicting_oldest_first() {
    let mut app = App::new(Vec::new());
    for i in 0..25 {
        app.push_status(&format!("line {i}"));
    }
    assert_eq!(app.status.len(), 20);
    assert_eq!(app.status.front().map(|s| s.as_str()), Some("line 5"));
    assert_eq!(app.status.back().map(|s| s.as_str()), Some("line 24"));
}

#[test]
fn movement_clamps_into_bounds_and_ignores_empty_lists() {
    let mut app = App::new(Vec::new());
    app.active_pane = ActivePane::Buckets;
    move_selection(&mut app, 3);
    assert_eq!(app.selected_bucket, 0);
    app.set_buckets(vec![bucket("a"), bucket("b"), bucket("c")]);
    move_selection(&mut app, 5);
    assert_eq!(app.selected_bucket, 2);
    move_selection(&mut app, -1);
    assert_eq!(app.selected_bucket, 1);
    move_selection(&mut app, -10);
    assert_eq!(app.selected_bucket, 0);
    jump_selection(&mut app, false);
    assert_eq!(app.selected_bucket, 2);
    jump_selection(&mut app, true);
    assert_eq!(app.selected_bucket, 0);
}

#[test]
fn object_movement_uses_the_active_list() {
    let mut app = App::new(Vec::new());
    app.active_pane = ActivePane::Objects;
    app.set_objects(vec![object("a/1"), object("b/1"), object("b/2")]);
    app.apply_mask(Some(prefix_mask("b/")));
    move_selection(&mut app, 9);
    assert_eq!(app.selected_object, 1);
}

#[test]
fn target_keys_are_all_matches_under_a_mask() {
    let mut app = App::new(Vec::new());
    app.set_objects(vec![object("a/1"), object("b/1"), object("b/2")]);
    app.apply_mask(Some(prefix_mask("b/")));
    assert_eq!(target_keys(&app), vec!["b/1", "b/2"]);
    assert_eq!(target_count(&app), 2);
}

#[test]
fn target_keys_is_the_cursor_row_without_a_mask() {
    let mut app = App::new(Vec::new());
    app.set_objects(vec![object("a/1"), object("b/1")]);
    app.selected_object = 1;
    assert_eq!(target_keys(&app), vec!["b/1"]);
    assert_eq!(target_count(&app), 1);
}

#[test]
fn target_keys_is_empty_when_cursor_is_out_of_range() {
    let mut app = App::new(Vec::new());
    assert!(target_keys(&app).is_empty());
    assert_eq!(target_count(&app), 0);
}

#[test]
fn pane_focus_cycles_in_both_directions() {
    let mut app = App::new(Vec::new());
    assert_eq!(app.active_pane, ActivePane::Buckets);
    app.next_pane();
    assert_eq!(app.active_pane, ActivePane::Objects);
    app.next_pane();
    assert_eq!(app.active_pane, ActivePane::MaskEditor);
    app.next_pane();
    assert_eq!(app.active_pane, ActivePane::Policies);
    app.next_pane();
    assert_eq!(app.active_pane, ActivePane::Buckets);
    app.previous_pane();
    assert_eq!(app.active_pane, ActivePane::Policies);
}
