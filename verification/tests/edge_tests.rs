use tiermask::app::{App, AppMode, MaskEditorField};
use tiermask::events::{handle_key_event, Key};
use tiermask::listing::sort_buckets;
use tiermask::models::{format_size, BucketInfo};
use tiermask::policy::PolicyStore;

fn bucket(name: &str) -> BucketInfo {
    BucketInfo {
        name: name.to_string(),
        region: None,
        creation_date: None,
    }
}

#[test]
fn largest_size_renders_without_overflow() {
    assert_eq!(format_size(i64::MAX), "8589934592.00 GB");
}

#[test]
fn sorting_keeps_buckets_with_equal_names() {
    let sorted = sort_buckets(vec![bucket("x"), bucket("a"), bucket("x"), bucket("a")]);
    let names: Vec<&str> = sorted.iter().map(|b| b.name.as_str()).collect();
    assert_eq!(names, vec!["a", "a", "x", "x"]);
}

#[test]
fn sorting_an_empty_listing_is_empty() {
    assert!(sort_buckets(Vec::new()).is_empty());
}

#[test]
fn backspace_on_an_empty_draft_changes_nothing() {
    let mut app = App::new(Vec::new());
    let mut store = PolicyStore::with_policies(Vec::new());
    handle_key_event(Key::Char('m'), &mut app, &mut store);
    assert_eq!(app.mode, AppMode::EditingMask);
    assert_eq!(app.mask_draft.pattern, "");
    handle_key_event(Key::Backspace, &mut app, &mut store);
    assert_eq!(app.mask_draft.pattern, "");
}

#[test]
fn editor_field_focus_cycles_both_ways() {
    assert_eq!(MaskEditorField::Name.next(), MaskEditorField::Pattern);
    assert_eq!(MaskEditorField::Pattern.next(), MaskEditorField::Mode);
    assert_eq!(MaskEditorField::Mode.next(), MaskEditorField::Case);
    assert_eq!(MaskEditorField::Case.next(), MaskEditorField::Name);
    assert_eq!(MaskEditorField::Name.previous(), MaskEditorField::Case);
    assert_eq!(MaskEditorField::Case.previous(), MaskEditorField::Mode);
    assert_eq!(MaskEditorField::Mode.previous(), MaskEditorField::Pattern);
    assert_eq!(MaskEditorField::Pattern.previous(), MaskEditorField::Name);
}

#[test]
fn editing_the_mask_name_appends_and_spaces() {
    let mut app = App::new(Vec::new());
    let mut store = PolicyStore::with_policies(Vec::new());
    handle_key_event(Key::Char('m'), &mut app, &mut store);
    handle_key_event(Key::BackTab, &mut app, &mut store);
    assert_eq!(app.mask_field, MaskEditorField::Name);
    handle_key_event(Key::Backspace, &mut app, &mut store);
    assert_eq!(app.mask_draft.name, "Untitled mas");
    handle_key_event(Key::Char('k'), &mut app, &mut store);
    handle_key_event(Key::Char(' '), &mut app, &mut store);
    handle_key_event(Key::Char('2'), &mut app, &mut store);
    assert_eq!(app.mask_draft.name, "Untitled mask 2");
}

#[test]
fn cancelling_the_editor_keeps_the_draft_but_leaves_the_mode() {
    let mut app = App::new(Vec::new());
    let mut store = PolicyStore::with_policies(Vec::new());
    handle_key_event(Key::Char('m'), &mut app, &mut store);
    handle_key_event(Key::Char('x'), &mut app, &mut store);
    handle_key_event(Key::Esc, &mut app, &mut store);
    assert_eq!(app.mode, AppMode::Browsing);
    assert!(app.active_mask.is_none());
    assert_eq!(
        app.status.back().map(|s| s.as_str()),
        Some("Mask edit cancelled")
    );
}
