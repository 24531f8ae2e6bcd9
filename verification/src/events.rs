//! The interaction state machine: a pure transition function from the
//! current console state and one key event to the next state and at most one
//! outside effect. The surrounding loop performs the effect (a backend call,
//! a durable write) and feeds results back through the orchestrator.

use vstd::prelude::*;

use crate::app::{ActivePane, App, AppMode, MaskDraft, MaskEditorField, PendingAction,
    status_after_push, status_views, StorageIntent};
use crate::mask::MaskKind;
use crate::models::StorageClassTier;
use crate::policy::{clone_policies, MigrationPolicy, PolicyStore};
use crate::selection::{target_count, target_count_spec};
use vstd::string::{StringExecFns, StrSliceExecFns};

verus! {

/// Relies on String::push: appends one character.
pub assume_specification[ String::push ](s: &mut String, ch: char)
    ensures
        final(s)@ == old(s)@.push(ch),
;

/// The keys the state machine distinguishes. The surrounding loop maps its
/// input library's events onto these.
#[derive(Clone, Copy, Debug, PartialEq, Eq, Structural)]
pub enum Key {
    Esc,
    Enter,
    Tab,
    BackTab,
    Up,
    Down,
    Left,
    Right,
    PageUp,
    PageDown,
    Home,
    End,
    Backspace,
    Char(char),
    Other,
}

/// The one outside effect a transition may request. The loop performs it and
/// reports outcomes back.
pub enum Effect {
    /// Fetch the bucket listing again.
    RefreshBuckets,
    /// Fetch the object listing of this bucket.
    LoadObjects { bucket: String },
    /// Re-fetch one object's metadata, including its restore status.
    RefreshObject { bucket: String, key: String },
    /// Execute a confirmed transition batch.
    RunTransition { target_class: StorageClassTier, restore_first: bool },
    /// Execute a confirmed restore batch.
    RunRestore { days: i32 },
    /// Append this record to the durable policy log.
    PersistPolicy { policy: MigrationPolicy },
    /// Leave the interactive loop.
    Quit,
}

/// Drops the last character of `s`, if any.
pub fn pop_char(s: &String) -> (r: String)
    ensures
        r@ == if s@.len() == 0 {
            s@
        } else {
            s@.drop_last()
        },
{
    let n = s.as_str().unicode_len();
    if n == 0 {
        s.clone()
    } else {
        let trimmed = s.as_str().substring_char(0, n - 1);
        proof {
            assert(trimmed@ =~= s@.drop_last());
        }
        trimmed.to_owned()
    }
}

/// Whether a storage-class selection may begin for this intent.
pub open spec fn begin_selection_ok(a: App, intent: StorageIntent) -> bool {
    a.selected_bucket < a.buckets@.len() && match intent {
        StorageIntent::Transition => target_count_spec(a) > 0,
        StorageIntent::SavePolicy => a.active_mask is Some,
    }
}

/// Why it may not.
pub open spec fn begin_selection_err_msg(a: App, intent: StorageIntent) -> Seq<char> {
    if a.selected_bucket >= a.buckets@.len() {
        "Select a bucket first"@
    } else {
        match intent {
            StorageIntent::Transition => "Select at least one object (mask or row)"@,
            StorageIntent::SavePolicy => "Apply a mask before saving a policy"@,
        }
    }
}

/// Enters storage-class selection for a transition or a policy save. A
/// transition needs a selected bucket and at least one target object; a
/// policy save needs a selected bucket and an active mask. A refused entry
/// changes nothing.
pub fn begin_storage_selection(app: &mut App, intent: StorageIntent) -> (r: Result<
    (),
    &'static str,
>)
    requires
        old(app).wf(),
    ensures
        final(app).wf(),
        r is Ok <==> begin_selection_ok(*old(app), intent),
        r is Ok ==> *final(app) == (App {
            storage_intent: intent,
            storage_class_cursor: 0,
            mode: AppMode::SelectingStorageClass,
            ..*old(app)
        }),
        r matches Err(e) ==> *final(app) == *old(app) && e@ == begin_selection_err_msg(
            *old(app),
            intent,
        ),
{
    if app.selected_bucket >= app.buckets.len() {
        return Err("Select a bucket first");
    }
    match intent {
        StorageIntent::Transition => {
            if target_count(app) == 0 {
                return Err("Select at least one object (mask or row)");
            }
        },
        StorageIntent::SavePolicy => {
            if app.active_mask.is_none() {
                return Err("Apply a mask before saving a policy");
            }
        },
    }
    app.storage_intent = intent;
    app.storage_class_cursor = 0;
    app.set_mode(AppMode::SelectingStorageClass);
    Ok(())
}

/// Captures a restore intent with the default duration of seven days and
/// asks for confirmation; needs a selected bucket and at least one target.
pub fn initiate_restore_flow(app: &mut App) -> (r: Result<(), &'static str>)
    requires
        old(app).wf(),
    ensures
        final(app).wf(),
        r is Ok <==> old(app).selected_bucket < old(app).buckets@.len() && target_count_spec(
            *old(app),
        ) > 0,
        r is Ok ==> final(app).pending_action == Some(
            PendingAction::Restore { days: 7 },
        ) && final(app).mode == AppMode::Confirming && *final(app) == (App {
            pending_action: final(app).pending_action,
            mode: final(app).mode,
            status: final(app).status,
            ..*old(app)
        }) && status_views(final(app).status@) == status_after_push(
            status_views(old(app).status@),
            "Confirm restore request (Enter to proceed, Esc to cancel)"@,
        ),
        r matches Err(e) ==> *final(app) == *old(app) && e@
            == "Select objects to restore first"@,
{
    if app.selected_bucket >= app.buckets.len() || target_count(app) == 0 {
        return Err("Select objects to restore first");
    }
    app.pending_action = Some(PendingAction::Restore { days: 7 });
    app.set_mode(AppMode::Confirming);
    app.push_status("Confirm restore request (Enter to proceed, Esc to cancel)");
    Ok(())
}

/// What a successful policy save does: the record appended to the store
/// mirror, the mirror reflected into the visible policy list, and a
/// confirmation line in the status feed.
pub open spec fn policy_saved(
    pre_app: App,
    pre_store: PolicyStore,
    t: StorageClassTier,
    post_app: App,
    post_store: PolicyStore,
    p: MigrationPolicy,
) -> bool {
    &&& pre_app.selected_bucket < pre_app.buckets@.len()
    &&& pre_app.active_mask is Some
    &&& p.bucket@ == pre_app.buckets@[pre_app.selected_bucket as int].name@
    &&& p.mask == pre_app.active_mask.unwrap()
    &&& p.target_storage_class == t
    &&& !p.scheduled
    &&& p.schedule is None
    &&& post_store.policies@ == pre_store.policies@.push(p)
    &&& post_app.policies@ == post_store.policies@
    &&& status_views(post_app.status@) == status_after_push(
        status_views(pre_app.status@),
        "Policy saved"@,
    )
    &&& post_app == (App {
        policies: post_app.policies,
        status: post_app.status,
        ..pre_app
    })
}

/// Persists the current mask and bucket as a policy with the chosen target
/// tier. Re-validates at execution time: without a selected bucket and an
/// active mask the save fails and neither the store nor the visible policy
/// list is touched. The returned record is the caller's to append to the
/// durable log.
pub fn save_policy(app: &mut App, store: &mut PolicyStore, target_class: StorageClassTier) -> (r:
    Result<MigrationPolicy, &'static str>)
    requires
        old(app).wf(),
    ensures
        final(app).wf(),
        r is Ok <==> old(app).selected_bucket < old(app).buckets@.len() && old(
            app,
        ).active_mask is Some,
        r matches Ok(p) ==> policy_saved(
            *old(app),
            *old(store),
            target_class,
            *final(app),
            *final(store),
            p,
        ),
        r matches Err(e) ==> *final(app) == *old(app) && *final(store) == *old(store) && e@ == (
        if old(app).selected_bucket >= old(app).buckets@.len() {
            "Select a bucket before saving policy"@
        } else {
            "Apply a mask before saving policy"@
        }),
{
    let bucket = match app.selected_bucket_name() {
        Some(n) => n.to_owned(),
        None => {
            return Err("Select a bucket before saving policy");
        },
    };
    let mask = match &app.active_mask {
        Some(m) => m.clone(),
        None => {
            return Err("Apply a mask before saving policy");
        },
    };
    let policy = MigrationPolicy::new(bucket, mask, target_class, false, None);
    store.add(policy.clone());
    app.policies = clone_policies(&store.policies);
    app.push_status("Policy saved");
    Ok(policy)
}

/// The draft's match kind stepped forward.
pub open spec fn kind_forward(k: MaskKind) -> MaskKind {
    match k {
        MaskKind::Prefix => MaskKind::Suffix,
        MaskKind::Suffix => MaskKind::Contains,
        MaskKind::Contains => MaskKind::Regex,
        MaskKind::Regex => MaskKind::Prefix,
    }
}

/// The draft's match kind stepped backwards.
pub open spec fn kind_backward(k: MaskKind) -> MaskKind {
    match k {
        MaskKind::Prefix => MaskKind::Regex,
        MaskKind::Suffix => MaskKind::Prefix,
        MaskKind::Contains => MaskKind::Suffix,
        MaskKind::Regex => MaskKind::Contains,
    }
}

/// `post` differs from `pre` only by one appended status line `m`.
pub open spec fn only_status(pre: App, m: Seq<char>, post: App) -> bool {
    &&& post == (App { status: post.status, ..pre })
    &&& status_views(post.status@) == status_after_push(status_views(pre.status@), m)
}

/// `post` is `pre` with an updated draft (and nothing else).
pub open spec fn only_draft(pre: App, post: App) -> bool {
    post == (App { mask_draft: post.mask_draft, ..pre })
}

/// One step of the mask editor. Confirming an empty pattern, or a regex
/// pattern the engine refuses, emits a validation line and changes nothing
/// else: an invalid mask never becomes active. Confirming a valid draft
/// compiles it, applies it through the selection model and returns to
/// browsing.
pub open spec fn mask_editor_step(pre: App, key: Key, post: App) -> bool {
    match key {
        Key::Esc => {
            &&& post == (App { mode: AppMode::Browsing, status: post.status, ..pre })
            &&& status_views(post.status@) == status_after_push(
                status_views(pre.status@),
                "Mask edit cancelled"@,
            )
        },
        Key::Enter => {
            let d = pre.mask_draft;
            if d.pattern@.len() == 0 {
                only_status(pre, "Mask pattern cannot be empty"@, post)
            } else if d.kind is Regex && !crate::mask::regex_builds(d.pattern@, !d.case_sensitive) {
                only_status(pre, "Mask pattern is not a valid regular expression"@, post)
            } else {
                &&& post.mode == AppMode::Browsing
                &&& post.active_mask matches Some(m) && m.name == d.name && m.pattern == d.pattern
                    && m.kind == d.kind && m.case_sensitive == d.case_sensitive
                &&& post.filtered_objects@ == crate::app::filtered_by(
                    pre.objects@,
                    post.active_mask.unwrap(),
                )
                &&& post.selected_object == 0
                &&& status_views(post.status@) == status_after_push(
                    status_views(pre.status@),
                    crate::app::mask_applied_message(
                        post.active_mask.unwrap(),
                        post.filtered_objects@.len(),
                    ),
                )
                &&& post == (App {
                    mode: post.mode,
                    active_mask: post.active_mask,
                    filtered_objects: post.filtered_objects,
                    selected_object: post.selected_object,
                    status: post.status,
                    ..pre
                })
            }
        },
        Key::Tab => post == (App { mask_field: pre.mask_field.next_field_spec(), ..pre }),
        Key::BackTab => post == (App { mask_field: pre.mask_field.previous_field_spec(), ..pre }),
        Key::Backspace => match pre.mask_field {
            MaskEditorField::Name => {
                &&& only_draft(pre, post)
                &&& post.mask_draft == (MaskDraft { name: post.mask_draft.name, ..pre.mask_draft })
                &&& post.mask_draft.name@ == if pre.mask_draft.name@.len() == 0 {
                    pre.mask_draft.name@
                } else {
                    pre.mask_draft.name@.drop_last()
                }
            },
            MaskEditorField::Pattern => {
                &&& only_draft(pre, post)
                &&& post.mask_draft == (MaskDraft {
                    pattern: post.mask_draft.pattern,
                    ..pre.mask_draft
                })
                &&& post.mask_draft.pattern@ == if pre.mask_draft.pattern@.len() == 0 {
                    pre.mask_draft.pattern@
                } else {
                    pre.mask_draft.pattern@.drop_last()
                }
            },
            _ => post == pre,
        },
        Key::Left => if pre.mask_field is Mode {
            post == (App {
                mask_draft: (MaskDraft { kind: kind_backward(pre.mask_draft.kind), ..pre.mask_draft
                }),
                ..pre
            })
        } else {
            post == pre
        },
        Key::Right => if pre.mask_field is Mode {
            post == (App {
                mask_draft: (MaskDraft { kind: kind_forward(pre.mask_draft.kind), ..pre.mask_draft
                }),
                ..pre
            })
        } else {
            post == pre
        },
        Key::Char(c) => if c == ' ' {
            match pre.mask_field {
                MaskEditorField::Mode => post == (App {
                    mask_draft: (MaskDraft {
                        kind: kind_forward(pre.mask_draft.kind),
                        ..pre.mask_draft
                    }),
                    ..pre
                }),
                MaskEditorField::Case => post == (App {
                    mask_draft: (MaskDraft {
                        case_sensitive: !pre.mask_draft.case_sensitive,
                        ..pre.mask_draft
                    }),
                    ..pre
                }),
                MaskEditorField::Name => only_draft(pre, post) && post.mask_draft == (MaskDraft {
                    name: post.mask_draft.name,
                    ..pre.mask_draft
                }) && post.mask_draft.name@ == pre.mask_draft.name@.push(' '),
                MaskEditorField::Pattern => only_draft(pre, post) && post.mask_draft == (MaskDraft {
                    pattern: post.mask_draft.pattern,
                    ..pre.mask_draft
                }) && post.mask_draft.pattern@ == pre.mask_draft.pattern@.push(' '),
            }
        } else if c == 'c' {
            post == (App {
                mask_draft: (MaskDraft {
                    case_sensitive: !pre.mask_draft.case_sensitive,
                    ..pre.mask_draft
                }),
                mask_field: MaskEditorField::Case,
                ..pre
            })
        } else {
            match pre.mask_field {
                MaskEditorField::Name => only_draft(pre, post) && post.mask_draft == (MaskDraft {
                    name: post.mask_draft.name,
                    ..pre.mask_draft
                }) && post.mask_draft.name@ == pre.mask_draft.name@.push(c),
                MaskEditorField::Pattern => only_draft(pre, post) && post.mask_draft == (MaskDraft {
                    pattern: post.mask_draft.pattern,
                    ..pre.mask_draft
                }) && post.mask_draft.pattern@ == pre.mask_draft.pattern@.push(c),
                _ => post == pre,
            }
        },
        _ => post == pre,
    }
}

/// Handles one key while the mask editor is open.
pub fn handle_mask_editor_keys(key: Key, app: &mut App)
    requires
        old(app).wf(),
    ensures
        final(app).wf(),
        mask_editor_step(*old(app), key, *final(app)),
{
    match key {
        Key::Esc => {
            app.set_mode(AppMode::Browsing);
            app.push_status("Mask edit cancelled");
        },
        Key::Enter => {
            if app.mask_draft.pattern.as_str().is_empty() {
                app.push_status("Mask pattern cannot be empty");
                return ;
            }
            match crate::mask::ObjectMask::compile(
                app.mask_draft.name.clone(),
                app.mask_draft.pattern.clone(),
                app.mask_draft.kind,
                app.mask_draft.case_sensitive,
            ) {
                Ok(m) => {
                    app.apply_mask(Some(m));
                    app.set_mode(AppMode::Browsing);
                },
                Err(e) => {
                    app.push_status(e.message());
                },
            }
        },
        Key::Tab => {
            app.next_mask_field();
        },
        Key::BackTab => {
            app.previous_mask_field();
        },
        Key::Backspace => {
            match app.mask_field {
                MaskEditorField::Name => {
                    app.mask_draft.name = pop_char(&app.mask_draft.name);
                },
                MaskEditorField::Pattern => {
                    app.mask_draft.pattern = pop_char(&app.mask_draft.pattern);
                },
                _ => {},
            }
        },
        Key::Left => {
            if matches!(app.mask_field, MaskEditorField::Mode) {
                app.cycle_mask_kind_backwards();
            }
        },
        Key::Right => {
            if matches!(app.mask_field, MaskEditorField::Mode) {
                app.cycle_mask_kind();
            }
        },
        Key::Char(c) => {
            if c == ' ' {
                match app.mask_field {
                    MaskEditorField::Mode => app.cycle_mask_kind(),
                    MaskEditorField::Case => app.toggle_mask_case(),
                    MaskEditorField::Name => app.mask_draft.name.push(' '),
                    MaskEditorField::Pattern => app.mask_draft.pattern.push(' '),
                }
            } else if c == 'c' {
                app.toggle_mask_case();
                app.focus_mask_field(MaskEditorField::Case);
            } else {
                match app.mask_field {
                    MaskEditorField::Name => app.mask_draft.name.push(c),
                    MaskEditorField::Pattern => app.mask_draft.pattern.push(c),
                    _ => {},
                }
            }
        },
        _ => {},
    }
}

/// One step of the storage-class selector: the cursor moves within the
/// selectable tiers, and a confirmed choice captures the pending action the
/// current intent calls for and asks for confirmation.
pub open spec fn storage_selector_step(pre: App, key: Key, post: App) -> bool {
    match key {
        Key::Esc => post == (App { mode: AppMode::Browsing, ..pre }),
        Key::Up => post == (App {
            storage_class_cursor: if pre.storage_class_cursor > 0 {
                (pre.storage_class_cursor - 1) as usize
            } else {
                pre.storage_class_cursor
            },
            ..pre
        }),
        Key::Down => post == (App {
            storage_class_cursor: if pre.storage_class_cursor + 1
                < StorageClassTier::selectable_spec().len() {
                (pre.storage_class_cursor + 1) as usize
            } else {
                pre.storage_class_cursor
            },
            ..pre
        }),
        Key::Enter => {
            if pre.storage_class_cursor < StorageClassTier::selectable_spec().len() {
                let tier = StorageClassTier::selectable_spec()[pre.storage_class_cursor as int];
                match pre.storage_intent {
                    StorageIntent::Transition => {
                        &&& post == (App {
                            pending_action: Some(
                                PendingAction::Transition {
                                    target_class: tier,
                                    restore_first: false,
                                },
                            ),
                            mode: AppMode::Confirming,
                            status: post.status,
                            ..pre
                        })
                        &&& status_views(post.status@) == status_after_push(
                            status_views(pre.status@),
                            "Confirm transition to "@ + tier.label_spec()
                                + " (press Enter to confirm)"@,
                        )
                    },
                    StorageIntent::SavePolicy => {
                        &&& post == (App {
                            pending_action: Some(PendingAction::SavePolicy { target_class: tier }),
                            mode: AppMode::Confirming,
                            status: post.status,
                            ..pre
                        })
                        &&& status_views(post.status@) == status_after_push(
                            status_views(pre.status@),
                            "Confirm saving policy"@,
                        )
                    },
                }
            } else {
                post == pre
            }
        },
        _ => post == pre,
    }
}

/// A cancelled confirmation: the pending action is discarded and the mode
/// returns to browsing.
pub open spec fn cancel_post(pre: App, post: App) -> bool {
    &&& post == (App {
        pending_action: None,
        mode: AppMode::Browsing,
        status: post.status,
        ..pre
    })
    &&& status_views(post.status@) == status_after_push(status_views(pre.status@), "Cancelled"@)
}

/// A confirmed policy save, re-validated at execution time: with a bucket
/// and an active mask the record is appended and handed out for the durable
/// log; without them the store is untouched and only a validation line is
/// emitted. Either way the pending action is consumed.
pub open spec fn save_policy_confirm_post(
    pre_app: App,
    pre_store: PolicyStore,
    t: StorageClassTier,
    post_app: App,
    post_store: PolicyStore,
    r: Option<Effect>,
) -> bool {
    if pre_app.selected_bucket < pre_app.buckets@.len() && pre_app.active_mask is Some {
        &&& post_store.policies@.len() == pre_store.policies@.len() + 1
        &&& post_store.policies@ == pre_store.policies@.push(post_store.policies@.last())
        &&& post_store.policies@.last().bucket@ == pre_app.buckets@[pre_app.selected_bucket as int].name@
        &&& post_store.policies@.last().mask == pre_app.active_mask.unwrap()
        &&& post_store.policies@.last().target_storage_class == t
        &&& !post_store.policies@.last().scheduled
        &&& post_store.policies@.last().schedule is None
        &&& post_app.policies@ == post_store.policies@
        &&& status_views(post_app.status@) == status_after_push(
            status_views(pre_app.status@),
            "Policy saved"@,
        )
        &&& post_app == (App {
            pending_action: None,
            mode: AppMode::Browsing,
            policies: post_app.policies,
            status: post_app.status,
            ..pre_app
        })
        &&& r matches Some(Effect::PersistPolicy { policy }) && policy
            == post_store.policies@.last()
    } else {
        &&& post_store == pre_store
        &&& status_views(post_app.status@) == status_after_push(
            status_views(pre_app.status@),
            "Cannot save policy: "@ + (if pre_app.selected_bucket >= pre_app.buckets@.len() {
                "Select a bucket before saving policy"@
            } else {
                "Apply a mask before saving policy"@
            }),
        )
        &&& post_app == (App {
            pending_action: None,
            mode: AppMode::Browsing,
            status: post_app.status,
            ..pre_app
        })
        &&& r is None
    }
}

/// A confirmed pending action: it is consumed, the mode returns to browsing
/// whatever the outcome, and the action's execution is requested (a batch
/// effect) or, for a policy save, performed against the store.
pub open spec fn confirm_post(
    pre_app: App,
    pre_store: PolicyStore,
    post_app: App,
    post_store: PolicyStore,
    r: Option<Effect>,
) -> bool {
    match pre_app.pending_action {
        None => post_app == (App { mode: AppMode::Browsing, ..pre_app }) && post_store == pre_store
            && r is None,
        Some(PendingAction::Transition { target_class, restore_first }) => {
            &&& post_app == (App {
                pending_action: None,
                mode: AppMode::Browsing,
                ..pre_app
            })
            &&& post_store == pre_store
            &&& r matches Some(Effect::RunTransition { target_class: t2, restore_first: r2 }) && t2
                == target_class && r2 == restore_first
        },
        Some(PendingAction::Restore { days }) => {
            &&& post_app == (App {
                pending_action: None,
                mode: AppMode::Browsing,
                ..pre_app
            })
            &&& post_store == pre_store
            &&& r matches Some(Effect::RunRestore { days: d2 }) && d2 == days
        },
        Some(PendingAction::SavePolicy { target_class }) => save_policy_confirm_post(
            pre_app,
            pre_store,
            target_class,
            post_app,
            post_store,
            r,
        ),
    }
}

/// One step of the confirmation dialog. After any confirm or cancel the
/// pending action is gone; the restore-first toggle flips only a pending
/// transition and leaves everything else in place.
pub open spec fn confirmation_step(
    pre_app: App,
    pre_store: PolicyStore,
    key: Key,
    post_app: App,
    post_store: PolicyStore,
    r: Option<Effect>,
) -> bool {
    match key {
        Key::Esc => cancel_post(pre_app, post_app) && post_store == pre_store && r is None,
        Key::Enter => confirm_post(pre_app, pre_store, post_app, post_store, r),
        Key::Char(c) => if c == 'n' {
            cancel_post(pre_app, post_app) && post_store == pre_store && r is None
        } else if c == 'y' {
            confirm_post(pre_app, pre_store, post_app, post_store, r)
        } else if c == 'o' {
            match pre_app.pending_action {
                Some(PendingAction::Transition { target_class, restore_first }) => {
                    &&& post_app == (App {
                        pending_action: Some(
                            PendingAction::Transition {
                                target_class,
                                restore_first: !restore_first,
                            },
                        ),
                        status: post_app.status,
                        ..pre_app
                    })
                    &&& status_views(post_app.status@) == status_after_push(
                        status_views(pre_app.status@),
                        if !restore_first {
                            "Will request restore before transition"@
                        } else {
                            "Restore before transition disabled"@
                        },
                    )
                    &&& post_store == pre_store
                    &&& r is None
                },
                _ => post_app == pre_app && post_store == pre_store && r is None,
            }
        } else {
            post_app == pre_app && post_store == pre_store && r is None
        },
        _ => post_app == pre_app && post_store == pre_store && r is None,
    }
}

/// Handles one key while a pending action awaits confirmation.
pub fn handle_confirmation_keys(key: Key, app: &mut App, store: &mut PolicyStore) -> (r: Option<
    Effect,
>)
    requires
        old(app).wf(),
    ensures
        final(app).wf(),
        confirmation_step(*old(app), *old(store), key, *final(app), *final(store), r),
{
    let cancel: bool = match key {
        Key::Esc => true,
        Key::Char(c) => c == 'n',
        _ => false,
    };
    if cancel {
        app.pending_action = None;
        app.set_mode(AppMode::Browsing);
        app.push_status("Cancelled");
        return None;
    }
    let confirm: bool = match key {
        Key::Enter => true,
        Key::Char(c) => c == 'y',
        _ => false,
    };
    if confirm {
        let action = app.pending_action;
        app.pending_action = None;
        let effect: Option<Effect> = match action {
            None => None,
            Some(PendingAction::Transition { target_class, restore_first }) => Some(
                Effect::RunTransition { target_class, restore_first },
            ),
            Some(PendingAction::Restore { days }) => Some(Effect::RunRestore { days }),
            Some(PendingAction::SavePolicy { target_class }) => {
                match save_policy(app, store, target_class) {
                    Ok(policy) => Some(Effect::PersistPolicy { policy }),
                    Err(e) => {
                        let mut msg = String::from_str("Cannot save policy: ");
                        msg.append(e);
                        app.push_status(msg.as_str());
                        None
                    },
                }
            },
        };
        app.set_mode(AppMode::Browsing);
        return effect;
    }
    let toggle: bool = match key {
        Key::Char(c) => c == 'o',
        _ => false,
    };
    if toggle {
        match app.pending_action {
            Some(PendingAction::Transition { target_class, restore_first }) => {
                app.pending_action = Some(
                    PendingAction::Transition { target_class, restore_first: !restore_first },
                );
                if !restore_first {
                    app.push_status("Will request restore before transition");
                } else {
                    app.push_status("Restore before transition disabled");
                }
            },
            _ => {},
        }
    }
    None
}

/// Handles one key while the storage-class selector is open.
pub fn handle_storage_class_selector(key: Key, app: &mut App)
    requires
        old(app).wf(),
    ensures
        final(app).wf(),
        storage_selector_step(*old(app), key, *final(app)),
{
    match key {
        Key::Esc => {
            app.set_mode(AppMode::Browsing);
        },
        Key::Up => {
            if app.storage_class_cursor > 0 {
                app.storage_class_cursor = app.storage_class_cursor - 1;
            }
        },
        Key::Down => {
            let classes = StorageClassTier::selectable();
            if app.storage_class_cursor < classes.len() - 1 {
                app.storage_class_cursor = app.storage_class_cursor + 1;
            }
        },
        Key::Enter => {
            let classes = StorageClassTier::selectable();
            if app.storage_class_cursor < classes.len() {
                let selected = classes[app.storage_class_cursor];
                match app.storage_intent {
                    StorageIntent::Transition => {
                        app.pending_action = Some(
                            PendingAction::Transition {
                                target_class: selected,
                                restore_first: false,
                            },
                        );
                        app.set_mode(AppMode::Confirming);
                        let mut msg = String::from_str("Confirm transition to ");
                        msg.append(selected.label());
                        msg.append(" (press Enter to confirm)");
                        app.push_status(msg.as_str());
                    },
                    StorageIntent::SavePolicy => {
                        app.pending_action = Some(
                            PendingAction::SavePolicy { target_class: selected },
                        );
                        app.set_mode(AppMode::Confirming);
                        app.push_status("Confirm saving policy");
                    },
                }
            }
        },
        _ => {},
    }
}

/// An uncompilable regex pattern never becomes the active mask: confirming
/// a draft whose pattern the engine refuses leaves the selection model's
/// active mask and its filtered subset untouched.
pub proof fn lemma_invalid_regex_never_active(pre: App, post: App)
    requires
        pre.mask_draft.kind is Regex,
        pre.mask_draft.pattern@.len() > 0,
        !crate::mask::regex_builds(pre.mask_draft.pattern@, !pre.mask_draft.case_sensitive),
        mask_editor_step(pre, Key::Enter, post),
    ensures
        post.active_mask == pre.active_mask,
        post.filtered_objects == pre.filtered_objects,
        post.mode == pre.mode,
{
}

/// The pending action is exclusive and short-lived: after any confirm or
/// cancel step of the confirmation dialog, none is left.
pub proof fn lemma_pending_action_consumed(
    pre_app: App,
    pre_store: PolicyStore,
    key: Key,
    post_app: App,
    post_store: PolicyStore,
    r: Option<Effect>,
)
    requires
        confirmation_step(pre_app, pre_store, key, post_app, post_store, r),
        key == Key::Enter || key == Key::Esc || key == Key::Char('y') || key == Key::Char('n'),
    ensures
        post_app.pending_action is None,
{
}

/// One step in browsing mode: pane focus and cursor movement, entry into
/// the mask editor, the selection flows and the overlays, the refresh and
/// load effects, and the quit signal (which fires from browsing only).
pub open spec fn browsing_step(pre: App, key: Key, post: App, r: Option<Effect>) -> bool {
    match key {
        Key::Tab => post == (App { active_pane: pre.active_pane.next_spec(), ..pre }) && r is None,
        Key::BackTab => post == (App { active_pane: pre.active_pane.previous_spec(), ..pre })
            && r is None,
        Key::Up => crate::selection::moved(pre, -1, post) && r is None,
        Key::Down => crate::selection::moved(pre, 1, post) && r is None,
        Key::PageUp => crate::selection::moved(pre, -5, post) && r is None,
        Key::PageDown => crate::selection::moved(pre, 5, post) && r is None,
        Key::Home => crate::selection::jumped(pre, true, post) && r is None,
        Key::End => crate::selection::jumped(pre, false, post) && r is None,
        Key::Enter => {
            &&& post == pre
            &&& if pre.active_pane is Buckets && pre.selected_bucket < pre.buckets@.len() {
                r matches Some(Effect::LoadObjects { bucket }) && bucket@
                    == pre.buckets@[pre.selected_bucket as int].name@
            } else {
                r is None
            }
        },
        Key::Esc => {
            if pre.active_mask is Some {
                &&& post == (App {
                    active_mask: None,
                    filtered_objects: post.filtered_objects,
                    status: post.status,
                    ..pre
                })
                &&& post.filtered_objects@.len() == 0
                &&& status_views(post.status@) == status_after_push(
                    status_views(pre.status@),
                    "Cleared mask filter"@,
                )
                &&& r is None
            } else {
                post == pre && r is None
            }
        },
        Key::Char(c) => {
            if c == 'q' {
                post == pre && r matches Some(Effect::Quit)
            } else if c == 'm' {
                &&& post.mode == AppMode::EditingMask
                &&& post.mask_field == MaskEditorField::Pattern
                &&& (if pre.active_mask is None {
                    post.mask_draft.name@ == "Untitled mask"@ && post.mask_draft.pattern@ == Seq::<
                        char,
                    >::empty() && post.mask_draft.kind == MaskKind::Prefix
                        && !post.mask_draft.case_sensitive
                } else {
                    post.mask_draft == pre.mask_draft
                })
                &&& status_views(post.status@) == status_after_push(
                    status_views(pre.status@),
                    "Mask editor active - Tab moves between fields, arrows/space adjust options, Enter applies"@,
                )
                &&& post == (App {
                    mode: post.mode,
                    mask_field: post.mask_field,
                    mask_draft: post.mask_draft,
                    status: post.status,
                    ..pre
                })
                &&& r is None
            } else if c == 'f' {
                &&& only_status(pre, "Refreshing buckets..."@, post)
                &&& r matches Some(Effect::RefreshBuckets)
            } else if c == 'i' {
                if pre.selected_bucket < pre.buckets@.len() && pre.selected_object
                    < pre.active_objects_spec().len() {
                    &&& post == pre
                    &&& r matches Some(Effect::RefreshObject { bucket, key }) && bucket@
                        == pre.buckets@[pre.selected_bucket as int].name@ && key@
                        == pre.active_objects_spec()[pre.selected_object as int].key@
                } else {
                    &&& only_status(
                        pre,
                        if pre.selected_bucket >= pre.buckets@.len() {
                            "Inspect failed: Select a bucket first"@
                        } else {
                            "Inspect failed: Select an object to inspect"@
                        },
                        post,
                    )
                    &&& r is None
                }
            } else if c == 's' {
                &&& r is None
                &&& if begin_selection_ok(pre, StorageIntent::Transition) {
                    post == (App {
                        storage_intent: StorageIntent::Transition,
                        storage_class_cursor: 0,
                        mode: AppMode::SelectingStorageClass,
                        ..pre
                    })
                } else {
                    only_status(
                        pre,
                        "Storage selection unavailable: "@ + begin_selection_err_msg(
                            pre,
                            StorageIntent::Transition,
                        ),
                        post,
                    )
                }
            } else if c == 'r' {
                &&& r is None
                &&& if pre.selected_bucket < pre.buckets@.len() && target_count_spec(pre) > 0 {
                    &&& post == (App {
                        pending_action: Some(PendingAction::Restore { days: 7 }),
                        mode: AppMode::Confirming,
                        status: post.status,
                        ..pre
                    })
                    &&& status_views(post.status@) == status_after_push(
                        status_views(pre.status@),
                        "Confirm restore request (Enter to proceed, Esc to cancel)"@,
                    )
                } else {
                    only_status(
                        pre,
                        "Cannot request restore: "@ + "Select objects to restore first"@,
                        post,
                    )
                }
            } else if c == 'p' {
                &&& r is None
                &&& if begin_selection_ok(pre, StorageIntent::SavePolicy) {
                    &&& post == (App {
                        storage_intent: StorageIntent::SavePolicy,
                        storage_class_cursor: 0,
                        mode: AppMode::SelectingStorageClass,
                        status: post.status,
                        ..pre
                    })
                    &&& status_views(post.status@) == status_after_push(
                        status_views(pre.status@),
                        "Select target storage class for policy"@,
                    )
                } else {
                    only_status(
                        pre,
                        "Cannot save policy: "@ + begin_selection_err_msg(
                            pre,
                            StorageIntent::SavePolicy,
                        ),
                        post,
                    )
                }
            } else if c == '?' {
                post == (App { mode: AppMode::ShowingHelp, ..pre }) && r is None
            } else if c == 'l' || c == 'L' {
                post == (App { mode: AppMode::ViewingLog, ..pre }) && r is None
            } else {
                post == pre && r is None
            }
        },
        _ => post == pre && r is None,
    }
}

/// Dispatches one key event against the current mode: the overlays close on
/// their keys, the modal editors and dialogs take every key, and browsing
/// mode is the only place the quit signal fires.
pub fn handle_key_event(key: Key, app: &mut App, store: &mut PolicyStore) -> (r: Option<Effect>)
    requires
        old(app).wf(),
    ensures
        final(app).wf(),
        match old(app).mode {
            AppMode::ShowingHelp => *final(store) == *old(store) && r is None && (if key == Key::Esc
                || key == Key::Enter || key == Key::Char('?') {
                *final(app) == (App { mode: AppMode::Browsing, ..*old(app) })
            } else {
                *final(app) == *old(app)
            }),
            AppMode::ViewingLog => *final(store) == *old(store) && r is None && (if key == Key::Esc
                || key == Key::Enter || key == Key::Char('l') || key == Key::Char('L') {
                *final(app) == (App { mode: AppMode::Browsing, ..*old(app) })
            } else {
                *final(app) == *old(app)
            }),
            AppMode::EditingMask => *final(store) == *old(store) && r is None && mask_editor_step(
                *old(app),
                key,
                *final(app),
            ),
            AppMode::SelectingStorageClass => *final(store) == *old(store) && r is None
                && storage_selector_step(*old(app), key, *final(app)),
            AppMode::Confirming => confirmation_step(
                *old(app),
                *old(store),
                key,
                *final(app),
                *final(store),
                r,
            ),
            AppMode::Browsing => *final(store) == *old(store) && browsing_step(
                *old(app),
                key,
                *final(app),
                r,
            ),
        },
{
    match app.mode {
        AppMode::ShowingHelp => {
            let close: bool = match key {
                Key::Esc | Key::Enter => true,
                Key::Char(c) => c == '?',
                _ => false,
            };
            if close {
                app.set_mode(AppMode::Browsing);
            }
            return None;
        },
        AppMode::ViewingLog => {
            let close: bool = match key {
                Key::Esc | Key::Enter => true,
                Key::Char(c) => c == 'l' || c == 'L',
                _ => false,
            };
            if close {
                app.set_mode(AppMode::Browsing);
            }
            return None;
        },
        AppMode::EditingMask => {
            handle_mask_editor_keys(key, app);
            return None;
        },
        AppMode::SelectingStorageClass => {
            handle_storage_class_selector(key, app);
            return None;
        },
        AppMode::Confirming => {
            return handle_confirmation_keys(key, app, store);
        },
        AppMode::Browsing => {},
    }
    match key {
        Key::Tab => {
            app.next_pane();
            None
        },
        Key::BackTab => {
            app.previous_pane();
            None
        },
        Key::Up => {
            crate::selection::move_selection(app, -1);
            None
        },
        Key::Down => {
            crate::selection::move_selection(app, 1);
            None
        },
        Key::PageUp => {
            crate::selection::move_selection(app, -5);
            None
        },
        Key::PageDown => {
            crate::selection::move_selection(app, 5);
            None
        },
        Key::Home => {
            crate::selection::jump_selection(app, true);
            None
        },
        Key::End => {
            crate::selection::jump_selection(app, false);
            None
        },
        Key::Enter => {
            if matches!(app.active_pane, ActivePane::Buckets) {
                match app.selected_bucket_name() {
                    Some(n) => {
                        let bucket = n.to_owned();
                        Some(Effect::LoadObjects { bucket })
                    },
                    None => None,
                }
            } else {
                None
            }
        },
        Key::Esc => {
            if app.active_mask.is_some() {
                app.apply_mask(None);
            }
            None
        },
        Key::Char(c) => {
            if c == 'q' {
                Some(Effect::Quit)
            } else if c == 'm' {
                if app.active_mask.is_none() {
                    app.mask_draft = MaskDraft::default();
                }
                app.set_mode(AppMode::EditingMask);
                app.focus_mask_field(MaskEditorField::Pattern);
                app.push_status(
                    "Mask editor active - Tab moves between fields, arrows/space adjust options, Enter applies",
                );
                None
            } else if c == 'f' {
                app.push_status("Refreshing buckets...");
                Some(Effect::RefreshBuckets)
            } else if c == 'i' {
                let bucket = match app.selected_bucket_name() {
                    Some(n) => n.to_owned(),
                    None => {
                        app.push_status("Inspect failed: Select a bucket first");
                        return None;
                    },
                };
                let object_key = match app.selected_object() {
                    Some(o) => o.key.clone(),
                    None => {
                        app.push_status("Inspect failed: Select an object to inspect");
                        return None;
                    },
                };
                Some(Effect::RefreshObject { bucket, key: object_key })
            } else if c == 's' {
                match begin_storage_selection(app, StorageIntent::Transition) {
                    Ok(_) => {},
                    Err(e) => {
                        let mut msg = String::from_str("Storage selection unavailable: ");
                        msg.append(e);
                        app.push_status(msg.as_str());
                    },
                }
                None
            } else if c == 'r' {
                match initiate_restore_flow(app) {
                    Ok(_) => {},
                    Err(e) => {
                        let mut msg = String::from_str("Cannot request restore: ");
                        msg.append(e);
                        app.push_status(msg.as_str());
                    },
                }
                None
            } else if c == 'p' {
                match begin_storage_selection(app, StorageIntent::SavePolicy) {
                    Ok(_) => {
                        app.push_status("Select target storage class for policy");
                    },
                    Err(e) => {
                        let mut msg = String::from_str("Cannot save policy: ");
                        msg.append(e);
                        app.push_status(msg.as_str());
                    },
                }
                None
            } else if c == '?' {
                app.set_mode(AppMode::ShowingHelp);
                None
            } else if c == 'l' || c == 'L' {
                app.set_mode(AppMode::ViewingLog);
                None
            } else {
                None
            }
        },
        _ => None,
    }
}

} // verus!
