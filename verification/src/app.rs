//! The single owner of all mutable console state: bucket and object lists,
//! the active mask and its filtered subset, the mode of the interaction
//! state machine, the one pending action, and the bounded status feed.

use std::collections::VecDeque;

use vstd::prelude::*;

use crate::mask::{MaskKind, ObjectMask};
use crate::models::{BucketInfo, ObjectInfo, StorageClassTier};
use crate::policy::MigrationPolicy;
use crate::text::{dec_digits, u64_to_string};
use vstd::string::StringExecFns;

verus! {

/// Fixed capacity of the status feed; the oldest entry is evicted first.
pub const STATUS_LIMIT: usize = 20;

#[derive(Clone, Copy, Debug, PartialEq, Eq, Structural)]
pub enum ActivePane {
    Buckets,
    Objects,
    MaskEditor,
    Policies,
}

impl ActivePane {
    /// The pane reached by advancing focus once.
    pub open spec fn next_spec(self) -> ActivePane {
        match self {
            ActivePane::Buckets => ActivePane::Objects,
            ActivePane::Objects => ActivePane::MaskEditor,
            ActivePane::MaskEditor => ActivePane::Policies,
            ActivePane::Policies => ActivePane::Buckets,
        }
    }

    /// The pane reached by retreating focus once.
    pub open spec fn previous_spec(self) -> ActivePane {
        match self {
            ActivePane::Buckets => ActivePane::Policies,
            ActivePane::Objects => ActivePane::Buckets,
            ActivePane::MaskEditor => ActivePane::Objects,
            ActivePane::Policies => ActivePane::MaskEditor,
        }
    }
}

#[derive(Clone, Copy, Debug, PartialEq, Eq, Structural)]
pub enum AppMode {
    Browsing,
    EditingMask,
    Confirming,
    SelectingStorageClass,
    ShowingHelp,
    ViewingLog,
}

#[derive(Clone, Copy, Debug, PartialEq, Eq, Structural)]
pub enum StorageIntent {
    Transition,
    SavePolicy,
}

#[derive(Clone, Copy, Debug, PartialEq, Eq, Structural)]
pub enum MaskEditorField {
    Name,
    Pattern,
    Mode,
    Case,
}

impl MaskEditorField {
    pub open spec fn next_field_spec(self) -> MaskEditorField {
        match self {
            MaskEditorField::Name => MaskEditorField::Pattern,
            MaskEditorField::Pattern => MaskEditorField::Mode,
            MaskEditorField::Mode => MaskEditorField::Case,
            MaskEditorField::Case => MaskEditorField::Name,
        }
    }

    pub open spec fn previous_field_spec(self) -> MaskEditorField {
        match self {
            MaskEditorField::Name => MaskEditorField::Case,
            MaskEditorField::Pattern => MaskEditorField::Name,
            MaskEditorField::Mode => MaskEditorField::Pattern,
            MaskEditorField::Case => MaskEditorField::Mode,
        }
    }

    pub fn next(self) -> (r: Self)
        ensures
            r == self.next_field_spec(),
    {
        match self {
            MaskEditorField::Name => MaskEditorField::Pattern,
            MaskEditorField::Pattern => MaskEditorField::Mode,
            MaskEditorField::Mode => MaskEditorField::Case,
            MaskEditorField::Case => MaskEditorField::Name,
        }
    }

    pub fn previous(self) -> (r: Self)
        ensures
            r == self.previous_field_spec(),
    {
        match self {
            MaskEditorField::Name => MaskEditorField::Case,
            MaskEditorField::Pattern => MaskEditorField::Name,
            MaskEditorField::Mode => MaskEditorField::Pattern,
            MaskEditorField::Case => MaskEditorField::Mode,
        }
    }
}

/// The mask being edited, before it compiles into an [`ObjectMask`].
pub struct MaskDraft {
    pub name: String,
    pub pattern: String,
    pub kind: MaskKind,
    pub case_sensitive: bool,
}

impl Clone for MaskDraft {
    fn clone(&self) -> (r: Self)
        ensures
            r == *self,
    {
        MaskDraft {
            name: self.name.clone(),
            pattern: self.pattern.clone(),
            kind: self.kind,
            case_sensitive: self.case_sensitive,
        }
    }
}

impl Default for MaskDraft {
    /// A fresh draft: untitled, empty pattern, prefix match, ignoring case.
    fn default() -> (r: Self)
        ensures
            r.name@ == "Untitled mask"@,
            r.pattern@ == Seq::<char>::empty(),
            r.kind == MaskKind::Prefix,
            !r.case_sensitive,
    {
        MaskDraft {
            name: String::from_str("Untitled mask"),
            pattern: String::new(),
            kind: MaskKind::Prefix,
            case_sensitive: false,
        }
    }
}

/// An intent captured from the operator, awaiting confirmation. At most one
/// exists at a time.
#[derive(Clone, Copy, Debug, PartialEq, Eq, Structural)]
pub enum PendingAction {
    Transition { target_class: StorageClassTier, restore_first: bool },
    Restore { days: i32 },
    SavePolicy { target_class: StorageClassTier },
}

/// The status feed after appending `m`: the oldest entry leaves first once
/// the feed is full.
pub open spec fn status_after_push(q: Seq<Seq<char>>, m: Seq<char>) -> Seq<Seq<char>> {
    if q.len() == STATUS_LIMIT {
        q.drop_first().push(m)
    } else {
        q.push(m)
    }
}

/// The status feed is a bounded ring: appending to a feed within capacity
/// keeps it within capacity, and a full feed evicts its oldest entry first.
pub proof fn lemma_status_bounded(q: Seq<Seq<char>>, m: Seq<char>)
    requires
        q.len() <= STATUS_LIMIT,
    ensures
        status_after_push(q, m).len() <= STATUS_LIMIT,
        q.len() == STATUS_LIMIT ==> status_after_push(q, m) == q.drop_first().push(m),
        q.len() < STATUS_LIMIT ==> status_after_push(q, m) == q.push(m),
{
}

/// The character sequences of the status entries.
pub open spec fn status_views(q: Seq<String>) -> Seq<Seq<char>> {
    q.map_values(|s: String| s@)
}

/// The status line reporting how many objects a mask matched.
pub open spec fn mask_applied_message(m: ObjectMask, n: nat) -> Seq<char> {
    if n == 0 {
        "Mask applied but matched no objects"@
    } else {
        "Mask '"@ + m.name@ + "' matched "@ + dec_digits(n) + " objects"@
    }
}

/// The objects of `objects` that `m` selects, in listing order.
pub open spec fn filtered_by(objects: Seq<ObjectInfo>, m: ObjectMask) -> Seq<ObjectInfo>
    decreases objects.len(),
{
    if objects.len() == 0 {
        Seq::empty()
    } else {
        let rest = filtered_by(objects.drop_last(), m);
        if m.matches_spec(objects.last().key@) {
            rest.push(objects.last())
        } else {
            rest
        }
    }
}

proof fn lemma_filtered_by_step(s: Seq<ObjectInfo>, m: ObjectMask, i: int)
    requires
        0 <= i < s.len(),
    ensures
        filtered_by(s.subrange(0, i + 1), m) == if m.matches_spec(s[i].key@) {
            filtered_by(s.subrange(0, i), m).push(s[i])
        } else {
            filtered_by(s.subrange(0, i), m)
        },
{
    let t = s.subrange(0, i + 1);
    assert(t.drop_last() =~= s.subrange(0, i));
    assert(t.last() == s[i]);
}

/// The subset of `objects` that `m` selects, cloned in listing order.
pub fn filter_objects(objects: &Vec<ObjectInfo>, m: &ObjectMask) -> (r: Vec<ObjectInfo>)
    ensures
        r@ == filtered_by(objects@, *m),
{
    let mut filtered: Vec<ObjectInfo> = Vec::new();
    let mut i: usize = 0;
    proof {
        assert(objects@.subrange(0, 0).len() == 0);
    }
    while i < objects.len()
        invariant
            i <= objects@.len(),
            filtered@ == filtered_by(objects@.subrange(0, i as int), *m),
        decreases objects@.len() - i,
    {
        proof {
            lemma_filtered_by_step(objects@, *m, i as int);
        }
        if m.matches(objects[i].key.as_str()) {
            filtered.push(objects[i].clone());
        }
        i = i + 1;
    }
    proof {
        assert(objects@.subrange(0, objects@.len() as int) =~= objects@);
    }
    filtered
}

/// What applying or clearing a mask does to the console state: the full
/// relation between the state before and after [`App::apply_mask`].
pub open spec fn apply_mask_rel(pre: App, mask: Option<ObjectMask>, post: App) -> bool {
    &&& post.active_mask == mask
    &&& post == (App {
        active_mask: mask,
        filtered_objects: post.filtered_objects,
        selected_object: post.selected_object,
        status: post.status,
        ..pre
    })
    &&& match mask {
        Some(m) => {
            &&& post.filtered_objects@ == filtered_by(pre.objects@, m)
            &&& post.selected_object == 0
            &&& status_views(post.status@) == status_after_push(
                status_views(pre.status@),
                mask_applied_message(m, filtered_by(pre.objects@, m).len()),
            )
        },
        None => {
            &&& post.filtered_objects@ == Seq::<ObjectInfo>::empty()
            &&& post.selected_object == pre.selected_object
            &&& status_views(post.status@) == status_after_push(
                status_views(pre.status@),
                "Cleared mask filter"@,
            )
        },
    }
}

/// Applying any mask and then clearing it restores the exact pre-filter
/// object list, in its original order, as the active list.
pub proof fn lemma_mask_roundtrip(pre: App, m: ObjectMask, mid: App, post: App)
    requires
        apply_mask_rel(pre, Some(m), mid),
        apply_mask_rel(mid, None, post),
    ensures
        post.active_objects_spec() == pre.objects@,
        post.objects@ == pre.objects@,
{
}

/// All console state, owned by one interactive loop.
pub struct App {
    pub buckets: Vec<BucketInfo>,
    pub objects: Vec<ObjectInfo>,
    pub filtered_objects: Vec<ObjectInfo>,
    pub selected_bucket: usize,
    pub selected_object: usize,
    pub status: VecDeque<String>,
    pub active_pane: ActivePane,
    pub mode: AppMode,
    pub mask_draft: MaskDraft,
    pub active_mask: Option<ObjectMask>,
    pub policies: Vec<MigrationPolicy>,
    pub pending_action: Option<PendingAction>,
    pub storage_class_cursor: usize,
    pub storage_intent: StorageIntent,
    pub mask_field: MaskEditorField,
}

impl App {
    /// The status feed never outgrows its fixed capacity.
    pub open spec fn wf(self) -> bool {
        self.status@.len() <= STATUS_LIMIT
    }

    /// The list operations target: the filtered subset while a mask is
    /// active, the full listing otherwise.
    pub open spec fn active_objects_spec(self) -> Seq<ObjectInfo> {
        if self.active_mask is Some {
            self.filtered_objects@
        } else {
            self.objects@
        }
    }

    pub fn new(policies: Vec<MigrationPolicy>) -> (r: Self)
        ensures
            r.wf(),
            r.buckets@ == Seq::<BucketInfo>::empty(),
            r.objects@ == Seq::<ObjectInfo>::empty(),
            r.filtered_objects@ == Seq::<ObjectInfo>::empty(),
            r.selected_bucket == 0,
            r.selected_object == 0,
            r.status@ == Seq::<String>::empty(),
            r.active_pane == ActivePane::Buckets,
            r.mode == AppMode::Browsing,
            r.mask_draft.name@ == "Untitled mask"@,
            r.mask_draft.pattern@ == Seq::<char>::empty(),
            r.mask_draft.kind == MaskKind::Prefix,
            !r.mask_draft.case_sensitive,
            r.active_mask is None,
            r.policies == policies,
            r.pending_action is None,
            r.storage_class_cursor == 0,
            r.storage_intent == StorageIntent::Transition,
            r.mask_field == MaskEditorField::Pattern,
    {
        App {
            buckets: Vec::new(),
            objects: Vec::new(),
            filtered_objects: Vec::new(),
            selected_bucket: 0,
            selected_object: 0,
            status: VecDeque::with_capacity(STATUS_LIMIT),
            active_pane: ActivePane::Buckets,
            mode: AppMode::Browsing,
            mask_draft: Default::default(),
            active_mask: None,
            policies,
            pending_action: None,
            storage_class_cursor: 0,
            storage_intent: StorageIntent::Transition,
            mask_field: MaskEditorField::Pattern,
        }
    }

    /// The name of the bucket the cursor rests on, if the cursor is in range.
    pub fn selected_bucket_name(&self) -> (r: Option<&str>)
        ensures
            match r {
                Some(n) => self.selected_bucket < self.buckets@.len() && n@
                    == self.buckets@[self.selected_bucket as int].name@,
                None => self.selected_bucket >= self.buckets@.len(),
            },
    {
        if self.selected_bucket < self.buckets.len() {
            Some(self.buckets[self.selected_bucket].name.as_str())
        } else {
            None
        }
    }

    /// The object the cursor rests on within the active list, if in range.
    pub fn selected_object(&self) -> (r: Option<&ObjectInfo>)
        ensures
            match r {
                Some(o) => self.selected_object < self.active_objects_spec().len() && *o
                    == self.active_objects_spec()[self.selected_object as int],
                None => self.selected_object >= self.active_objects_spec().len(),
            },
    {
        let list = self.active_objects();
        if self.selected_object < list.len() {
            Some(&list[self.selected_object])
        } else {
            None
        }
    }

    /// The filtered list while a mask is active, the full listing otherwise.
    pub fn active_objects(&self) -> (r: &Vec<ObjectInfo>)
        ensures
            r@ == self.active_objects_spec(),
    {
        if self.active_mask.is_some() {
            &self.filtered_objects
        } else {
            &self.objects
        }
    }

    /// Replaces the bucket list and rests the cursor on its first entry.
    pub fn set_buckets(&mut self, buckets: Vec<BucketInfo>)
        requires
            old(self).wf(),
        ensures
            final(self).wf(),
            *final(self) == (App {
                buckets,
                selected_bucket: 0,
                ..*old(self)
            }),
    {
        self.buckets = buckets;
        self.selected_bucket = 0;
    }

    /// Replaces the object listing for the current bucket, clearing any
    /// filtered subset and resting the cursor on the first entry.
    pub fn set_objects(&mut self, objects: Vec<ObjectInfo>)
        requires
            old(self).wf(),
        ensures
            final(self).wf(),
            final(self).filtered_objects@ == Seq::<ObjectInfo>::empty(),
            *final(self) == (App {
                objects,
                filtered_objects: final(self).filtered_objects,
                selected_object: 0,
                ..*old(self)
            }),
    {
        self.objects = objects;
        self.filtered_objects = Vec::new();
        self.selected_object = 0;
    }

    /// Applies a mask (recomputing the filtered subset and reporting the
    /// match count, where zero matches is a reported outcome, not an error)
    /// or clears the filter, reverting to the unfiltered listing.
    pub fn apply_mask(&mut self, mask: Option<ObjectMask>)
        requires
            old(self).wf(),
        ensures
            final(self).wf(),
            apply_mask_rel(*old(self), mask, *final(self)),
            final(self).active_mask == mask,
            *final(self) == (App {
                active_mask: mask,
                filtered_objects: final(self).filtered_objects,
                selected_object: final(self).selected_object,
                status: final(self).status,
                ..*old(self)
            }),
            match mask {
                Some(m) => {
                    &&& final(self).filtered_objects@ == filtered_by(old(self).objects@, m)
                    &&& final(self).selected_object == 0
                    &&& status_views(final(self).status@) == status_after_push(
                        status_views(old(self).status@),
                        mask_applied_message(m, filtered_by(old(self).objects@, m).len()),
                    )
                },
                None => {
                    &&& final(self).filtered_objects@ == Seq::<ObjectInfo>::empty()
                    &&& final(self).selected_object == old(self).selected_object
                    &&& status_views(final(self).status@) == status_after_push(
                        status_views(old(self).status@),
                        "Cleared mask filter"@,
                    )
                },
            },
    {
        match mask {
            Some(m) => {
                let filtered = filter_objects(&self.objects, &m);
                let n = filtered.len();
                if n == 0 {
                    self.filtered_objects = filtered;
                    self.selected_object = 0;
                    self.active_mask = Some(m);
                    self.push_status("Mask applied but matched no objects");
                } else {
                    let mut msg = String::from_str("Mask '");
                    msg.append(m.name.as_str());
                    msg.append("' matched ");
                    let count = u64_to_string(n as u64);
                    msg.append(count.as_str());
                    msg.append(" objects");
                    self.filtered_objects = filtered;
                    self.selected_object = 0;
                    self.active_mask = Some(m);
                    self.push_status(msg.as_str());
                }
            },
            None => {
                self.active_mask = None;
                self.filtered_objects = Vec::new();
                self.push_status("Cleared mask filter");
            },
        }
    }

    /// Advances pane focus.
    pub fn next_pane(&mut self)
        requires
            old(self).wf(),
        ensures
            final(self).wf(),
            *final(self) == (App {
                active_pane: old(self).active_pane.next_spec(),
                ..*old(self)
            }),
    {
        self.active_pane = match self.active_pane {
            ActivePane::Buckets => ActivePane::Objects,
            ActivePane::Objects => ActivePane::MaskEditor,
            ActivePane::MaskEditor => ActivePane::Policies,
            ActivePane::Policies => ActivePane::Buckets,
        };
    }

    /// Retreats pane focus.
    pub fn previous_pane(&mut self)
        requires
            old(self).wf(),
        ensures
            final(self).wf(),
            *final(self) == (App {
                active_pane: old(self).active_pane.previous_spec(),
                ..*old(self)
            }),
    {
        self.active_pane = match self.active_pane {
            ActivePane::Buckets => ActivePane::Policies,
            ActivePane::Objects => ActivePane::Buckets,
            ActivePane::MaskEditor => ActivePane::Objects,
            ActivePane::Policies => ActivePane::MaskEditor,
        };
    }

    /// Appends a status line; once the feed is full the oldest line leaves
    /// first, so the feed never outgrows its capacity.
    pub fn push_status(&mut self, status: &str)
        requires
            old(self).wf(),
        ensures
            final(self).wf(),
            *final(self) == (App {
                status: final(self).status,
                ..*old(self)
            }),
            status_views(final(self).status@) == status_after_push(
                status_views(old(self).status@),
                status@,
            ),
    {
        if self.status.len() == STATUS_LIMIT {
            self.status.pop_front();
        }
        self.status.push_back(status.to_owned());
        proof {
            let q = status_views(old(self).status@);
            if q.len() == STATUS_LIMIT {
                assert(status_views(final(self).status@) =~= q.drop_first().push(status@));
            } else {
                assert(status_views(final(self).status@) =~= q.push(status@));
            }
        }
    }

    /// Steps the draft's match kind forward through the fixed cycle.
    pub fn cycle_mask_kind(&mut self)
        requires
            old(self).wf(),
        ensures
            final(self).wf(),
            *final(self) == (App {
                mask_draft: final(self).mask_draft,
                ..*old(self)
            }),
            final(self).mask_draft == (MaskDraft {
                kind: final(self).mask_draft.kind,
                ..old(self).mask_draft
            }),
            final(self).mask_draft.kind == match old(self).mask_draft.kind {
                MaskKind::Prefix => MaskKind::Suffix,
                MaskKind::Suffix => MaskKind::Contains,
                MaskKind::Contains => MaskKind::Regex,
                MaskKind::Regex => MaskKind::Prefix,
            },
    {
        self.mask_draft.kind = match self.mask_draft.kind {
            MaskKind::Prefix => MaskKind::Suffix,
            MaskKind::Suffix => MaskKind::Contains,
            MaskKind::Contains => MaskKind::Regex,
            MaskKind::Regex => MaskKind::Prefix,
        };
    }

    /// Steps the draft's match kind backwards through the fixed cycle.
    pub fn cycle_mask_kind_backwards(&mut self)
        requires
            old(self).wf(),
        ensures
            final(self).wf(),
            *final(self) == (App {
                mask_draft: final(self).mask_draft,
                ..*old(self)
            }),
            final(self).mask_draft == (MaskDraft {
                kind: final(self).mask_draft.kind,
                ..old(self).mask_draft
            }),
            final(self).mask_draft.kind == match old(self).mask_draft.kind {
                MaskKind::Prefix => MaskKind::Regex,
                MaskKind::Suffix => MaskKind::Prefix,
                MaskKind::Contains => MaskKind::Suffix,
                MaskKind::Regex => MaskKind::Contains,
            },
    {
        self.mask_draft.kind = match self.mask_draft.kind {
            MaskKind::Prefix => MaskKind::Regex,
            MaskKind::Suffix => MaskKind::Prefix,
            MaskKind::Contains => MaskKind::Suffix,
            MaskKind::Regex => MaskKind::Contains,
        };
    }

    /// Flips the draft's case-sensitivity flag.
    pub fn toggle_mask_case(&mut self)
        requires
            old(self).wf(),
        ensures
            final(self).wf(),
            *final(self) == (App {
                mask_draft: final(self).mask_draft,
                ..*old(self)
            }),
            final(self).mask_draft == (MaskDraft {
                case_sensitive: !old(self).mask_draft.case_sensitive,
                ..old(self).mask_draft
            }),
    {
        self.mask_draft.case_sensitive = !self.mask_draft.case_sensitive;
    }

    /// Sets the interaction mode.
    pub fn set_mode(&mut self, mode: AppMode)
        requires
            old(self).wf(),
        ensures
            final(self).wf(),
            *final(self) == (App { mode, ..*old(self) }),
    {
        self.mode = mode;
    }

    /// Moves editor focus to the given field.
    pub fn focus_mask_field(&mut self, field: MaskEditorField)
        requires
            old(self).wf(),
        ensures
            final(self).wf(),
            *final(self) == (App { mask_field: field, ..*old(self) }),
    {
        self.mask_field = field;
    }

    /// Moves editor focus to the next field.
    pub fn next_mask_field(&mut self)
        requires
            old(self).wf(),
        ensures
            final(self).wf(),
            *final(self) == (App {
                mask_field: old(self).mask_field.next_field_spec(),
                ..*old(self)
            }),
    {
        self.mask_field = self.mask_field.next();
    }

    /// Moves editor focus to the previous field.
    pub fn previous_mask_field(&mut self)
        requires
            old(self).wf(),
        ensures
            final(self).wf(),
            *final(self) == (App {
                mask_field: old(self).mask_field.previous_field_spec(),
                ..*old(self)
            }),
    {
        self.mask_field = self.mask_field.previous();
    }
}

} // verus!
