//! Migration orchestrator: executes a confirmed pending action as a
//! sequential per-key batch with independent failure isolation. The
//! surrounding loop performs one backend call at a time and reports each
//! outcome back; a failed restore skips the transition for that key only and
//! the batch continues.

use vstd::prelude::*;

use crate::app::{App, filter_objects, filtered_by, status_after_push, status_views};
use crate::errors::{BackendFailure, failure_text};
use crate::events::only_status;
use crate::listing::{objects_sorted, sort_objects};
use crate::models::{ObjectInfo, StorageClassTier};
use crate::selection::{string_views, target_keys, target_keys_spec};
use vstd::pervasive::VecAdditionalExecFns;
use vstd::string::{StringExecFns, StringSliceAdditionalSpecFns, StrSliceExecFns};
use vstd::utf8::encode_utf8;

verus! {

/// A byte the URL encoding keeps as it is: ASCII alphanumerics and
/// '-', '.', '_', '~'.
pub open spec fn is_url_safe_byte(b: u8) -> bool {
    (48 <= b && b <= 57) || (65 <= b && b <= 90) || (97 <= b && b <= 122) || b == 45 || b == 46
        || b == 95 || b == 126
}

/// The upper-case hexadecimal digit for `d` (0 to 15).
pub open spec fn hex_upper(d: u8) -> u8 {
    if d < 10 {
        (48 + d) as u8
    } else {
        (55 + d) as u8
    }
}

/// Percent-encoding of `s`: safe bytes stand as they are, every other byte
/// becomes '%' and two upper-case hex digits.
pub open spec fn url_encoded_bytes(s: Seq<u8>) -> Seq<u8>
    decreases s.len(),
{
    if s.len() == 0 {
        Seq::empty()
    } else {
        (if is_url_safe_byte(s[0]) {
            seq![s[0]]
        } else {
            seq![37u8, hex_upper(s[0] / 16), hex_upper(s[0] % 16)]
        }) + url_encoded_bytes(s.drop_first())
    }
}

/// ASCII bytes read as characters.
pub open spec fn bytes_as_chars(s: Seq<u8>) -> Seq<char>
    decreases s.len(),
{
    if s.len() == 0 {
        Seq::empty()
    } else {
        bytes_as_chars(s.drop_last()).push(s.last() as char)
    }
}

/// Relies on urlencoding::encode: percent-encodes every byte of the UTF-8
/// text except ASCII alphanumerics and '-', '_', '.', '~', with upper-case
/// hex digits; the result is ASCII.
#[verifier::external_body]
fn url_encode(s: &str) -> (r: String)
    ensures
        r@ == bytes_as_chars(url_encoded_bytes(s.spec_bytes())),
{
    urlencoding::encode(s).into_owned()
}

/// The URL-encoded `bucket/key` source path a transition's server-side copy
/// names.
pub fn copy_source(bucket: &str, key: &str) -> (r: String)
    ensures
        r@ == bytes_as_chars(url_encoded_bytes(encode_utf8(bucket@ + "/"@ + key@))),
{
    let mut s = bucket.to_owned();
    s.append("/");
    s.append(key);
    url_encode(s.as_str())
}

/// One backend call of a running batch.
pub enum BatchCall {
    Restore { key: String, days: i32 },
    Transition { key: String, target_class: StorageClassTier },
}

/// A confirmed transition batch in flight: the resolved keys, the cursor,
/// and whether the current key still owes its restore-before-transition
/// call.
pub struct TransitionBatch {
    pub bucket: String,
    pub keys: Vec<String>,
    pub index: usize,
    pub target_class: StorageClassTier,
    pub restore_first: bool,
    pub awaiting_restore: bool,
}

impl TransitionBatch {
    pub open spec fn wf(self) -> bool {
        &&& self.index <= self.keys@.len()
        &&& (self.awaiting_restore ==> self.restore_first)
    }

    /// The next backend call the batch owes, or nothing when every key has
    /// been attempted.
    pub fn next_call(&self) -> (r: Option<BatchCall>)
        requires
            self.wf(),
        ensures
            r is None <==> self.index == self.keys@.len(),
            self.index < self.keys@.len() ==> if self.awaiting_restore {
                r matches Some(BatchCall::Restore { key, days }) && key@
                    == self.keys@[self.index as int]@ && days == 7
            } else {
                r matches Some(BatchCall::Transition { key, target_class }) && key@
                    == self.keys@[self.index as int]@ && target_class == self.target_class
            },
    {
        if self.index >= self.keys.len() {
            return None;
        }
        let key = self.keys[self.index].clone();
        if self.awaiting_restore {
            Some(BatchCall::Restore { key, days: 7 })
        } else {
            Some(BatchCall::Transition { key, target_class: self.target_class })
        }
    }
}

/// Resolves the target keys and opens a transition batch. Without a selected
/// bucket, or with nothing targeted, no batch opens and a status line says
/// so (a no-op outcome, not an error).
pub fn start_transition_batch(
    app: &mut App,
    target_class: StorageClassTier,
    restore_first: bool,
) -> (r: Option<TransitionBatch>)
    requires
        old(app).wf(),
    ensures
        final(app).wf(),
        if old(app).selected_bucket >= old(app).buckets@.len() {
            r is None && only_status(*old(app), "Select a bucket before transitioning"@, *final(app))
        } else if target_keys_spec(*old(app)).len() == 0 {
            r is None && only_status(*old(app), "No objects selected for transition"@, *final(app))
        } else {
            &&& *final(app) == *old(app)
            &&& r matches Some(b)
            &&& b.bucket@ == old(app).buckets@[old(app).selected_bucket as int].name@
            &&& string_views(b.keys@) == target_keys_spec(*old(app))
            &&& b.index == 0
            &&& b.target_class == target_class
            &&& b.restore_first == restore_first
            &&& b.awaiting_restore == restore_first
            &&& b.wf()
        },
{
    let bucket = match app.selected_bucket_name() {
        Some(n) => n.to_owned(),
        None => {
            app.push_status("Select a bucket before transitioning");
            return None;
        },
    };
    let keys = target_keys(app);
    if keys.is_empty() {
        app.push_status("No objects selected for transition");
        return None;
    }
    proof {
        crate::selection::lemma_string_views_len(keys@);
    }
    Some(
        TransitionBatch {
            bucket,
            keys,
            index: 0,
            target_class,
            restore_first,
            awaiting_restore: restore_first,
        },
    )
}

/// Records the outcome of the current key's restore call. A failure is
/// reported for this key only and its transition is skipped; the batch
/// continues with the next key.
pub fn record_restore_outcome(
    app: &mut App,
    batch: &mut TransitionBatch,
    outcome: Result<(), BackendFailure>,
)
    requires
        old(app).wf(),
        old(batch).wf(),
        old(batch).awaiting_restore,
        old(batch).index < old(batch).keys@.len(),
    ensures
        final(app).wf(),
        final(batch).wf(),
        match outcome {
            Ok(_) => *final(batch) == (TransitionBatch {
                awaiting_restore: false,
                ..*old(batch)
            }) && *final(app) == *old(app),
            Err(f) => *final(batch) == (TransitionBatch {
                index: (old(batch).index + 1) as usize,
                ..*old(batch)
            }) && only_status(
                *old(app),
                "Restore failed for "@ + old(batch).keys@[old(batch).index as int]@ + ": "@
                    + failure_text(f),
                *final(app),
            ),
        },
{
    match outcome {
        Ok(_) => {
            batch.awaiting_restore = false;
        },
        Err(f) => {
            let mut msg = String::from_str("Restore failed for ");
            msg.append(batch.keys[batch.index].as_str());
            msg.append(": ");
            let detail = crate::errors::describe_restore_error(&f);
            msg.append(detail.as_str());
            app.push_status(msg.as_str());
            let n = batch.keys.len();
            proof {
                assert(batch.index < n);
            }
            batch.index = batch.index + 1;
        },
    }
}

/// Records the outcome of the current key's transition call and moves to the
/// next key; per-key failures never stop the batch.
pub fn record_transition_outcome(
    app: &mut App,
    batch: &mut TransitionBatch,
    outcome: Result<(), BackendFailure>,
)
    requires
        old(app).wf(),
        old(batch).wf(),
        !old(batch).awaiting_restore,
        old(batch).index < old(batch).keys@.len(),
    ensures
        final(app).wf(),
        final(batch).wf(),
        *final(batch) == (TransitionBatch {
            index: (old(batch).index + 1) as usize,
            awaiting_restore: old(batch).restore_first,
            ..*old(batch)
        }),
        match outcome {
            Ok(_) => only_status(
                *old(app),
                "Transitioned "@ + old(batch).keys@[old(batch).index as int]@ + " to "@ + old(
                    batch,
                ).target_class.label_spec(),
                *final(app),
            ),
            Err(f) => only_status(
                *old(app),
                "Transition failed for "@ + old(batch).keys@[old(batch).index as int]@ + ": "@
                    + failure_text(f),
                *final(app),
            ),
        },
{
    match outcome {
        Ok(_) => {
            let mut msg = String::from_str("Transitioned ");
            msg.append(batch.keys[batch.index].as_str());
            msg.append(" to ");
            msg.append(batch.target_class.label());
            app.push_status(msg.as_str());
        },
        Err(f) => {
            let mut msg = String::from_str("Transition failed for ");
            msg.append(batch.keys[batch.index].as_str());
            msg.append(": ");
            let detail = crate::errors::describe_restore_error(&f);
            msg.append(detail.as_str());
            app.push_status(msg.as_str());
        },
    }
    let n = batch.keys.len();
    proof {
        assert(batch.index < n);
    }
    batch.index = batch.index + 1;
    batch.awaiting_restore = batch.restore_first;
}

/// A confirmed restore batch in flight.
pub struct RestoreBatch {
    pub bucket: String,
    pub keys: Vec<String>,
    pub index: usize,
    pub days: i32,
}

impl RestoreBatch {
    pub open spec fn wf(self) -> bool {
        self.index <= self.keys@.len()
    }

    /// The next restore call the batch owes, or nothing when done.
    pub fn next_call(&self) -> (r: Option<BatchCall>)
        requires
            self.wf(),
        ensures
            r is None <==> self.index == self.keys@.len(),
            self.index < self.keys@.len() ==> (r matches Some(BatchCall::Restore { key, days })
                && key@ == self.keys@[self.index as int]@ && days == self.days),
    {
        if self.index >= self.keys.len() {
            return None;
        }
        Some(BatchCall::Restore { key: self.keys[self.index].clone(), days: self.days })
    }
}

/// Resolves the target keys and opens a restore batch; needs a selected
/// bucket. An empty key list opens an empty batch that owes no calls.
pub fn start_restore_batch(app: &mut App, days: i32) -> (r: Option<RestoreBatch>)
    requires
        old(app).wf(),
    ensures
        final(app).wf(),
        if old(app).selected_bucket >= old(app).buckets@.len() {
            r is None && only_status(*old(app), "Select a bucket before restoring"@, *final(app))
        } else {
            &&& *final(app) == *old(app)
            &&& r matches Some(b)
            &&& b.bucket@ == old(app).buckets@[old(app).selected_bucket as int].name@
            &&& string_views(b.keys@) == target_keys_spec(*old(app))
            &&& b.index == 0
            &&& b.days == days
            &&& b.wf()
        },
{
    let bucket = match app.selected_bucket_name() {
        Some(n) => n.to_owned(),
        None => {
            app.push_status("Select a bucket before restoring");
            return None;
        },
    };
    let keys = target_keys(app);
    Some(RestoreBatch { bucket, keys, index: 0, days })
}

/// Records the outcome of one restore request and moves to the next key;
/// per-key failures never stop the batch.
pub fn record_restore_request_outcome(
    app: &mut App,
    batch: &mut RestoreBatch,
    outcome: Result<(), BackendFailure>,
)
    requires
        old(app).wf(),
        old(batch).wf(),
        old(batch).index < old(batch).keys@.len(),
    ensures
        final(app).wf(),
        final(batch).wf(),
        *final(batch) == (RestoreBatch {
            index: (old(batch).index + 1) as usize,
            ..*old(batch)
        }),
        match outcome {
            Ok(_) => only_status(
                *old(app),
                "Restore requested for "@ + old(batch).keys@[old(batch).index as int]@,
                *final(app),
            ),
            Err(f) => only_status(
                *old(app),
                "Restore failed for "@ + old(batch).keys@[old(batch).index as int]@ + ": "@
                    + failure_text(f),
                *final(app),
            ),
        },
{
    match outcome {
        Ok(_) => {
            let mut msg = String::from_str("Restore requested for ");
            msg.append(batch.keys[batch.index].as_str());
            app.push_status(msg.as_str());
        },
        Err(f) => {
            let mut msg = String::from_str("Restore failed for ");
            msg.append(batch.keys[batch.index].as_str());
            msg.append(": ");
            let detail = crate::errors::describe_restore_error(&f);
            msg.append(detail.as_str());
            app.push_status(msg.as_str());
        },
    }
    let n = batch.keys.len();
    proof {
        assert(batch.index < n);
    }
    batch.index = batch.index + 1;
}

/// Takes a freshly fetched object listing for the current bucket: sorts it
/// by key, installs it, re-applies the active mask (so displayed tiers and
/// the filtered subset reflect reality) and reports the load.
pub fn ingest_objects(app: &mut App, bucket: &str, objects: Vec<ObjectInfo>)
    requires
        old(app).wf(),
    ensures
        final(app).wf(),
        objects_sorted(final(app).objects@),
        final(app).objects@.to_multiset() == objects@.to_multiset(),
        final(app).active_mask == old(app).active_mask,
        final(app).selected_object == 0,
        match old(app).active_mask {
            Some(m) => final(app).filtered_objects@ == filtered_by(final(app).objects@, m),
            None => final(app).filtered_objects@.len() == 0,
        },
        *final(app) == (App {
            objects: final(app).objects,
            filtered_objects: final(app).filtered_objects,
            selected_object: 0,
            status: final(app).status,
            ..*old(app)
        }),
        status_views(final(app).status@) == status_after_push(
            status_after_push(
                status_views(old(app).status@),
                match old(app).active_mask {
                    Some(m) => crate::app::mask_applied_message(
                        m,
                        filtered_by(final(app).objects@, m).len(),
                    ),
                    None => "Cleared mask filter"@,
                },
            ),
            "Loaded objects for bucket "@ + bucket@,
        ),
{
    let sorted = sort_objects(objects);
    app.set_objects(sorted);
    let mask = match &app.active_mask {
        Some(m) => Some(m.clone()),
        None => None,
    };
    app.apply_mask(mask);
    let mut msg = String::from_str("Loaded objects for bucket ");
    msg.append(bucket);
    app.push_status(msg.as_str());
}

/// The position of the first object whose key is `k`, searching from `i`,
/// or -1.
pub open spec fn key_match_from(s: Seq<ObjectInfo>, k: Seq<char>, i: int) -> int
    decreases s.len() - i + 1,
{
    if i < 0 || i >= s.len() {
        -1
    } else if s[i].key@ == k {
        i
    } else {
        key_match_from(s, k, i + 1)
    }
}

proof fn lemma_key_match_skip(s: Seq<ObjectInfo>, k: Seq<char>, j: int)
    requires
        0 <= j,
        forall|l: int| 0 <= l < j ==> (#[trigger] s[l]).key@ != k,
    ensures
        key_match_from(s, k, 0) == key_match_from(s, k, j),
    decreases j,
{
    if j > 0 {
        lemma_key_match_skip(s, k, j - 1);
        assert(s[j - 1].key@ != k);
    }
}

/// Replaces the listed object that a re-fetch refreshed (matched by key; a
/// key no longer listed changes nothing), recomputes the filtered subset
/// under the active mask, and reports the refresh.
pub fn update_refreshed_object(app: &mut App, refreshed: ObjectInfo)
    requires
        old(app).wf(),
    ensures
        final(app).wf(),
        final(app).objects@ == if key_match_from(old(app).objects@, refreshed.key@, 0) >= 0 {
            old(app).objects@.update(
                key_match_from(old(app).objects@, refreshed.key@, 0),
                refreshed,
            )
        } else {
            old(app).objects@
        },
        final(app).filtered_objects@ == match old(app).active_mask {
            Some(m) => filtered_by(final(app).objects@, m),
            None => old(app).filtered_objects@,
        },
        *final(app) == (App {
            objects: final(app).objects,
            filtered_objects: final(app).filtered_objects,
            status: final(app).status,
            ..*old(app)
        }),
        status_views(final(app).status@) == status_after_push(
            status_views(old(app).status@),
            "Object metadata refreshed"@,
        ),
{
    let mut i: usize = 0;
    let mut updated: bool = false;
    while i < app.objects.len() && !updated
        invariant
            old(app).wf(),
            i <= app.objects@.len(),
            !updated ==> *app == *old(app) && (forall|l: int|
                0 <= l < i ==> (#[trigger] app.objects@[l]).key@ != refreshed.key@),
            updated ==> i > 0 && i - 1 == key_match_from(old(app).objects@, refreshed.key@, 0)
                && *app == (App {
                objects: app.objects,
                ..*old(app)
            }) && app.objects@ == old(app).objects@.update(i - 1, refreshed),
        decreases app.objects@.len() - i,
    {
        if app.objects[i].key.eq(&refreshed.key) {
            proof {
                lemma_key_match_skip(app.objects@, refreshed.key@, i as int);
            }
            app.objects.set(i, refreshed.clone());
            updated = true;
        }
        i = i + 1;
    }
    proof {
        if !updated {
            assert forall|l: int| 0 <= l implies key_match_from(
                old(app).objects@,
                refreshed.key@,
                l,
            ) == -1 by {
                lemma_key_match_none(old(app).objects@, refreshed.key@, l);
            }
        }
    }
    let mask = match &app.active_mask {
        Some(m) => Some(m.clone()),
        None => None,
    };
    match mask {
        Some(m) => {
            let filtered = filter_objects(&app.objects, &m);
            app.filtered_objects = filtered;
        },
        None => {},
    }
    app.push_status("Object metadata refreshed");
}

proof fn lemma_key_match_none(s: Seq<ObjectInfo>, k: Seq<char>, l: int)
    requires
        forall|j: int| 0 <= j < s.len() ==> (#[trigger] s[j]).key@ != k,
    ensures
        key_match_from(s, k, l) == -1,
    decreases s.len() - l + 1,
{
    if 0 <= l && l < s.len() {
        lemma_key_match_none(s, k, l + 1);
    }
}

} // verus!
