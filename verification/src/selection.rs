//! Cursor movement over the focused list and resolution of the keys an
//! operation targets: every key the mask matches while one is active, else
//! the single object under the cursor.

use vstd::prelude::*;

use crate::app::{ActivePane, App};
use crate::models::ObjectInfo;

verus! {

/// The cursor position after moving by `delta` in a list of length `len`,
/// clamped into the list's bounds.
pub open spec fn clamped_move(cur: int, delta: int, len: int) -> int {
    let i = cur + delta;
    if i < 0 {
        0
    } else if i >= len {
        len - 1
    } else {
        i
    }
}

fn clamped_move_exec(cur: usize, delta: isize, len: usize) -> (r: usize)
    requires
        len > 0,
        delta > isize::MIN,
    ensures
        r == clamped_move(cur as int, delta as int, len as int),
{
    if delta >= 0 {
        let d = delta as usize;
        if cur >= len - 1 {
            len - 1
        } else if d >= len - 1 - cur {
            len - 1
        } else {
            cur + d
        }
    } else {
        let d = (-delta) as usize;
        if cur <= d {
            0
        } else if cur - d >= len {
            len - 1
        } else {
            cur - d
        }
    }
}

/// What moving the cursor by `delta` does to the console state.
pub open spec fn moved(pre: App, delta: int, post: App) -> bool {
    match pre.active_pane {
        ActivePane::Buckets => post == (App {
            selected_bucket: post.selected_bucket,
            ..pre
        }) && post.selected_bucket as int == if pre.buckets@.len() == 0 {
            pre.selected_bucket as int
        } else {
            clamped_move(pre.selected_bucket as int, delta, pre.buckets@.len() as int)
        },
        ActivePane::Objects => post == (App {
            selected_object: post.selected_object,
            ..pre
        }) && post.selected_object as int == if pre.active_objects_spec().len() == 0 {
            pre.selected_object as int
        } else {
            clamped_move(pre.selected_object as int, delta, pre.active_objects_spec().len() as int)
        },
        _ => post == pre,
    }
}

/// What jumping the cursor to the first or last entry does.
pub open spec fn jumped(pre: App, start: bool, post: App) -> bool {
    match pre.active_pane {
        ActivePane::Buckets => post == (App {
            selected_bucket: post.selected_bucket,
            ..pre
        }) && post.selected_bucket as int == if pre.buckets@.len() == 0 {
            pre.selected_bucket as int
        } else if start {
            0
        } else {
            pre.buckets@.len() - 1
        },
        ActivePane::Objects => post == (App {
            selected_object: post.selected_object,
            ..pre
        }) && post.selected_object as int == if pre.active_objects_spec().len() == 0 {
            pre.selected_object as int
        } else if start {
            0
        } else {
            pre.active_objects_spec().len() - 1
        },
        _ => post == pre,
    }
}

/// Moves the cursor of the focused list by `delta`, clamped into the list's
/// bounds; moving in an empty list, or with another pane focused, changes
/// nothing.
pub fn move_selection(app: &mut App, delta: isize)
    requires
        old(app).wf(),
        delta > isize::MIN,
    ensures
        final(app).wf(),
        moved(*old(app), delta as int, *final(app)),
        match old(app).active_pane {
            ActivePane::Buckets => *final(app) == (App {
                selected_bucket: final(app).selected_bucket,
                ..*old(app)
            }) && final(app).selected_bucket as int == if old(app).buckets@.len() == 0 {
                old(app).selected_bucket as int
            } else {
                clamped_move(
                    old(app).selected_bucket as int,
                    delta as int,
                    old(app).buckets@.len() as int,
                )
            },
            ActivePane::Objects => *final(app) == (App {
                selected_object: final(app).selected_object,
                ..*old(app)
            }) && final(app).selected_object as int == if old(app).active_objects_spec().len()
                == 0 {
                old(app).selected_object as int
            } else {
                clamped_move(
                    old(app).selected_object as int,
                    delta as int,
                    old(app).active_objects_spec().len() as int,
                )
            },
            _ => *final(app) == *old(app),
        },
{
    match app.active_pane {
        ActivePane::Buckets => {
            let len = app.buckets.len();
            if len == 0 {
                return ;
            }
            app.selected_bucket = clamped_move_exec(app.selected_bucket, delta, len);
        },
        ActivePane::Objects => {
            let len = app.active_objects().len();
            if len == 0 {
                return ;
            }
            app.selected_object = clamped_move_exec(app.selected_object, delta, len);
        },
        _ => {},
    }
}

/// Jumps the cursor of the focused list to its first or last entry; an empty
/// list, or another focused pane, changes nothing.
pub fn jump_selection(app: &mut App, start: bool)
    requires
        old(app).wf(),
    ensures
        final(app).wf(),
        jumped(*old(app), start, *final(app)),
{
    match app.active_pane {
        ActivePane::Buckets => {
            let len = app.buckets.len();
            if len > 0 {
                app.selected_bucket = if start {
                    0
                } else {
                    len - 1
                };
            }
        },
        ActivePane::Objects => {
            let len = app.active_objects().len();
            if len > 0 {
                app.selected_object = if start {
                    0
                } else {
                    len - 1
                };
            }
        },
        _ => {},
    }
}

/// How many objects an operation would target right now.
pub open spec fn target_count_spec(a: App) -> int {
    if a.active_mask is Some {
        a.filtered_objects@.len() as int
    } else if a.selected_object < a.objects@.len() {
        1
    } else {
        0
    }
}

/// Counts the objects an operation would target: every filtered object
/// while a mask is active, else the one under the cursor if it exists.
pub fn target_count(app: &App) -> (r: usize)
    ensures
        r as int == target_count_spec(*app),
{
    if app.active_mask.is_some() {
        app.filtered_objects.len()
    } else if app.selected_object < app.objects.len() {
        1
    } else {
        0
    }
}

/// The keys of `s`, in order.
pub open spec fn key_views(s: Seq<ObjectInfo>) -> Seq<Seq<char>>
    decreases s.len(),
{
    if s.len() == 0 {
        Seq::empty()
    } else {
        key_views(s.drop_last()).push(s.last().key@)
    }
}

pub proof fn lemma_key_views_len(s: Seq<ObjectInfo>)
    ensures
        key_views(s).len() == s.len(),
        forall|i: int| 0 <= i < s.len() ==> key_views(s)[i] == #[trigger] s[i].key@,
    decreases s.len(),
{
    if s.len() > 0 {
        lemma_key_views_len(s.drop_last());
        assert forall|i: int| 0 <= i < s.len() implies key_views(s)[i] == #[trigger] s[i].key@ by {
            if i < s.len() - 1 {
                assert(s.drop_last()[i] == s[i]);
                assert(key_views(s.drop_last())[i] == s.drop_last()[i].key@);
            }
        }
    }
}

proof fn lemma_key_views_step(s: Seq<ObjectInfo>, i: int)
    requires
        0 <= i < s.len(),
    ensures
        key_views(s.subrange(0, i + 1)) == key_views(s.subrange(0, i)).push(s[i].key@),
{
    let t = s.subrange(0, i + 1);
    assert(t.drop_last() =~= s.subrange(0, i));
    assert(t.last() == s[i]);
}

/// The key sequences of the status entries of `r`.
pub open spec fn string_views(q: Seq<String>) -> Seq<Seq<char>>
    decreases q.len(),
{
    if q.len() == 0 {
        Seq::empty()
    } else {
        string_views(q.drop_last()).push(q.last()@)
    }
}

pub proof fn lemma_string_views_len(q: Seq<String>)
    ensures
        string_views(q).len() == q.len(),
    decreases q.len(),
{
    if q.len() > 0 {
        lemma_string_views_len(q.drop_last());
    }
}

/// The keys an operation targets: all filtered keys while a mask is active,
/// else the key under the cursor, or nothing when the cursor is out of
/// range.
pub open spec fn target_keys_spec(a: App) -> Seq<Seq<char>> {
    if a.active_mask is Some {
        key_views(a.filtered_objects@)
    } else if a.selected_object < a.objects@.len() {
        seq![a.objects@[a.selected_object as int].key@]
    } else {
        Seq::empty()
    }
}

/// Resolves the concrete key list an operation targets.
pub fn target_keys(app: &App) -> (r: Vec<String>)
    ensures
        string_views(r@) == target_keys_spec(*app),
{
    if app.active_mask.is_some() {
        let mut r: Vec<String> = Vec::new();
        let mut i: usize = 0;
        while i < app.filtered_objects.len()
            invariant
                i <= app.filtered_objects@.len(),
                string_views(r@) == key_views(app.filtered_objects@.subrange(0, i as int)),
            decreases app.filtered_objects@.len() - i,
        {
            proof {
                lemma_key_views_step(app.filtered_objects@, i as int);
            }
            let ghost old_r = r@;
            r.push(app.filtered_objects[i].key.clone());
            proof {
                assert(r@.drop_last() =~= old_r);
                assert(string_views(r@) == string_views(old_r).push(r@.last()@));
            }
            i = i + 1;
        }
        proof {
            assert(app.filtered_objects@.subrange(0, app.filtered_objects@.len() as int)
                =~= app.filtered_objects@);
        }
        r
    } else if app.selected_object < app.objects.len() {
        let mut r: Vec<String> = Vec::new();
        r.push(app.objects[app.selected_object].key.clone());
        proof {
            assert(r@.drop_last().len() == 0);
            assert(string_views(r@.drop_last()) =~= Seq::<Seq<char>>::empty());
            assert(string_views(r@) =~= seq![app.objects@[app.selected_object as int].key@]);
        }
        r
    } else {
        let r: Vec<String> = Vec::new();
        proof {
            assert(string_views(r@) =~= Seq::<Seq<char>>::empty());
        }
        r
    }
}

} // verus!
