//! Ordering of backend listings: buckets are kept sorted by name and objects
//! by key, in the lexicographic byte order their UTF-8 text induces.

use vstd::prelude::*;

use crate::models::{BucketInfo, ObjectInfo};
use crate::text::{lemma_lex_refl, lemma_lex_total, lemma_lex_trans, lex_leq, lex_leq_exec};
use vstd::string::StrSliceExecFns;
use vstd::utf8::encode_utf8;

verus! {

/// Bucket order: by name.
pub open spec fn bucket_le(a: BucketInfo, b: BucketInfo) -> bool {
    lex_leq(encode_utf8(a.name@), encode_utf8(b.name@))
}

/// Object order: by key.
pub open spec fn object_le(a: ObjectInfo, b: ObjectInfo) -> bool {
    lex_leq(encode_utf8(a.key@), encode_utf8(b.key@))
}

pub open spec fn buckets_sorted(s: Seq<BucketInfo>) -> bool {
    forall|i: int, j: int| 0 <= i < j < s.len() ==> bucket_le(#[trigger] s[i], #[trigger] s[j])
}

pub open spec fn objects_sorted(s: Seq<ObjectInfo>) -> bool {
    forall|i: int, j: int| 0 <= i < j < s.len() ==> object_le(#[trigger] s[i], #[trigger] s[j])
}

fn min_bucket_index(v: &Vec<BucketInfo>) -> (m: usize)
    requires
        v@.len() > 0,
    ensures
        m < v@.len(),
        forall|k: int| 0 <= k < v@.len() ==> bucket_le(v@[m as int], #[trigger] v@[k]),
{
    let mut m: usize = 0;
    let mut t: usize = 1;
    proof {
        lemma_lex_refl(encode_utf8(v@[0].name@));
    }
    while t < v.len()
        invariant
            m < t <= v@.len(),
            forall|k: int| 0 <= k < t ==> bucket_le(v@[m as int], #[trigger] v@[k]),
        decreases v@.len() - t,
    {
        let mb = v[m].name.as_str().as_bytes_vec();
        let tb = v[t].name.as_str().as_bytes_vec();
        if !lex_leq_exec(&mb, &tb) {
            proof {
                lemma_lex_total(mb@, tb@);
                assert forall|k: int| 0 <= k < t + 1 implies bucket_le(
                    v@[t as int],
                    #[trigger] v@[k],
                ) by {
                    if k < t {
                        lemma_lex_trans(tb@, mb@, encode_utf8(v@[k].name@));
                    } else {
                        lemma_lex_refl(tb@);
                    }
                }
            }
            m = t;
        }
        t = t + 1;
    }
    m
}

/// Sorts a bucket listing by name; the result holds exactly the given
/// buckets.
pub fn sort_buckets(v: Vec<BucketInfo>) -> (r: Vec<BucketInfo>)
    ensures
        buckets_sorted(r@),
        r@.to_multiset() == v@.to_multiset(),
{
    let ghost orig = v@;
    let mut rest = v;
    let mut out: Vec<BucketInfo> = Vec::new();
    proof {
        broadcast use vstd::multiset::group_multiset_axioms;

        Seq::<BucketInfo>::empty().to_multiset_ensures();
        assert(out@.to_multiset().add(rest@.to_multiset()) =~= orig.to_multiset());
    }
    while rest.len() > 0
        invariant
            buckets_sorted(out@),
            forall|i: int, j: int|
                0 <= i < out@.len() && 0 <= j < rest@.len() ==> bucket_le(
                    #[trigger] out@[i],
                    #[trigger] rest@[j],
                ),
            out@.to_multiset().add(rest@.to_multiset()) == orig.to_multiset(),
        decreases rest@.len(),
    {
        let m = min_bucket_index(&rest);
        let ghost old_rest = rest@;
        let ghost old_out = out@;
        let x = rest.remove(m);
        out.push(x);
        proof {
            broadcast use vstd::multiset::group_multiset_axioms;

            old_rest.to_multiset_ensures();
            old_out.to_multiset_ensures();
            old_rest.remove_ensures(m as int);
            assert(old_rest.to_multiset().count(x) > 0) by {
                assert(old_rest.contains(x));
            }
            assert(out@.to_multiset().add(rest@.to_multiset()) =~= old_out.to_multiset().add(
                old_rest.to_multiset(),
            ));
            assert forall|i: int, j: int|
                0 <= i < out@.len() && 0 <= j < rest@.len() implies bucket_le(
                #[trigger] out@[i],
                #[trigger] rest@[j],
            ) by {
                assert(rest@[j] == if j < m { old_rest[j] } else { old_rest[j + 1] });
                if i < old_out.len() {
                    assert(bucket_le(old_out[i], rest@[j]));
                } else {
                    assert(out@[i] == x);
                    assert(bucket_le(old_rest[m as int], rest@[j]));
                }
            }
            assert forall|i: int, j: int| 0 <= i < j < out@.len() implies bucket_le(
                #[trigger] out@[i],
                #[trigger] out@[j],
            ) by {
                if j < out@.len() - 1 {
                    assert(bucket_le(old_out[i], old_out[j]));
                } else {
                    assert(out@[j] == x);
                    assert(bucket_le(old_out[i], old_rest[m as int]));
                }
            }
        }
    }
    proof {
        broadcast use vstd::multiset::group_multiset_axioms;

        rest@.to_multiset_ensures();
        assert forall|a| #[trigger]
            out@.to_multiset().add(rest@.to_multiset()).count(a) == out@.to_multiset().count(
            a,
        ) by {
            assert(!rest@.contains(a));
        }
        assert(out@.to_multiset() =~= out@.to_multiset().add(rest@.to_multiset()));
    }
    out
}

fn min_object_index(v: &Vec<ObjectInfo>) -> (m: usize)
    requires
        v@.len() > 0,
    ensures
        m < v@.len(),
        forall|k: int| 0 <= k < v@.len() ==> object_le(v@[m as int], #[trigger] v@[k]),
{
    let mut m: usize = 0;
    let mut t: usize = 1;
    proof {
        lemma_lex_refl(encode_utf8(v@[0].key@));
    }
    while t < v.len()
        invariant
            m < t <= v@.len(),
            forall|k: int| 0 <= k < t ==> object_le(v@[m as int], #[trigger] v@[k]),
        decreases v@.len() - t,
    {
        let mb = v[m].key.as_str().as_bytes_vec();
        let tb = v[t].key.as_str().as_bytes_vec();
        if !lex_leq_exec(&mb, &tb) {
            proof {
                lemma_lex_total(mb@, tb@);
                assert forall|k: int| 0 <= k < t + 1 implies object_le(
                    v@[t as int],
                    #[trigger] v@[k],
                ) by {
                    if k < t {
                        lemma_lex_trans(tb@, mb@, encode_utf8(v@[k].key@));
                    } else {
                        lemma_lex_refl(tb@);
                    }
                }
            }
            m = t;
        }
        t = t + 1;
    }
    m
}

/// Sorts an object listing by key; the result holds exactly the given
/// objects.
pub fn sort_objects(v: Vec<ObjectInfo>) -> (r: Vec<ObjectInfo>)
    ensures
        objects_sorted(r@),
        r@.to_multiset() == v@.to_multiset(),
{
    let ghost orig = v@;
    let mut rest = v;
    let mut out: Vec<ObjectInfo> = Vec::new();
    proof {
        broadcast use vstd::multiset::group_multiset_axioms;

        Seq::<ObjectInfo>::empty().to_multiset_ensures();
        assert(out@.to_multiset().add(rest@.to_multiset()) =~= orig.to_multiset());
    }
    while rest.len() > 0
        invariant
            objects_sorted(out@),
            forall|i: int, j: int|
                0 <= i < out@.len() && 0 <= j < rest@.len() ==> object_le(
                    #[trigger] out@[i],
                    #[trigger] rest@[j],
                ),
            out@.to_multiset().add(rest@.to_multiset()) == orig.to_multiset(),
        decreases rest@.len(),
    {
        let m = min_object_index(&rest);
        let ghost old_rest = rest@;
        let ghost old_out = out@;
        let x = rest.remove(m);
        out.push(x);
        proof {
            broadcast use vstd::multiset::group_multiset_axioms;

            old_rest.to_multiset_ensures();
            old_out.to_multiset_ensures();
            old_rest.remove_ensures(m as int);
            assert(old_rest.to_multiset().count(x) > 0) by {
                assert(old_rest.contains(x));
            }
            assert(out@.to_multiset().add(rest@.to_multiset()) =~= old_out.to_multiset().add(
                old_rest.to_multiset(),
            ));
            assert forall|i: int, j: int|
                0 <= i < out@.len() && 0 <= j < rest@.len() implies object_le(
                #[trigger] out@[i],
                #[trigger] rest@[j],
            ) by {
                assert(rest@[j] == if j < m { old_rest[j] } else { old_rest[j + 1] });
                if i < old_out.len() {
                    assert(object_le(old_out[i], rest@[j]));
                } else {
                    assert(out@[i] == x);
                    assert(object_le(old_rest[m as int], rest@[j]));
                }
            }
            assert forall|i: int, j: int| 0 <= i < j < out@.len() implies object_le(
                #[trigger] out@[i],
                #[trigger] out@[j],
            ) by {
                if j < out@.len() - 1 {
                    assert(object_le(old_out[i], old_out[j]));
                } else {
                    assert(out@[j] == x);
                    assert(object_le(old_out[i], old_rest[m as int]));
                }
            }
        }
    }
    proof {
        broadcast use vstd::multiset::group_multiset_axioms;

        rest@.to_multiset_ensures();
        assert forall|a| #[trigger]
            out@.to_multiset().add(rest@.to_multiset()).count(a) == out@.to_multiset().count(
            a,
        ) by {
            assert(!rest@.contains(a));
        }
        assert(out@.to_multiset() =~= out@.to_multiset().add(rest@.to_multiset()));
    }
    out
}

} // verus!
