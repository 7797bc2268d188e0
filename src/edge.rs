//! Edge detection: which keys went down and which came up between two samples.

use vstd::prelude::*;
use crate::keys::{KeyCode, holds};

verus! {

broadcast use vstd::seq_lib::group_seq_properties;

/// The keys of `from`, in their order there, that are neither in `other` nor
/// in `excluded`.
pub open spec fn fresh_keys(from: Seq<KeyCode>, other: Seq<KeyCode>, excluded: Seq<KeyCode>) -> Seq<KeyCode> {
    from.filter(|k: KeyCode| !other.contains(k) && !excluded.contains(k))
}

/// Keys held now and not at the previous sample, excluded keys left out.
pub open spec fn pressed_keys(current: Seq<KeyCode>, previous: Seq<KeyCode>, excluded: Seq<KeyCode>) -> Seq<KeyCode> {
    fresh_keys(current, previous, excluded)
}

/// Keys held at the previous sample and not now, excluded keys left out.
pub open spec fn released_keys(current: Seq<KeyCode>, previous: Seq<KeyCode>, excluded: Seq<KeyCode>) -> Seq<KeyCode> {
    fresh_keys(previous, current, excluded)
}

/// The keys of `from` that are neither in `other` nor in `excluded`, in their
/// order in `from`.
fn collect_fresh(from: &Vec<KeyCode>, other: &Vec<KeyCode>, excluded: &Vec<KeyCode>) -> (r: Vec<KeyCode>)
    ensures
        r@ == fresh_keys(from@, other@, excluded@),
{
    let ghost pred = |k: KeyCode| !other@.contains(k) && !excluded@.contains(k);
    let mut out: Vec<KeyCode> = Vec::new();
    let mut i: usize = 0;
    while i < from.len()
        invariant
            0 <= i <= from@.len(),
            pred == (|k: KeyCode| !other@.contains(k) && !excluded@.contains(k)),
            out@ == from@.subrange(0, i as int).filter(pred),
        decreases from@.len() - i,
    {
        let key = from[i];
        proof {
            assert(from@.subrange(0, i + 1) =~= from@.subrange(0, i as int).push(key));
            from@.subrange(0, i as int).lemma_filter_push(key, pred);
        }
        if !holds(other, key) && !holds(excluded, key) {
            out.push(key);
        }
        i += 1;
    }
    assert(from@.subrange(0, from@.len() as int) =~= from@);
    out
}

/// Compares the keys held now with those held at the previous sample and
/// returns `(pressed, released)`: the keys that went down and the keys that
/// came up, each in the order of the sample it comes from, with the keys of
/// `excluded` left out of both.
pub fn detect(current: &Vec<KeyCode>, previous: &Vec<KeyCode>, excluded: &Vec<KeyCode>) -> (r: (
    Vec<KeyCode>,
    Vec<KeyCode>,
))
    ensures
        r.0@ == pressed_keys(current@, previous@, excluded@),
        r.1@ == released_keys(current@, previous@, excluded@),
{
    let pressed = collect_fresh(current, previous, excluded);
    let released = collect_fresh(previous, current, excluded);
    (pressed, released)
}

/// Membership in `fresh_keys`: a key is there exactly when it is in `from`,
/// not in `other` and not in `excluded`.
pub proof fn lemma_fresh_keys_contains(
    from: Seq<KeyCode>,
    other: Seq<KeyCode>,
    excluded: Seq<KeyCode>,
    k: KeyCode,
)
    ensures
        fresh_keys(from, other, excluded).contains(k) <==> (from.contains(k) && !other.contains(k)
            && !excluded.contains(k)),
{
    let pred = |x: KeyCode| !other.contains(x) && !excluded.contains(x);
    if fresh_keys(from, other, excluded).contains(k) {
        from.lemma_filter_contains_rev(pred, k);
        let i = choose|i: int| 0 <= i < from.filter(pred).len() && from.filter(pred)[i] == k;
        from.lemma_filter_pred(pred, i);
    }
    if from.contains(k) && !other.contains(k) && !excluded.contains(k) {
        let i = choose|i: int| 0 <= i < from.len() && from[i] == k;
        from.lemma_filter_contains(pred, i);
    }
}

/// Edge detection partitions the change between two samples exactly: the
/// pressed keys are the current keys minus the previous ones minus the
/// excluded ones, the released keys are the previous minus the current minus
/// the excluded, no key is both pressed and released, and no excluded key is
/// either.
pub proof fn lemma_detect_partition(current: Seq<KeyCode>, previous: Seq<KeyCode>, excluded: Seq<KeyCode>)
    ensures
        pressed_keys(current, previous, excluded).to_set() == current.to_set().difference(
            previous.to_set(),
        ).difference(excluded.to_set()),
        released_keys(current, previous, excluded).to_set() == previous.to_set().difference(
            current.to_set(),
        ).difference(excluded.to_set()),
        pressed_keys(current, previous, excluded).to_set().disjoint(
            released_keys(current, previous, excluded).to_set(),
        ),
        forall|k: KeyCode|
            #![trigger excluded.contains(k)]
            excluded.contains(k) ==> !pressed_keys(current, previous, excluded).contains(k)
                && !released_keys(current, previous, excluded).contains(k),
{
    let pressed = pressed_keys(current, previous, excluded);
    let released = released_keys(current, previous, excluded);
    assert forall|k: KeyCode|
        (pressed.contains(k) <==> (current.contains(k) && !previous.contains(k)
            && !excluded.contains(k))) && (released.contains(k) <==> (previous.contains(k)
            && !current.contains(k) && !excluded.contains(k))) by {
        lemma_fresh_keys_contains(current, previous, excluded, k);
        lemma_fresh_keys_contains(previous, current, excluded, k);
    }
    assert(pressed.to_set() =~= current.to_set().difference(previous.to_set()).difference(
        excluded.to_set(),
    ));
    assert(released.to_set() =~= previous.to_set().difference(current.to_set()).difference(
        excluded.to_set(),
    ));
}

/// Comparing a sample with itself yields neither pressed nor released keys.
pub proof fn lemma_detect_same_sample(current: Seq<KeyCode>, excluded: Seq<KeyCode>)
    ensures
        pressed_keys(current, current, excluded) == Seq::<KeyCode>::empty(),
        released_keys(current, current, excluded) == Seq::<KeyCode>::empty(),
{
    let pred = |k: KeyCode| !current.contains(k) && !excluded.contains(k);
    assert forall|i: int| 0 <= i < current.len() implies !pred(current[i]) by {
        assert(current.contains(current[i]));
    }
    current.lemma_all_neg_filter_empty(pred);
    assert(current.filter(pred) =~= Seq::<KeyCode>::empty());
}

} // verus!
