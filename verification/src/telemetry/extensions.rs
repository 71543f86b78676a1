use vstd::prelude::*;

use super::frames::admits;
use super::frames::frame_is_at_least_as_new;
use super::state::Namespaced;

verus! {

/// No two entries share a namespace.
pub open spec fn unique_namespaces<V>(v: Seq<Namespaced<V>>) -> bool {
    forall|i: int, j: int|
        0 <= i < v.len() && 0 <= j < v.len() && i != j ==> v[i].namespace@ != v[j].namespace@
}

/// Whether some entry is owned by namespace `k`.
pub open spec fn has_namespace<V>(v: Seq<Namespaced<V>>, k: Seq<char>) -> bool {
    exists|i: int| 0 <= i < v.len() && #[trigger] v[i].namespace@ == k
}

/// The value owned by namespace `k`, if any.
pub open spec fn lookup<V>(v: Seq<Namespaced<V>>, k: Seq<char>) -> Option<V> {
    if has_namespace(v, k) {
        Some(v[choose|i: int| 0 <= i < v.len() && #[trigger] v[i].namespace@ == k].value)
    } else {
        None
    }
}

/// In a namespace-unique sequence, an entry is what its namespace looks up.
pub proof fn lemma_lookup_at<V>(v: Seq<Namespaced<V>>, i: int)
    requires
        unique_namespaces(v),
        0 <= i < v.len(),
    ensures
        lookup(v, v[i].namespace@) == Some(v[i].value),
{
    assert(v[i].namespace@ == v[i].namespace@);
    let j = choose|j: int| 0 <= j < v.len() && #[trigger] v[j].namespace@ == v[i].namespace@;
    assert(j == i);
}

/// Replacing the entry of one namespace changes only that namespace's lookup.
pub proof fn lemma_lookup_replace<V>(v: Seq<Namespaced<V>>, i: int, e: Namespaced<V>)
    requires
        unique_namespaces(v),
        0 <= i < v.len(),
        v[i].namespace@ == e.namespace@,
    ensures
        unique_namespaces(v.update(i, e)),
        forall|k: Seq<char>|
            #[trigger] lookup(v.update(i, e), k) == (if k == e.namespace@ {
                Some(e.value)
            } else {
                lookup(v, k)
            }),
{
    let w = v.update(i, e);
    assert(unique_namespaces(w));
    lemma_lookup_at(w, i);
    assert forall|k: Seq<char>| #[trigger] lookup(w, k) == (if k == e.namespace@ {
        Some(e.value)
    } else {
        lookup(v, k)
    }) by {
        if k != e.namespace@ {
            if has_namespace(v, k) {
                let j = choose|j: int| 0 <= j < v.len() && #[trigger] v[j].namespace@ == k;
                assert(w[j].namespace@ == k);
                let jw = choose|j: int| 0 <= j < w.len() && #[trigger] w[j].namespace@ == k;
                assert(jw == j);
            } else {
                assert forall|j: int| 0 <= j < w.len() implies #[trigger] w[j].namespace@ != k by {
                    if j != i {
                        assert(w[j] == v[j]);
                    }
                }
            }
        }
    }
}

/// Appending an entry of a new namespace changes only that namespace's lookup.
pub proof fn lemma_lookup_push<V>(v: Seq<Namespaced<V>>, e: Namespaced<V>)
    requires
        unique_namespaces(v),
        !has_namespace(v, e.namespace@),
    ensures
        unique_namespaces(v.push(e)),
        forall|k: Seq<char>|
            #[trigger] lookup(v.push(e), k) == (if k == e.namespace@ {
                Some(e.value)
            } else {
                lookup(v, k)
            }),
{
    let w = v.push(e);
    assert forall|i: int, j: int|
        0 <= i < w.len() && 0 <= j < w.len() && i != j implies w[i].namespace@ != w[j].namespace@ by {
        if i == v.len() {
            assert(w[j] == v[j]);
        } else if j == v.len() {
            assert(w[i] == v[i]);
        }
    }
    lemma_lookup_at(w, v.len() as int);
    assert forall|k: Seq<char>| #[trigger] lookup(w, k) == (if k == e.namespace@ {
        Some(e.value)
    } else {
        lookup(v, k)
    }) by {
        if k != e.namespace@ {
            if has_namespace(v, k) {
                let j = choose|j: int| 0 <= j < v.len() && #[trigger] v[j].namespace@ == k;
                assert(w[j].namespace@ == k);
                lemma_lookup_at(v, j);
                lemma_lookup_at(w, j);
            } else {
                assert forall|j: int| 0 <= j < w.len() implies #[trigger] w[j].namespace@ != k by {
                    if j < v.len() {
                        assert(w[j] == v[j]);
                    }
                }
            }
        }
    }
}

/// Looking up in `e` followed by `v`: `e` answers for its own namespace.
pub proof fn lemma_lookup_prepend<V>(v: Seq<Namespaced<V>>, e: Namespaced<V>)
    requires
        unique_namespaces(seq![e] + v),
    ensures
        unique_namespaces(v),
        !has_namespace(v, e.namespace@),
        forall|k: Seq<char>|
            #[trigger] lookup(seq![e] + v, k) == (if k == e.namespace@ {
                Some(e.value)
            } else {
                lookup(v, k)
            }),
{
    let w = seq![e] + v;
    assert forall|i: int, j: int|
        0 <= i < v.len() && 0 <= j < v.len() && i != j implies v[i].namespace@ != v[j].namespace@ by {
        assert(w[i + 1] == v[i]);
        assert(w[j + 1] == v[j]);
    }
    assert forall|j: int| 0 <= j < v.len() implies #[trigger] v[j].namespace@ != e.namespace@ by {
        assert(w[j + 1] == v[j]);
        assert(w[0] == e);
    }
    lemma_lookup_at(w, 0);
    assert forall|k: Seq<char>| #[trigger] lookup(w, k) == (if k == e.namespace@ {
        Some(e.value)
    } else {
        lookup(v, k)
    }) by {
        if k != e.namespace@ {
            if has_namespace(v, k) {
                let j = choose|j: int| 0 <= j < v.len() && #[trigger] v[j].namespace@ == k;
                assert(w[j + 1] == v[j]);
                lemma_lookup_at(v, j);
                lemma_lookup_at(w, j + 1);
            } else {
                assert forall|j: int| 0 <= j < w.len() implies #[trigger] w[j].namespace@ != k by {
                    if j > 0 {
                        assert(w[j] == v[j - 1]);
                    }
                }
            }
        }
    }
}

/// Finds the position of the entry owned by `namespace`.
pub fn position_of<V>(v: &Vec<Namespaced<V>>, namespace: &String) -> (r: Option<usize>)
    ensures
        match r {
            Some(i) => i < v.len() && v@[i as int].namespace@ == namespace@,
            None => !has_namespace(v@, namespace@),
        },
{
    let mut i: usize = 0;
    while i < v.len()
        invariant
            i <= v.len(),
            forall|j: int| 0 <= j < i ==> #[trigger] v@[j].namespace@ != namespace@,
        decreases v.len() - i,
    {
        if v[i].namespace == *namespace {
            return Some(i);
        }
        i = i + 1;
    }
    None
}

/// Stores `e`, replacing the entry of the same namespace if there is one.
pub fn put<V>(v: &mut Vec<Namespaced<V>>, e: Namespaced<V>)
    requires
        unique_namespaces(old(v)@),
    ensures
        unique_namespaces(final(v)@),
        forall|k: Seq<char>|
            #[trigger] lookup(final(v)@, k) == (if k == e.namespace@ {
                Some(e.value)
            } else {
                lookup(old(v)@, k)
            }),
{
    let ghost before = v@;
    let ghost key = e.namespace@;
    let ghost value = e.value;
    match position_of(v, &e.namespace) {
        Some(i) => {
            proof {
                lemma_lookup_replace(before, i as int, e);
            }
            v.set(i, e);
        },
        None => {
            proof {
                lemma_lookup_push(before, e);
            }
            v.push(e);
        },
    }
}

/// Whether the extension value of namespace `k` offered with `frame` is
/// admitted: its namespace recorded no newer frame.
pub open spec fn extension_accepted<V>(
    updates: Seq<Namespaced<V>>,
    frames: Seq<Namespaced<u32>>,
    k: Seq<char>,
    frame: Option<u32>,
) -> bool {
    has_namespace(updates, k) && admits(lookup(frames, k), frame)
}

/// Whether `value` differs from what `stored` holds for namespace `k`: the
/// namespace is new, or its JSON text reads otherwise.
pub open spec fn differs_from_stored(stored: Seq<Namespaced<String>>, k: Seq<char>, value: Option<String>) -> bool {
    match lookup(stored, k) {
        None => true,
        Some(s) => !(value matches Some(v) && v@ == s@),
    }
}

/// Whether the extension value of namespace `k` is written: it is admitted
/// and differs from the stored one.
pub open spec fn extension_written(
    updates: Seq<Namespaced<String>>,
    frames: Seq<Namespaced<u32>>,
    stored: Seq<Namespaced<String>>,
    k: Seq<char>,
    frame: Option<u32>,
) -> bool {
    extension_accepted(updates, frames, k, frame) && differs_from_stored(stored, k, lookup(updates, k))
}

/// Whether offering `updates` with `frame` against `frames` changes any
/// namespace's stored value.
pub open spec fn extensions_changed(
    updates: Seq<Namespaced<String>>,
    frames: Seq<Namespaced<u32>>,
    stored: Seq<Namespaced<String>>,
    frame: Option<u32>,
) -> bool {
    exists|k: Seq<char>| #[trigger] extension_written(updates, frames, stored, k, frame)
}

/// Offers each namespaced value with `frame`: a value is admitted unless its
/// namespace last recorded a newer frame, and replaces the stored one only
/// when its JSON text differs; an admitted frame is recorded either way.
pub fn apply_extensions(
    frames: &mut Vec<Namespaced<u32>>,
    target: &mut Vec<Namespaced<String>>,
    updates: Vec<Namespaced<String>>,
    frame: Option<u32>,
) -> (changed: bool)
    requires
        unique_namespaces(old(frames)@),
        unique_namespaces(old(target)@),
        unique_namespaces(updates@),
    ensures
        unique_namespaces(final(frames)@),
        unique_namespaces(final(target)@),
        changed == extensions_changed(updates@, old(frames)@, old(target)@, frame),
        !changed ==> *final(target) == *old(target),
        forall|k: Seq<char>|
            #[trigger] lookup(final(target)@, k) == (if extension_written(
                updates@,
                old(frames)@,
                old(target)@,
                k,
                frame,
            ) {
                lookup(updates@, k)
            } else {
                lookup(old(target)@, k)
            }),
        forall|k: Seq<char>|
            #[trigger] lookup(final(frames)@, k) == (if frame is Some && extension_accepted(
                updates@,
                old(frames)@,
                k,
                frame,
            ) {
                Some(frame->0)
            } else {
                lookup(old(frames)@, k)
            }),
{
    let ghost all = updates@;
    let ghost f0 = frames@;
    let ghost t0 = target@;
    let ghost t0v = *target;
    let mut rest = updates;
    let mut changed = false;
    assert(all.subrange(all.len() as int, all.len() as int) =~= Seq::<Namespaced<String>>::empty());
    while rest.len() > 0
        invariant
            rest.len() <= all.len(),
            rest@ == all.subrange(0, rest.len() as int),
            unique_namespaces(all),
            unique_namespaces(frames@),
            unique_namespaces(target@),
            !changed ==> *target == t0v,
            forall|k: Seq<char>|
                #[trigger] lookup(target@, k) == (if extension_written(
                    all.subrange(rest.len() as int, all.len() as int),
                    f0,
                    t0,
                    k,
                    frame,
                ) {
                    lookup(all.subrange(rest.len() as int, all.len() as int), k)
                } else {
                    lookup(t0, k)
                }),
            forall|k: Seq<char>|
                #[trigger] lookup(frames@, k) == (if frame is Some && extension_accepted(
                    all.subrange(rest.len() as int, all.len() as int),
                    f0,
                    k,
                    frame,
                ) {
                    Some(frame->0)
                } else {
                    lookup(f0, k)
                }),
            changed == exists|k: Seq<char>| #[trigger]
                extension_written(all.subrange(rest.len() as int, all.len() as int), f0, t0, k, frame),
        decreases rest.len(),
    {
        let ghost m = rest.len() as int;
        let ghost tail = all.subrange(m, all.len() as int);
        let ghost tail2 = all.subrange(m - 1, all.len() as int);
        let ghost old_rest = rest@;
        let entry = rest.pop().unwrap();
        let ghost key = entry.namespace@;
        proof {
            assert(old_rest[m - 1] == all[m - 1]);
            assert(entry == all[m - 1]);
            assert(tail2 =~= seq![entry] + tail);
            assert forall|i: int, j: int|
                0 <= i < tail2.len() && 0 <= j < tail2.len() && i != j implies tail2[i].namespace@
                != tail2[j].namespace@ by {
                assert(tail2[i] == all[m - 1 + i]);
                assert(tail2[j] == all[m - 1 + j]);
            }
            lemma_lookup_prepend(tail, entry);
        }
        let recorded = match position_of(frames, &entry.namespace) {
            Some(i) => {
                proof {
                    lemma_lookup_at(frames@, i as int);
                }
                Some(frames[i].value)
            },
            None => None,
        };
        let is_current = match frame {
            None => true,
            Some(candidate) => match recorded {
                None => true,
                Some(current) => frame_is_at_least_as_new(candidate, current),
            },
        };
        proof {
            assert(recorded == lookup(frames@, key));
            assert(!extension_accepted(tail, f0, key, frame));
            assert(recorded == lookup(f0, key));
            assert(tail2[0].namespace@ == key);
            assert(extension_accepted(tail2, f0, key, frame) == is_current);
            assert(lookup(target@, key) == lookup(t0, key));
            assert forall|k: Seq<char>| k != key implies #[trigger] extension_accepted(tail2, f0, k, frame)
                == extension_accepted(tail, f0, k, frame) by {
                if has_namespace(tail2, k) {
                    let j = choose|j: int| 0 <= j < tail2.len() && #[trigger] tail2[j].namespace@ == k;
                    assert(j != 0);
                    assert(tail[j - 1] == tail2[j]);
                }
                if has_namespace(tail, k) {
                    let j = choose|j: int| 0 <= j < tail.len() && #[trigger] tail[j].namespace@ == k;
                    assert(tail2[j + 1] == tail[j]);
                }
            }
            assert forall|k: Seq<char>| k != key implies #[trigger] extension_written(tail2, f0, t0, k, frame)
                == extension_written(tail, f0, t0, k, frame) by {
                assert(extension_accepted(tail2, f0, k, frame) == extension_accepted(tail, f0, k, frame));
            }
        }
        let mut written = false;
        if is_current {
            if let Some(f) = frame {
                put(frames, Namespaced { namespace: entry.namespace.clone(), value: f });
            }
            let differs = match position_of(target, &entry.namespace) {
                Some(i) => {
                    proof {
                        lemma_lookup_at(target@, i as int);
                    }
                    !(target[i].value == entry.value)
                },
                None => true,
            };
            proof {
                assert(differs == differs_from_stored(t0, key, lookup(tail2, key)));
            }
            if differs {
                put(target, entry);
                changed = true;
                written = true;
            }
        }
        proof {
            assert(written == extension_written(tail2, f0, t0, key, frame));
            assert(rest@ =~= all.subrange(0, rest.len() as int));
            if changed {
                if !written {
                    let k = choose|k: Seq<char>| #[trigger] extension_written(tail, f0, t0, k, frame);
                    assert(extension_written(tail2, f0, t0, k, frame));
                }
            } else {
                assert forall|k: Seq<char>| !#[trigger] extension_written(tail2, f0, t0, k, frame) by {
                    if k != key {
                        assert(!extension_written(tail, f0, t0, k, frame));
                    }
                }
            }
        }
    }
    proof {
        assert(all.subrange(0, all.len() as int) =~= all);
    }
    changed
}

} // verus!
