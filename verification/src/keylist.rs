//! String-keyed association lists with distinct keys: the storage shape behind
//! the property palette, the widget extension map and the view registry. Keys
//! compare by their character sequence.

use vstd::prelude::*;

verus! {

/// No two entries share a key.
pub open spec fn distinct_keys<T>(s: Seq<(String, T)>) -> bool {
    forall|i: int, j: int| 0 <= i < j < s.len() ==> s[i].0@ != s[j].0@
}

/// Some entry carries the key `k`.
pub open spec fn has_key<T>(s: Seq<(String, T)>, k: Seq<char>) -> bool {
    exists|i: int| 0 <= i < s.len() && s[i].0@ == k
}

/// The index of an entry carrying `k`.
pub open spec fn key_idx<T>(s: Seq<(String, T)>, k: Seq<char>) -> int {
    choose|i: int| 0 <= i < s.len() && s[i].0@ == k
}

/// The value stored under `k`.
pub open spec fn val_of<T>(s: Seq<(String, T)>, k: Seq<char>) -> T {
    s[key_idx(s, k)].1
}

/// Under distinct keys, the entry carrying `k` is unique, so `key_idx` picks
/// exactly the witness index.
pub proof fn lemma_key_idx_unique<T>(s: Seq<(String, T)>, k: Seq<char>, i: int)
    requires
        distinct_keys(s),
        0 <= i < s.len(),
        s[i].0@ == k,
    ensures
        has_key(s, k),
        key_idx(s, k) == i,
{
    assert(has_key(s, k));
    let j = key_idx(s, k);
    assert(0 <= j < s.len() && s[j].0@ == k);
    if i < j {
        assert(s[i].0@ != s[j].0@);
    } else if j < i {
        assert(s[j].0@ != s[i].0@);
    }
}

/// Finds the index of the entry whose key equals `key`.
pub fn key_find<T>(v: &Vec<(String, T)>, key: &String) -> (r: Option<usize>)
    ensures
        match r {
            Some(i) => i < v@.len() && v@[i as int].0@ == key@,
            None => !has_key(v@, key@),
        },
{
    let n = v.len();
    let mut i: usize = 0;
    while i < n
        invariant
            n == v.len(),
            0 <= i <= n,
            forall|j: int| 0 <= j < i ==> v@[j].0@ != key@,
        decreases n - i,
    {
        if v[i].0 == *key {
            return Some(i);
        }
        i = i + 1;
    }
    None
}

/// Stores `value` under `key`, replacing the entry that carried `key` before,
/// if any; every other entry keeps its key and value.
pub fn key_set<T>(v: &mut Vec<(String, T)>, key: String, value: T)
    requires
        distinct_keys(old(v)@),
    ensures
        distinct_keys(final(v)@),
        has_key(final(v)@, key@),
        val_of(final(v)@, key@) == value,
        forall|k: Seq<char>|
            k != key@ ==> #[trigger] has_key(final(v)@, k) == has_key(old(v)@, k),
        forall|k: Seq<char>|
            k != key@ && has_key(old(v)@, k) ==> #[trigger] val_of(final(v)@, k) == val_of(
                old(v)@,
                k,
            ),
        has_key(old(v)@, key@) ==> final(v)@ == old(v)@.update(
            key_idx(old(v)@, key@),
            (key, value),
        ),
        !has_key(old(v)@, key@) ==> final(v)@ == old(v)@.push((key, value)),
{
    let found = key_find(v, &key);
    match found {
        Some(i) => {
            let ghost olds = v@;
            proof {
                lemma_key_idx_unique(olds, olds[i as int].0@, i as int);
            }
            v[i] = (key, value);
            proof {
                lemma_key_idx_unique(v@, v@[i as int].0@, i as int);
                assert forall|k: Seq<char>| k != v@[i as int].0@ implies #[trigger] has_key(
                    v@,
                    k,
                ) == has_key(olds, k) by {
                    assert(forall|j: int|
                        0 <= j < olds.len() && j != i ==> v@[j] == olds[j]);
                }
                assert forall|k: Seq<char>|
                    k != v@[i as int].0@ && has_key(olds, k) implies #[trigger] val_of(v@, k)
                    == val_of(olds, k) by {
                    let w = key_idx(olds, k);
                    assert(olds[w].0@ == k);
                    assert(v@[w] == olds[w]);
                    lemma_key_idx_unique(v@, k, w);
                }
            }
        },
        None => {
            let ghost olds = v@;
            v.push((key, value));
            proof {
                lemma_key_idx_unique(v@, v@[olds.len() as int].0@, olds.len() as int);
                assert forall|k: Seq<char>| k != v@[olds.len() as int].0@ implies #[trigger] has_key(
                    v@,
                    k,
                ) == has_key(olds, k) by {
                    assert(forall|j: int| 0 <= j < olds.len() ==> v@[j] == olds[j]);
                    if has_key(v@, k) {
                        let w = key_idx(v@, k);
                        assert(0 <= w < v@.len() && v@[w].0@ == k);
                        assert(w < olds.len());
                    }
                }
                assert forall|k: Seq<char>|
                    k != v@[olds.len() as int].0@ && has_key(olds, k) implies #[trigger] val_of(
                    v@,
                    k,
                ) == val_of(olds, k) by {
                    let w = key_idx(olds, k);
                    assert(olds[w].0@ == k);
                    assert(v@[w] == olds[w]);
                    lemma_key_idx_unique(v@, k, w);
                }
            }
        },
    }
}

/// Removes the entry carrying `key`, if any; every other entry keeps its key
/// and value. Removing an absent key changes nothing.
pub fn key_remove<T>(v: &mut Vec<(String, T)>, key: &String)
    requires
        distinct_keys(old(v)@),
    ensures
        distinct_keys(final(v)@),
        !has_key(final(v)@, key@),
        forall|k: Seq<char>|
            k != key@ ==> #[trigger] has_key(final(v)@, k) == has_key(old(v)@, k),
        forall|k: Seq<char>|
            k != key@ && has_key(old(v)@, k) ==> #[trigger] val_of(final(v)@, k) == val_of(
                old(v)@,
                k,
            ),
        has_key(old(v)@, key@) ==> final(v)@ == old(v)@.remove(key_idx(old(v)@, key@)),
        !has_key(old(v)@, key@) ==> final(v)@ == old(v)@,
{
    let found = key_find(v, key);
    match found {
        Some(i) => {
            let ghost olds = v@;
            proof {
                lemma_key_idx_unique(olds, olds[i as int].0@, i as int);
            }
            v.remove(i);
            proof {
                assert(forall|j: int| 0 <= j < i ==> v@[j] == olds[j]);
                assert(forall|j: int|
                    i <= j < v@.len() ==> v@[j] == olds[j + 1]);
                if has_key(v@, key@) {
                    let w = key_idx(v@, key@);
                    assert(0 <= w < v@.len() && v@[w].0@ == key@);
                    if w < i {
                        assert(olds[w].0@ == key@);
                        assert(olds[i as int].0@ == key@);
                    } else {
                        assert(olds[w + 1].0@ == key@);
                        assert(olds[i as int].0@ == key@);
                    }
                }
                assert forall|k: Seq<char>| k != key@ implies #[trigger] has_key(v@, k)
                    == has_key(olds, k) by {
                    if has_key(olds, k) {
                        let w = key_idx(olds, k);
                        assert(olds[w].0@ == k);
                        if w < i {
                            assert(v@[w] == olds[w]);
                        } else {
                            assert(w != i);
                            assert(v@[w - 1] == olds[w]);
                        }
                    }
                    if has_key(v@, k) {
                        let w = key_idx(v@, k);
                        assert(v@[w].0@ == k);
                    }
                }
                assert forall|k: Seq<char>|
                    k != key@ && has_key(olds, k) implies #[trigger] val_of(v@, k) == val_of(
                    olds,
                    k,
                ) by {
                    let w = key_idx(olds, k);
                    lemma_key_idx_unique(olds, k, w);
                    assert(olds[w].0@ == k);
                    if w < i {
                        assert(v@[w] == olds[w]);
                        lemma_key_idx_unique(v@, k, w);
                    } else {
                        assert(w != i);
                        assert(v@[w - 1] == olds[w]);
                        lemma_key_idx_unique(v@, k, w - 1);
                    }
                }
            }
        },
        None => {},
    }
}

} // verus!
