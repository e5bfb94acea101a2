//! Small string-keyed maps held as vectors of (key, value) pairs with
//! distinct keys, viewed as `Map`s.

use vstd::prelude::*;
use crate::text::{str_eq, to_string};

verus! {

pub open spec fn keys_unique(v: Seq<(String, u8)>) -> bool {
    forall|i: int, j: int|
        0 <= i < v.len() && 0 <= j < v.len() && i != j ==> #[trigger] v[i].0@ != #[trigger] v[j].0@
}

/// The map the pairs describe (a later pair for a key would win).
pub open spec fn map_of(v: Seq<(String, u8)>) -> Map<Seq<char>, u8>
    decreases v.len(),
{
    if v.len() == 0 {
        Map::empty()
    } else {
        map_of(v.drop_last()).insert(v.last().0@, v.last().1)
    }
}

/// With distinct keys, the map holds exactly the pairs' keys, each with its
/// pair's value.
pub proof fn lemma_map_of(v: Seq<(String, u8)>)
    requires
        keys_unique(v),
    ensures
        forall|k: Seq<char>| #[trigger]
            map_of(v).dom().contains(k) <==> exists|i: int| 0 <= i < v.len() && #[trigger] v[i].0@
                == k,
        forall|i: int| 0 <= i < v.len() ==> map_of(v)[#[trigger] v[i].0@] == v[i].1,
    decreases v.len(),
{
    if v.len() > 0 {
        let w = v.drop_last();
        assert(keys_unique(w)) by {
            assert forall|i: int, j: int|
                0 <= i < w.len() && 0 <= j < w.len() && i != j implies #[trigger] w[i].0@
                != #[trigger] w[j].0@ by {
                assert(w[i] == v[i] && w[j] == v[j]);
            }
        }
        lemma_map_of(w);
        let n = v.len() - 1;
        assert forall|k: Seq<char>| #[trigger]
            map_of(v).dom().contains(k) <==> exists|i: int| 0 <= i < v.len() && #[trigger] v[i].0@
                == k by {
            if map_of(v).dom().contains(k) && k != v.last().0@ {
                assert(map_of(w).dom().contains(k));
                let i = choose|i: int| 0 <= i < w.len() && #[trigger] w[i].0@ == k;
                assert(v[i] == w[i]);
            }
            if exists|i: int| 0 <= i < v.len() && #[trigger] v[i].0@ == k {
                let i = choose|i: int| 0 <= i < v.len() && #[trigger] v[i].0@ == k;
                if i < n {
                    assert(w[i] == v[i]);
                    assert(map_of(w).dom().contains(k));
                }
            }
        }
        assert forall|i: int| 0 <= i < v.len() implies map_of(v)[#[trigger] v[i].0@] == v[i].1 by {
            if i < n {
                assert(w[i] == v[i]);
                assert(v[i].0@ != v[n].0@);
            }
        }
    }
}

/// The index of `key` among the pairs, if it occurs.
pub fn find_key(v: &Vec<(String, u8)>, key: &str) -> (r: Option<usize>)
    ensures
        match r {
            Some(i) => i < v@.len() && v@[i as int].0@ == key@,
            None => forall|i: int| 0 <= i < v@.len() ==> v@[i].0@ != key@,
        },
{
    let mut i: usize = 0;
    while i < v.len()
        invariant
            i <= v@.len(),
            forall|j: int| 0 <= j < i ==> v@[j].0@ != key@,
        decreases v@.len() - i,
    {
        if str_eq(v[i].0.as_str(), key) {
            return Some(i);
        }
        i = i + 1;
    }
    None
}

/// The value stored for `key`, if any.
pub fn get_key(v: &Vec<(String, u8)>, key: &str) -> (r: Option<u8>)
    requires
        keys_unique(v@),
    ensures
        match r {
            Some(x) => map_of(v@).dom().contains(key@) && map_of(v@)[key@] == x,
            None => !map_of(v@).dom().contains(key@),
        },
{
    proof {
        lemma_map_of(v@);
    }
    match find_key(v, key) {
        Some(i) => Some(v[i].1),
        None => None,
    }
}

/// Stores `value` for `key`, replacing any earlier value.
pub fn set_key(v: &mut Vec<(String, u8)>, key: &str, value: u8)
    requires
        keys_unique(old(v)@),
    ensures
        keys_unique(final(v)@),
        map_of(final(v)@) == map_of(old(v)@).insert(key@, value),
{
    proof {
        lemma_map_of(v@);
    }
    let ghost before = v@;
    match find_key(v, key) {
        Some(i) => {
            v.set(i, (to_string(key), value));
            assert(keys_unique(v@)) by {
                assert forall|a: int, b: int|
                    0 <= a < v@.len() && 0 <= b < v@.len() && a != b implies #[trigger] v@[a].0@
                    != #[trigger] v@[b].0@ by {
                    if a != i && b != i {
                        assert(v@[a] == before[a] && v@[b] == before[b]);
                    } else if a == i {
                        assert(v@[b] == before[b]);
                        assert(before[i as int].0@ != before[b].0@);
                    } else {
                        assert(v@[a] == before[a]);
                        assert(before[i as int].0@ != before[a].0@);
                    }
                }
            }
            proof {
                lemma_map_of(v@);
                assert forall|k: Seq<char>| #[trigger] map_of(v@).dom().contains(k)
                    == map_of(before).insert(key@, value).dom().contains(k) by {
                    if map_of(v@).dom().contains(k) {
                        let j = choose|j: int| 0 <= j < v@.len() && #[trigger] v@[j].0@ == k;
                        if j != i {
                            assert(before[j] == v@[j]);
                        }
                    }
                    if map_of(before).dom().contains(k) {
                        let j = choose|j: int| 0 <= j < before.len() && #[trigger] before[j].0@ == k;
                        if j != i {
                            assert(before[j] == v@[j]);
                        } else {
                            assert(v@[i as int].0@ == k);
                        }
                    }
                    if k == key@ {
                        assert(v@[i as int].0@ == k);
                    }
                }
                assert forall|k: Seq<char>| #[trigger] map_of(v@).dom().contains(k) implies map_of(
                    v@,
                )[k] == map_of(before).insert(key@, value)[k] by {
                    let j = choose|j: int| 0 <= j < v@.len() && #[trigger] v@[j].0@ == k;
                    if j != i {
                        assert(before[j] == v@[j]);
                    }
                }
                assert(map_of(v@) =~= map_of(before).insert(key@, value));
            }
        },
        None => {
            v.push((to_string(key), value));
            assert(v@.drop_last() =~= before);
            assert(keys_unique(v@)) by {
                assert forall|a: int, b: int|
                    0 <= a < v@.len() && 0 <= b < v@.len() && a != b implies #[trigger] v@[a].0@
                    != #[trigger] v@[b].0@ by {
                    if a < before.len() && b < before.len() {
                        assert(v@[a] == before[a] && v@[b] == before[b]);
                    } else if a < before.len() {
                        assert(v@[a] == before[a]);
                    } else {
                        assert(v@[b] == before[b]);
                    }
                }
            }
        },
    }
}

/// Removes `key`, if present.
pub fn remove_key(v: &mut Vec<(String, u8)>, key: &str)
    requires
        keys_unique(old(v)@),
    ensures
        keys_unique(final(v)@),
        map_of(final(v)@) == map_of(old(v)@).remove(key@),
{
    proof {
        lemma_map_of(v@);
    }
    let ghost before = v@;
    match find_key(v, key) {
        Some(i) => {
            v.remove(i);
            assert(keys_unique(v@)) by {
                assert forall|a: int, b: int|
                    0 <= a < v@.len() && 0 <= b < v@.len() && a != b implies #[trigger] v@[a].0@
                    != #[trigger] v@[b].0@ by {
                    let a2 = if a < i {
                        a
                    } else {
                        a + 1
                    };
                    let b2 = if b < i {
                        b
                    } else {
                        b + 1
                    };
                    assert(v@[a] == before[a2] && v@[b] == before[b2]);
                }
            }
            proof {
                lemma_map_of(v@);
                assert forall|k: Seq<char>| #[trigger] map_of(v@).dom().contains(k)
                    == map_of(before).remove(key@).dom().contains(k) by {
                    if map_of(v@).dom().contains(k) {
                        let j = choose|j: int| 0 <= j < v@.len() && #[trigger] v@[j].0@ == k;
                        let j2 = if j < i {
                            j
                        } else {
                            j + 1
                        };
                        assert(v@[j] == before[j2]);
                        assert(before[i as int].0@ != before[j2].0@);
                    }
                    if map_of(before).dom().contains(k) && k != key@ {
                        let j = choose|j: int| 0 <= j < before.len() && #[trigger] before[j].0@ == k;
                        assert(j != i);
                        let j2 = if j < i {
                            j
                        } else {
                            j - 1
                        };
                        assert(v@[j2] == before[j]);
                    }
                }
                assert forall|k: Seq<char>| #[trigger] map_of(v@).dom().contains(k) implies map_of(
                    v@,
                )[k] == map_of(before).remove(key@)[k] by {
                    let j = choose|j: int| 0 <= j < v@.len() && #[trigger] v@[j].0@ == k;
                    let j2 = if j < i {
                        j
                    } else {
                        j + 1
                    };
                    assert(v@[j] == before[j2]);
                }
                assert(map_of(v@) =~= map_of(before).remove(key@));
            }
        },
        None => {
            assert(map_of(before).remove(key@) =~= map_of(before));
        },
    }
}

} // verus!
