use vstd::prelude::*;

verus! {

/// `i` is the place of the first of `members` that goes under `key`.
pub open spec fn first_named<K, T>(members: Seq<(K, T)>, key: K, i: int) -> bool {
    &&& 0 <= i < members.len()
    &&& members[i].0 == key
    &&& forall|j: int| 0 <= j < i ==> (#[trigger] members[j]).0 != key
}

/// What goes with the first of `members` under `key`, where there is one.
pub open spec fn named<K, T>(members: Seq<(K, T)>, key: K) -> Option<T> {
    if exists|i: int| first_named(members, key, i) {
        Some(members[choose|i: int| first_named(members, key, i)].1)
    } else {
        None
    }
}

/// The first member under `key` decides what `named` gives.
pub proof fn lemma_named_at<K, T>(members: Seq<(K, T)>, key: K, i: int)
    requires
        first_named(members, key, i),
    ensures
        named(members, key) == Some(members[i].1),
{
    let c = choose|c: int| first_named(members, key, c);
    assert(first_named(members, key, c));
    if c < i {
        assert(members[c].0 != key);
    }
    if i < c {
        assert(members[i].0 != key);
    }
}

/// Where no member goes under `key`, `named` gives nothing.
pub proof fn lemma_named_absent<K, T>(members: Seq<(K, T)>, key: K)
    requires
        forall|j: int| 0 <= j < members.len() ==> (#[trigger] members[j]).0 != key,
    ensures
        named(members, key) is None,
{
    if exists|i: int| first_named(members, key, i) {
        let c = choose|c: int| first_named(members, key, c);
        assert(members[c].0 != key);
    }
}

/// A member under `key` at any place means that `named` gives something.
pub proof fn lemma_named_some<K, T>(members: Seq<(K, T)>, key: K, i: int)
    requires
        0 <= i < members.len(),
        members[i].0 == key,
    ensures
        named(members, key) is Some,
    decreases i,
{
    if exists|j: int| 0 <= j < i && (#[trigger] members[j]).0 == key {
        let j = choose|j: int| 0 <= j < i && (#[trigger] members[j]).0 == key;
        lemma_named_some(members, key, j);
    } else {
        lemma_named_at(members, key, i);
    }
}

/// What `named` gives stands in the sequence under `key`.
pub proof fn lemma_named_found<K, T>(members: Seq<(K, T)>, key: K)
    requires
        named(members, key) is Some,
    ensures
        exists|i: int| first_named(members, key, i) && named(members, key) == Some(members[i].1),
{
    let c = choose|c: int| first_named(members, key, c);
    lemma_named_at(members, key, c);
}

/// Two sequences with the same keys, and the same values under `key`, give the same.
pub proof fn lemma_named_same<K, T>(a: Seq<(K, T)>, b: Seq<(K, T)>, key: K)
    requires
        a.len() == b.len(),
        forall|j: int| 0 <= j < a.len() ==> (#[trigger] a[j]).0 == b[j].0,
        forall|j: int| 0 <= j < a.len() && (#[trigger] a[j]).0 == key ==> a[j].1 == b[j].1,
    ensures
        named(a, key) == named(b, key),
{
    if exists|i: int| first_named(a, key, i) {
        let c = choose|c: int| first_named(a, key, c);
        assert forall|j: int| 0 <= j < c implies (#[trigger] b[j]).0 != key by {
            assert(a[j].0 != key);
        }
        assert(first_named(b, key, c));
        lemma_named_at(a, key, c);
        lemma_named_at(b, key, c);
    } else if exists|i: int| first_named(b, key, i) {
        let c = choose|c: int| first_named(b, key, c);
        assert forall|j: int| 0 <= j < c implies (#[trigger] a[j]).0 != key by {
            assert(b[j].0 != key);
        }
        assert(a[c].0 == key);
        assert(first_named(a, key, c));
    }
}

/// What `named` gives after one more member was put behind the others.
pub proof fn lemma_named_push<K, T>(members: Seq<(K, T)>, added: (K, T), key: K)
    ensures
        named(members.push(added), key) == if named(members, key) is Some {
            named(members, key)
        } else if added.0 == key {
            Some(added.1)
        } else {
            None
        },
{
    let longer = members.push(added);
    if exists|i: int| first_named(members, key, i) {
        let c = choose|c: int| first_named(members, key, c);
        assert forall|j: int| 0 <= j < c implies (#[trigger] longer[j]).0 != key by {
            assert(members[j].0 != key);
        }
        assert(longer[c] == members[c]);
        assert(first_named(longer, key, c));
        lemma_named_at(members, key, c);
        lemma_named_at(longer, key, c);
    } else {
        assert forall|j: int| 0 <= j < members.len() implies (#[trigger] longer[j]).0 != key by {
            if members[j].0 == key {
                lemma_named_some(members, key, j);
            }
            assert(longer[j] == members[j]);
        }
        if added.0 == key {
            assert(longer[members.len() as int] == added);
            assert(first_named(longer, key, members.len() as int));
            lemma_named_at(longer, key, members.len() as int);
        } else {
            assert(longer[members.len() as int] == added);
            lemma_named_absent(longer, key);
        }
    }
}

} // verus!
