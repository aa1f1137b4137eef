//! The esoteric tables (tarot, astrology, Leela) and lookups in them.

pub mod astrology;
pub mod leela;
pub mod tarot;

use vstd::prelude::*;

verus! {

/// The views of a list of (key, title) pairs.
pub open spec fn pairs_view(entries: Seq<(&'static str, &'static str)>) -> Seq<(Seq<char>, Seq<char>)> {
    entries.map_values(|e: (&'static str, &'static str)| (e.0@, e.1@))
}

/// The title paired with the first entry whose key is `key`, or `default`.
pub open spec fn title_for(entries: Seq<(Seq<char>, Seq<char>)>, key: Seq<char>, default: Seq<char>) -> Seq<
    char,
>
    decreases entries.len(),
{
    if entries.len() == 0 {
        default
    } else if entries[0].0 == key {
        entries[0].1
    } else {
        title_for(entries.drop_first(), key, default)
    }
}

/// The position of the first key equal to `key`.
pub open spec fn first_key(keys: Seq<Seq<char>>, key: Seq<char>) -> Option<int>
    decreases keys.len(),
{
    if keys.len() == 0 {
        None
    } else if keys[0] == key {
        Some(0)
    } else {
        match first_key(keys.drop_first(), key) {
            Some(i) => Some(i + 1),
            None => None,
        }
    }
}

proof fn lemma_title_for_skip(entries: Seq<(Seq<char>, Seq<char>)>, key: Seq<char>, default: Seq<char>, i: int)
    requires
        0 <= i < entries.len(),
        entries.skip(i)[0].0 != key,
    ensures
        title_for(entries.skip(i), key, default) == title_for(entries.skip(i + 1), key, default),
{
    assert(entries.skip(i).drop_first() =~= entries.skip(i + 1));
}

/// The title paired with `key` in a table of (key, title) pairs, or
/// `default` when no entry has that key.
pub fn lookup_title(entries: &Vec<(&'static str, &'static str)>, key: &str, default: &'static str) -> (r:
    &'static str)
    ensures
        r@ == title_for(pairs_view(entries@), key@, default@),
{
    let n = entries.len();
    let ghost all = pairs_view(entries@);
    proof {
        assert(all.skip(0) =~= all);
    }
    for i in 0..n
        invariant
            n == entries@.len(),
            all == pairs_view(entries@),
            title_for(all, key@, default@) == title_for(all.skip(i as int), key@, default@),
    {
        let (k, t) = entries[i];
        if crate::text::str_eq(k, key) {
            return t;
        }
        proof {
            lemma_title_for_skip(all, key@, default@, i as int);
        }
    }
    proof {
        assert(all.skip(n as int) =~= Seq::<(Seq<char>, Seq<char>)>::empty());
    }
    default
}

proof fn lemma_first_key_skip(keys: Seq<Seq<char>>, key: Seq<char>, i: int)
    requires
        0 <= i < keys.len(),
        keys[i] != key,
    ensures
        first_key(keys.skip(i), key) == (match first_key(keys.skip(i + 1), key) {
            Some(j) => Some(j + 1),
            None => None::<int>,
        }),
{
    assert(keys.skip(i).drop_first() =~= keys.skip(i + 1));
}

/// The position of the first of `keys` equal to `key`.
pub fn find_key(keys: &Vec<&'static str>, key: &str) -> (r: Option<usize>)
    ensures
        r matches Some(i) ==> first_key(keys@.map_values(|k: &'static str| k@), key@) == Some(i as int),
        r is None ==> first_key(keys@.map_values(|k: &'static str| k@), key@) is None,
        r matches Some(i) ==> i < keys@.len() && keys@[i as int]@ == key@,
        r is None ==> forall|j: int| 0 <= j < keys@.len() ==> keys@[j]@ != key@,
{
    let n = keys.len();
    let ghost all = keys@.map_values(|k: &'static str| k@);
    proof {
        assert(all.skip(0) =~= all);
    }
    for i in 0..n
        invariant
            n == keys@.len(),
            all == keys@.map_values(|k: &'static str| k@),
            forall|j: int| 0 <= j < i ==> keys@[j]@ != key@,
            first_key(all, key@) == (match first_key(all.skip(i as int), key@) {
                Some(j) => Some(j + i),
                None => None::<int>,
            }),
    {
        if crate::text::str_eq(keys[i], key) {
            proof {
                assert(all.skip(i as int)[0] == key@);
            }
            return Some(i);
        }
        proof {
            lemma_first_key_skip(all, key@, i as int);
        }
    }
    proof {
        assert(all.skip(n as int) =~= Seq::<Seq<char>>::empty());
    }
    None
}

} // verus!
