use vstd::prelude::*;

verus! {

/// The value under the first entry whose key is `key`, if any. Manifest
/// tables have distinct keys, so the first match is the only one.
pub open spec fn assoc_lookup<T>(es: Seq<(Seq<char>, T)>, key: Seq<char>) -> Option<T>
    decreases es.len(),
{
    if es.len() == 0 {
        None
    } else if es[0].0 == key {
        Some(es[0].1)
    } else {
        assoc_lookup(es.drop_first(), key)
    }
}

pub proof fn lemma_lookup_hit<T>(es: Seq<(Seq<char>, T)>, key: Seq<char>, i: int)
    requires
        0 <= i < es.len(),
        es[i].0 == key,
        forall|j: int| 0 <= j < i ==> (#[trigger] es[j]).0 != key,
    ensures
        assoc_lookup(es, key) == Some(es[i].1),
    decreases i,
{
    if i == 0 {
    } else {
        assert(forall|j: int| 0 <= j < i - 1 ==> (#[trigger] es.drop_first()[j]).0 != key);
        lemma_lookup_hit(es.drop_first(), key, i - 1);
    }
}

pub proof fn lemma_lookup_miss<T>(es: Seq<(Seq<char>, T)>, key: Seq<char>)
    requires
        forall|i: int| 0 <= i < es.len() ==> (#[trigger] es[i]).0 != key,
    ensures
        assoc_lookup(es, key) is None,
    decreases es.len(),
{
    if es.len() > 0 {
        assert(forall|i: int| 0 <= i < es.len() - 1 ==> (#[trigger] es.drop_first()[i]).0 != key);
        lemma_lookup_miss(es.drop_first(), key);
    }
}

/// The first entry of `list` whose key equals `key`, scanning in order.
pub fn find_entry<'a, V>(list: &'a Vec<(String, V)>, key: &str) -> (r: Option<&'a V>)
    ensures
        match r {
            Some(v) => exists|i: int|
                0 <= i < list@.len() && (#[trigger] list@[i]).0@ == key@ && *v == list@[i].1
                    && (forall|j: int| 0 <= j < i ==> (#[trigger] list@[j]).0@ != key@),
            None => forall|i: int| 0 <= i < list@.len() ==> (#[trigger] list@[i]).0@ != key@,
        },
{
    let key_string = key.to_owned();
    let mut i: usize = 0;
    while i < list.len()
        invariant
            0 <= i <= list@.len(),
            key_string@ == key@,
            forall|j: int| 0 <= j < i ==> (#[trigger] list@[j]).0@ != key@,
        decreases list@.len() - i,
    {
        if list[i].0 == key_string {
            return Some(&list[i].1);
        }
        i = i + 1;
    }
    None
}

} // verus!
