use vstd::prelude::*;

verus! {

/// The value stored under `key` in a list of named entries: that of the first
/// entry whose name is `key`, if any.
pub open spec fn assoc_value<X>(entries: Seq<(String, X)>, key: Seq<char>) -> Option<X>
    decreases entries.len(),
{
    if entries.len() == 0 {
        None
    } else if entries[0].0@ == key {
        Some(entries[0].1)
    } else {
        assoc_value(entries.drop_first(), key)
    }
}

/// `i` is the position of the first entry named `key`.
pub open spec fn is_first_named<X>(entries: Seq<(String, X)>, key: Seq<char>, i: int) -> bool {
    &&& 0 <= i < entries.len()
    &&& entries[i].0@ == key
    &&& forall|j: int| 0 <= j < i ==> (#[trigger] entries[j]).0@ != key
}

/// A list holds nothing under `key` exactly when no entry is named `key`,
/// and otherwise what the first entry named `key` holds, whatever its length.
pub proof fn lemma_assoc_value_first_match<X>(entries: Seq<(String, X)>, key: Seq<char>)
    ensures
        assoc_value(entries, key) is None <==> forall|i: int|
            0 <= i < entries.len() ==> (#[trigger] entries[i]).0@ != key,
        assoc_value(entries, key) is Some ==> exists|i: int|
            is_first_named(entries, key, i) && assoc_value(entries, key) == Some(entries[i].1),
    decreases entries.len(),
{
    if entries.len() > 0 {
        let rest = entries.drop_first();
        lemma_assoc_value_first_match(rest, key);
        if entries[0].0@ == key {
            assert(is_first_named(entries, key, 0));
        } else {
            assert forall|i: int| 0 <= i < rest.len() implies #[trigger] rest[i] == entries[i + 1] by {}
            if assoc_value(rest, key) is Some {
                let k = choose|k: int| is_first_named(rest, key, k) && assoc_value(rest, key) == Some(rest[k].1);
                assert forall|j: int| 0 <= j < k + 1 implies (#[trigger] entries[j]).0@ != key by {
                    if j > 0 {
                        assert(entries[j] == rest[j - 1]);
                    }
                }
                assert(is_first_named(entries, key, k + 1));
            } else {
                assert forall|i: int| 0 <= i < entries.len() implies (#[trigger] entries[i]).0@ != key by {
                    if i > 0 {
                        assert(entries[i] == rest[i - 1]);
                    }
                }
            }
        }
    }
}

/// Looks up the first entry named `key`.
pub fn lookup<'a, X>(entries: &'a Vec<(String, X)>, key: &String) -> (res: Option<&'a X>)
    ensures
        match res {
            Some(v) => assoc_value(entries@, key@) == Some(*v),
            None => assoc_value(entries@, key@) is None,
        },
        res is None <==> forall|i: int| 0 <= i < entries@.len() ==> (#[trigger] entries@[i]).0@ != key@,
        res matches Some(v) ==> exists|i: int| is_first_named(entries@, key@, i) && *v == entries@[i].1,
{
    proof {
        lemma_assoc_value_first_match(entries@, key@);
    }
    let mut i: usize = 0;
    assert(entries@.skip(0) =~= entries@);
    while i < entries.len()
        invariant
            0 <= i <= entries.len(),
            assoc_value(entries@, key@) == assoc_value(entries@.skip(i as int), key@),
        decreases entries.len() - i,
    {
        assert(entries@.skip(i as int).drop_first() =~= entries@.skip(i + 1));
        assert(entries@.skip(i as int)[0] == entries@[i as int]);
        if entries[i].0 == *key {
            proof {
                lemma_assoc_value_first_match(entries@, key@);
            }
            return Some(&entries[i].1);
        }
        i = i + 1;
    }
    assert(entries@.skip(i as int).len() == 0);
    None
}

} // verus!
