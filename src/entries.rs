use vstd::prelude::*;

verus! {

/// The key and value of each stored pair, in storage order.
pub open spec fn entries_view(v: Seq<(String, String)>) -> Seq<(Seq<char>, Seq<char>)> {
    v.map_values(|p: (String, String)| (p.0@, p.1@))
}

/// What reads find after the writes of `s` were made in order: the last write of a key wins.
pub open spec fn written(s: Seq<(Seq<char>, Seq<char>)>) -> Map<Seq<char>, Seq<char>>
    decreases s.len(),
{
    if s.len() == 0 {
        Map::empty()
    } else {
        written(s.drop_last()).insert(s.last().0, s.last().1)
    }
}

/// A key that no pair holds is not written.
pub proof fn lemma_written_absent(s: Seq<(Seq<char>, Seq<char>)>, k: Seq<char>)
    requires
        forall|i: int| 0 <= i < s.len() ==> s[i].0 != k,
    ensures
        !written(s).contains_key(k),
    decreases s.len(),
{
    if s.len() > 0 {
        lemma_written_absent(s.drop_last(), k);
    }
}

/// The last pair that holds a key gives what a read of that key finds.
pub proof fn lemma_written_last(s: Seq<(Seq<char>, Seq<char>)>, i: int)
    requires
        0 <= i < s.len(),
        forall|j: int| i < j < s.len() ==> s[j].0 != s[i].0,
    ensures
        written(s).contains_key(s[i].0),
        written(s)[s[i].0] == s[i].1,
    decreases s.len(),
{
    if i < s.len() - 1 {
        lemma_written_last(s.drop_last(), i);
    }
}

/// Overwriting in place the value of the last pair that holds a key writes that key anew.
pub proof fn lemma_written_update(s: Seq<(Seq<char>, Seq<char>)>, i: int, v: Seq<char>)
    requires
        0 <= i < s.len(),
        forall|j: int| i < j < s.len() ==> s[j].0 != s[i].0,
    ensures
        written(s.update(i, (s[i].0, v))) == written(s).insert(s[i].0, v),
    decreases s.len(),
{
    let t = s.update(i, (s[i].0, v));
    if i == s.len() - 1 {
        assert(t.drop_last() == s.drop_last());
        assert(written(t) =~= written(s).insert(s[i].0, v));
    } else {
        assert(t.drop_last() == s.drop_last().update(i, (s[i].0, v)));
        lemma_written_update(s.drop_last(), i, v);
        assert(written(t) =~= written(s).insert(s[i].0, v));
    }
}

/// The last position whose key is `key`, if any.
pub fn find_last(entries: &Vec<(String, String)>, key: &String) -> (r: Option<usize>)
    ensures
        match r {
            Some(i) => i < entries@.len() && entries@[i as int].0@ == key@ && forall|j: int|
                i < j < entries@.len() ==> entries@[j].0@ != key@,
            None => forall|j: int| 0 <= j < entries@.len() ==> entries@[j].0@ != key@,
        },
{
    let mut n: usize = entries.len();
    while n > 0
        invariant
            n <= entries@.len(),
            forall|j: int| n <= j < entries@.len() ==> entries@[j].0@ != key@,
        decreases n,
    {
        if entries[n - 1].0 == *key {
            return Some(n - 1);
        }
        n = n - 1;
    }
    None
}

/// The value that a read of `key` finds among `entries`.
pub fn lookup<'a>(entries: &'a Vec<(String, String)>, key: &String) -> (r: Option<&'a String>)
    ensures
        r.is_some() == written(entries_view(entries@)).contains_key(key@),
        r.is_some() ==> r.unwrap()@ == written(entries_view(entries@))[key@],
{
    let ghost s = entries_view(entries@);
    match find_last(entries, key) {
        Some(i) => {
            proof {
                assert forall|j: int| i < j < s.len() implies s[j].0 != s[i as int].0 by {
                    assert(s[j].0 == entries@[j].0@);
                }
                lemma_written_last(s, i as int);
            }
            Some(&entries[i].1)
        },
        None => {
            proof {
                assert forall|j: int| 0 <= j < s.len() implies s[j].0 != key@ by {
                    assert(s[j].0 == entries@[j].0@);
                }
                lemma_written_absent(s, key@);
            }
            None
        },
    }
}

/// Writes `value` under `key`: the pair that holds `key` gets the new value, or a new pair is
/// appended where none does.
pub fn upsert(entries: &mut Vec<(String, String)>, key: String, value: String)
    ensures
        written(entries_view(final(entries)@)) == written(entries_view(old(entries)@)).insert(
            key@,
            value@,
        ),
{
    let ghost old_entries = entries@;
    let ghost before = entries_view(entries@);
    match find_last(entries, &key) {
        Some(i) => {
            entries[i] = (key, value);
            proof {
                assert forall|j: int| i < j < before.len() implies before[j].0 != before[i as int].0 by {
                    assert(before[j].0 == old_entries[j].0@);
                }
                assert(entries_view(entries@) =~= before.update(i as int, (before[i as int].0, value@)));
                lemma_written_update(before, i as int, value@);
            }
        },
        None => {
            entries.push((key, value));
            assert(entries_view(entries@).drop_last() =~= before);
        },
    }
}

} // verus!
