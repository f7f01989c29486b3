//! An association list of string keys and string values, with the spec-level
//! map it denotes. Both the template registry and the data context keep their
//! entries in this form, so their contracts can speak of one mathematical map.

use vstd::prelude::*;

verus! {

/// One key/value pair.
#[derive(Debug, Clone)]
pub struct Entry {
    pub key: String,
    pub value: String,
}

/// The map denoted by a sequence of entries. Where a key repeats, the later
/// entry wins, as a map built by repeated insertion would have it.
pub open spec fn map_of(entries: Seq<Entry>) -> Map<Seq<char>, Seq<char>>
    decreases entries.len(),
{
    if entries.len() == 0 {
        Map::empty()
    } else {
        map_of(entries.drop_last()).insert(entries.last().key@, entries.last().value@)
    }
}

/// No two entries share a key.
pub open spec fn unique_keys(entries: Seq<Entry>) -> bool {
    forall|i: int, j: int|
        0 <= i < j < entries.len() ==> entries[i].key@ != entries[j].key@
}

/// The denoted map holds a key exactly when some entry carries it.
pub proof fn lemma_map_of_contains(entries: Seq<Entry>, k: Seq<char>)
    ensures
        map_of(entries).contains_key(k) <==> exists|i: int|
            0 <= i < entries.len() && entries[i].key@ == k,
    decreases entries.len(),
{
    if entries.len() > 0 {
        lemma_map_of_contains(entries.drop_last(), k);
        if entries.last().key@ == k {
            assert(entries[entries.len() - 1].key@ == k);
        } else if map_of(entries).contains_key(k) {
            let i = choose|i: int| 0 <= i < entries.drop_last().len()
                && entries.drop_last()[i].key@ == k;
            assert(entries[i].key@ == k);
        } else {
            assert forall|i: int| 0 <= i < entries.len() implies entries[i].key@ != k by {
                if i < entries.len() - 1 {
                    assert(entries.drop_last()[i].key@ != k);
                }
            }
        }
    }
}

/// Under unique keys, the denoted map sends each entry's key to that entry's
/// value.
pub proof fn lemma_map_of_index(entries: Seq<Entry>, i: int)
    requires
        unique_keys(entries),
        0 <= i < entries.len(),
    ensures
        map_of(entries).contains_key(entries[i].key@),
        map_of(entries)[entries[i].key@] == entries[i].value@,
    decreases entries.len(),
{
    if i == entries.len() - 1 {
    } else {
        assert(entries.drop_last()[i] == entries[i]);
        lemma_map_of_index(entries.drop_last(), i);
        assert(entries[i].key@ != entries.last().key@);
    }
}

/// Appending an entry inserts its pair into the denoted map.
pub proof fn lemma_map_of_push(entries: Seq<Entry>, e: Entry)
    ensures
        map_of(entries.push(e)) == map_of(entries).insert(e.key@, e.value@),
{
    assert(entries.push(e).drop_last() =~= entries);
    assert(entries.push(e).last() == e);
}

/// Replacing the entry that carries a key updates the denoted map at that key
/// alone, and keeps the keys unique.
pub proof fn lemma_map_of_update(entries: Seq<Entry>, i: int, e: Entry)
    requires
        unique_keys(entries),
        0 <= i < entries.len(),
        e.key@ == entries[i].key@,
    ensures
        map_of(entries.update(i, e)) == map_of(entries).insert(e.key@, e.value@),
        unique_keys(entries.update(i, e)),
    decreases entries.len(),
{
    let s2 = entries.update(i, e);
    assert(unique_keys(s2));
    if i == entries.len() - 1 {
        assert(s2.drop_last() =~= entries.drop_last());
        assert(s2.last() == e);
        assert(map_of(entries.drop_last()).insert(entries.last().key@, entries.last().value@)
            .insert(e.key@, e.value@)
            =~= map_of(entries.drop_last()).insert(e.key@, e.value@));
    } else {
        assert(s2.drop_last() =~= entries.drop_last().update(i, e));
        lemma_map_of_update(entries.drop_last(), i, e);
        assert(s2.last() == entries.last());
        assert(entries.last().key@ != e.key@);
        assert(map_of(entries.drop_last()).insert(e.key@, e.value@)
            .insert(entries.last().key@, entries.last().value@)
            =~= map_of(entries.drop_last()).insert(entries.last().key@, entries.last().value@)
            .insert(e.key@, e.value@));
    }
}

/// Under unique keys, the denoted map has exactly one key per entry.
pub proof fn lemma_map_of_len(entries: Seq<Entry>)
    requires
        unique_keys(entries),
    ensures
        map_of(entries).dom().finite(),
        map_of(entries).dom().len() == entries.len(),
    decreases entries.len(),
{
    if entries.len() > 0 {
        lemma_map_of_len(entries.drop_last());
        lemma_map_of_contains(entries.drop_last(), entries.last().key@);
        assert(map_of(entries).dom() =~= map_of(entries.drop_last()).dom().insert(
            entries.last().key@,
        ));
        assert(!map_of(entries.drop_last()).contains_key(entries.last().key@));
    }
}

} // verus!
