//! A parsed settings document: a tree of texts, numbers, flags, arrays and
//! tables, as the TOML data model has them.

use vstd::prelude::*;

verus! {

/// One value of a document.
///
/// A table keeps its entries as pairs of key and value, in the order in which
/// the parser hands them out. Real numbers and dates are told apart from the
/// rest but their contents are not kept: no setting is read from one.
#[derive(Debug, PartialEq, Eq)]
pub enum Item {
    Text(String),
    Integer(i64),
    Boolean(bool),
    Real,
    Datetime,
    Array(Vec<Item>),
    Table(Vec<(String, Item)>),
}

/// The position of the first entry under `key`, or the number of entries
/// where there is none.
pub open spec fn position_of(entries: Seq<(String, Item)>, key: Seq<char>) -> int
    decreases entries.len(),
{
    if entries.len() == 0 {
        0
    } else if entries[0].0@ == key {
        0
    } else {
        1 + position_of(entries.drop_first(), key)
    }
}

/// The value of the first entry under `key`.
pub open spec fn field(entries: Seq<(String, Item)>, key: Seq<char>) -> Option<Item> {
    let at = position_of(entries, key);
    if at < entries.len() {
        Some(entries[at].1)
    } else {
        None
    }
}

/// `position_of` points at the first entry whose key is `key`.
pub proof fn lemma_position_of(entries: Seq<(String, Item)>, key: Seq<char>)
    ensures
        0 <= position_of(entries, key) <= entries.len(),
        position_of(entries, key) < entries.len() ==> entries[position_of(entries, key)].0@
            == key,
        forall|i: int| 0 <= i < position_of(entries, key) ==> (#[trigger] entries[i]).0@ != key,
    decreases entries.len(),
{
    if entries.len() > 0 && entries[0].0@ != key {
        let rest = entries.drop_first();
        lemma_position_of(rest, key);
        assert forall|i: int| 0 <= i < position_of(entries, key) implies (#[trigger] entries[i]).0@
            != key by {
            if i > 0 {
                assert(entries[i] == rest[i - 1]);
            }
        }
    }
}

/// Where `at` is the first position whose key is `key`, it is `position_of`.
pub proof fn lemma_position_of_is(entries: Seq<(String, Item)>, key: Seq<char>, at: int)
    requires
        0 <= at <= entries.len(),
        at < entries.len() ==> entries[at].0@ == key,
        forall|i: int| 0 <= i < at ==> (#[trigger] entries[i]).0@ != key,
    ensures
        position_of(entries, key) == at,
{
    lemma_position_of(entries, key);
    let found = position_of(entries, key);
    if found < at {
        assert(entries[found].0@ != key);
    }
}

/// The entry at `at` is the one found under its key, where no entry before
/// it has that key.
pub proof fn lemma_field_at(entries: Seq<(String, Item)>, key: Seq<char>, at: int)
    requires
        0 <= at < entries.len(),
        entries[at].0@ == key,
        forall|i: int| 0 <= i < at ==> (#[trigger] entries[i]).0@ != key,
    ensures
        field(entries, key) == Some(entries[at].1),
{
    lemma_position_of_is(entries, key, at);
}

/// No entry is found under a key that none has.
pub proof fn lemma_field_absent(entries: Seq<(String, Item)>, key: Seq<char>)
    requires
        forall|i: int| 0 <= i < entries.len() ==> (#[trigger] entries[i]).0@ != key,
    ensures
        field(entries, key) is None,
{
    lemma_position_of_is(entries, key, entries.len() as int);
}

/// Looks a key up in the entries of a table: the first entry that carries it.
pub fn find_field<'a>(entries: &'a Vec<(String, Item)>, key: &str) -> (found: Option<&'a Item>)
    ensures
        match found {
            Some(item) => field(entries@, key@) == Some(*item),
            None => field(entries@, key@) is None,
        },
{
    let wanted = key.to_owned();
    let mut i: usize = 0;
    while i < entries.len()
        invariant
            i <= entries.len(),
            wanted@ == key@,
            forall|j: int| 0 <= j < i ==> (#[trigger] entries@[j]).0@ != key@,
        decreases entries.len() - i,
    {
        if entries[i].0 == wanted {
            proof {
                lemma_position_of_is(entries@, key@, i as int);
            }
            return Some(&entries[i].1);
        }
        i = i + 1;
    }
    proof {
        lemma_position_of_is(entries@, key@, entries@.len() as int);
    }
    None
}

} // verus!
