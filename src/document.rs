use vstd::prelude::*;

verus! {

/// A structured document as it arrives on the wire: a tree of null, boolean,
/// number, string, array and mapping nodes. A number keeps its literal text;
/// a mapping keeps its entries in the order they were read.
#[derive(Debug)]
pub enum Document {
    Null,
    Bool(bool),
    Number(String),
    Text(String),
    Array(Vec<Document>),
    Object(Vec<(String, Document)>),
}

/// The value of the first entry of `entries` whose key is `key`.
pub open spec fn lookup(entries: Seq<(String, Document)>, key: Seq<char>) -> Option<Document>
    decreases entries.len(),
{
    if entries.len() == 0 {
        None
    } else if entries[0].0@ == key {
        Some(entries[0].1)
    } else {
        lookup(entries.drop_first(), key)
    }
}

/// The position of the first entry of `entries` whose key is `key`.
pub open spec fn position(entries: Seq<(String, Document)>, key: Seq<char>) -> Option<int>
    decreases entries.len(),
{
    if entries.len() == 0 {
        None
    } else if entries[0].0@ == key {
        Some(0)
    } else {
        match position(entries.drop_first(), key) {
            Some(i) => Some(i + 1),
            None => None,
        }
    }
}

pub proof fn lemma_position_lookup(entries: Seq<(String, Document)>, key: Seq<char>)
    ensures
        position(entries, key) is None <==> lookup(entries, key) is None,
        position(entries, key) matches Some(i) ==> 0 <= i < entries.len() && entries[i].1
            == lookup(entries, key)->Some_0 && entries[i].0@ == key,
        position(entries, key) matches Some(i) ==> forall|j: int| 0 <= j < i ==> entries[j].0@ != key,
        position(entries, key) is None ==> forall|j: int| 0 <= j < entries.len() ==> entries[j].0@ != key,
    decreases entries.len(),
{
    if entries.len() > 0 && entries[0].0@ != key {
        lemma_position_lookup(entries.drop_first(), key);
        assert forall|j: int| 1 <= j < entries.len() implies entries[j] == entries.drop_first()[j - 1] by {}
    }
}

/// Finds the first entry of `entries` whose key is `key`.
pub fn find_entry(entries: &Vec<(String, Document)>, key: &String) -> (r: Option<usize>)
    ensures
        r matches Some(i) ==> Some(i as int) == position(entries@, key@),
        r is None ==> position(entries@, key@) is None,
{
    proof {
        lemma_position_lookup(entries@, key@);
    }
    let mut i: usize = 0;
    while i < entries.len()
        invariant
            i <= entries@.len(),
            forall|j: int| 0 <= j < i ==> entries@[j].0@ != key@,
        decreases entries@.len() - i,
    {
        if entries[i].0 == *key {
            proof {
                lemma_first_match(entries@, key@, i as int);
            }
            return Some(i);
        }
        i = i + 1;
    }
    proof {
        lemma_no_match(entries@, key@);
    }
    None
}

pub proof fn lemma_first_match(entries: Seq<(String, Document)>, key: Seq<char>, i: int)
    requires
        0 <= i < entries.len(),
        entries[i].0@ == key,
        forall|j: int| 0 <= j < i ==> entries[j].0@ != key,
    ensures
        position(entries, key) == Some(i),
    decreases i,
{
    if i > 0 {
        lemma_first_match(entries.drop_first(), key, i - 1);
    }
}

/// The first entry under `key` is the one that a lookup finds.
pub proof fn lemma_lookup_first(entries: Seq<(String, Document)>, key: Seq<char>, i: int)
    requires
        0 <= i < entries.len(),
        entries[i].0@ == key,
        forall|j: int| 0 <= j < i ==> entries[j].0@ != key,
    ensures
        lookup(entries, key) == Some(entries[i].1),
{
    lemma_first_match(entries, key, i);
    lemma_position_lookup(entries, key);
}

proof fn lemma_no_match(entries: Seq<(String, Document)>, key: Seq<char>)
    requires
        forall|j: int| 0 <= j < entries.len() ==> entries[j].0@ != key,
    ensures
        position(entries, key) is None,
    decreases entries.len(),
{
    if entries.len() > 0 {
        lemma_no_match(entries.drop_first(), key);
    }
}

} // verus!
