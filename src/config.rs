use vstd::prelude::*;

verus! {

/// A component's configuration: a tree of strings, booleans, integers,
/// ordered lists and string-keyed maps.
///
/// A map is kept as its entries in order; looking a key up finds the first
/// entry with that key.
#[derive(Debug)]
pub enum Config {
    String(String),
    Bool(bool),
    Int(i64),
    Vec(Vec<Config>),
    HashMap(Vec<(String, Config)>),
}

/// The value stored under `key` in a map's entries: the first one whose key matches.
pub open spec fn lookup(entries: Seq<(String, Config)>, key: Seq<char>) -> Option<Config>
    decreases entries.len(),
{
    if entries.len() == 0 {
        None
    } else if entries[0].0@ == key {
        Some(entries[0].1)
    } else {
        lookup(entries.drop_first(), key)
    }
}

/// Looks `key` up in a map's entries.
pub fn config_get<'a>(entries: &'a Vec<(String, Config)>, key: &String) -> (r: Option<&'a Config>)
    ensures
        match r {
            Some(c) => lookup(entries@, key@) == Some(*c),
            None => lookup(entries@, key@) is None,
        },
{
    let mut i: usize = 0;
    assert(entries@.subrange(0, entries@.len() as int) =~= entries@);
    while i < entries.len()
        invariant
            0 <= i <= entries@.len(),
            lookup(entries@, key@) == lookup(entries@.subrange(i as int, entries@.len() as int), key@),
        decreases entries@.len() - i,
    {
        let ghost rest = entries@.subrange(i as int, entries@.len() as int);
        assert(rest.drop_first() =~= entries@.subrange(i + 1, entries@.len() as int));
        if entries[i].0 == *key {
            return Some(&entries[i].1);
        }
        i = i + 1;
    }
    None
}

} // verus!
