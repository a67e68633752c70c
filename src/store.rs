//! The lookup store and the read-only queries over it.
use vstd::prelude::*;
use crate::model::{Field, Segment, Message};
use crate::text::str_eq;
use std::collections::HashMap;

verus! {

broadcast use vstd::std_specs::hash::group_hash_axioms;

/// A coded value table.
#[derive(Debug)]
pub struct Table {
    pub description: String,
    /// (code, meaning) pairs
    pub values: Vec<(String, String)>,
}

/// The schema of one version.
#[derive(Debug)]
pub struct Definition {
    /// All the fields (datatypes) of the version, by name
    pub fields: Vec<(String, Field)>,
    /// All the segments of the version, by name
    pub segments: Vec<(String, Segment)>,
    /// All the message types of the version, by name
    pub messages: Vec<(String, Message)>,
}

/// Everything that was compiled in: the tables, and one definition per version.
#[derive(Debug)]
pub struct Store {
    /// The tables by number
    pub tables: HashMap<u16, Table>,
    pub definitions: Vec<(String, Definition)>,
}

/// The value under the first entry whose key is `key`.
pub open spec fn lookup<V>(e: Seq<(String, V)>, key: Seq<char>) -> Option<V>
    decreases e.len(),
{
    if e.len() == 0 {
        None
    } else if e[0].0@ == key {
        Some(e[0].1)
    } else {
        lookup(e.drop_first(), key)
    }
}

pub open spec fn table_of(store: Store, id: u16) -> Option<Table> {
    if store.tables@.contains_key(id) {
        Some(store.tables@[id])
    } else {
        None
    }
}

pub open spec fn description_of(store: Store, id: u16) -> Option<Seq<char>> {
    match table_of(store, id) {
        Some(t) => Some(t.description@),
        None => None,
    }
}

pub open spec fn meaning_of(store: Store, id: u16, code: Seq<char>) -> Option<Seq<char>> {
    match table_of(store, id) {
        Some(t) => match lookup(t.values@, code) {
            Some(m) => Some(m@),
            None => None,
        },
        None => None,
    }
}

pub open spec fn definition_of(store: Store, version: Seq<char>) -> Option<Definition> {
    lookup(store.definitions@, version)
}

pub open spec fn field_of(store: Store, version: Seq<char>, name: Seq<char>) -> Option<Field> {
    match definition_of(store, version) {
        Some(d) => lookup(d.fields@, name),
        None => None,
    }
}

pub open spec fn segment_of(store: Store, version: Seq<char>, name: Seq<char>) -> Option<Segment> {
    match definition_of(store, version) {
        Some(d) => lookup(d.segments@, name),
        None => None,
    }
}

pub open spec fn message_of(store: Store, version: Seq<char>, name: Seq<char>) -> Option<Message> {
    match definition_of(store, version) {
        Some(d) => lookup(d.messages@, name),
        None => None,
    }
}

/// Index of the first entry whose key is `key`.
pub fn find_key<V>(e: &Vec<(String, V)>, key: &str) -> (r: Option<usize>)
    ensures
        match r {
            Some(i) => {
                &&& i < e@.len()
                &&& e@[i as int].0@ == key@
                &&& lookup(e@, key@) == Some(e@[i as int].1)
                &&& forall|k: int| 0 <= k < i ==> (#[trigger] e@[k]).0@ != key@
            },
            None => {
                &&& lookup(e@, key@) == None::<V>
                &&& forall|k: int| 0 <= k < e@.len() ==> (#[trigger] e@[k]).0@ != key@
            },
        },
{
    let mut i: usize = 0;
    assert(e@.subrange(0, e@.len() as int) == e@);
    while i < e.len()
        invariant
            i <= e@.len(),
            lookup(e@, key@) == lookup(e@.subrange(i as int, e@.len() as int), key@),
            forall|k: int| 0 <= k < i ==> (#[trigger] e@[k]).0@ != key@,
        decreases e@.len() - i,
    {
        let ghost rest = e@.subrange(i as int, e@.len() as int);
        assert(rest[0] == e@[i as int]);
        assert(rest.drop_first() == e@.subrange(i + 1, e@.len() as int));
        if str_eq(e[i].0.as_str(), key) {
            return Some(i);
        }
        i = i + 1;
    }
    None
}

/// The description of table `table`.
pub fn table_description(store: &Store, table: u16) -> (r: Option<&str>)
    ensures
        match r {
            Some(d) => description_of(*store, table) == Some(d@),
            None => description_of(*store, table) == None::<Seq<char>>,
        },
{
    match store.tables.get(&table) {
        Some(t) => Some(t.description.as_str()),
        None => None,
    }
}

/// The meaning of `code` in table `table`.
pub fn table_value<'a>(store: &'a Store, table: u16, code: &str) -> (r: Option<&'a str>)
    ensures
        match r {
            Some(m) => meaning_of(*store, table, code@) == Some(m@),
            None => meaning_of(*store, table, code@) == None::<Seq<char>>,
        },
{
    match store.tables.get(&table) {
        Some(t) => match find_key(&t.values, code) {
            Some(j) => Some(t.values[j].1.as_str()),
            None => None,
        },
        None => None,
    }
}

/// All the (code, meaning) pairs of table `table`.
pub fn table_values(store: &Store, table: u16) -> (r: Option<&Vec<(String, String)>>)
    ensures
        match r {
            Some(v) => table_of(*store, table) matches Some(t) && v@ == t.values@,
            None => table_of(*store, table) == None::<Table>,
        },
{
    match store.tables.get(&table) {
        Some(t) => Some(&t.values),
        None => None,
    }
}

/// The root definition of `version`.
pub fn get_definition<'a>(store: &'a Store, version: &str) -> (r: Option<&'a Definition>)
    ensures
        match r {
            Some(d) => definition_of(*store, version@) == Some(*d),
            None => definition_of(*store, version@) == None::<Definition>,
        },
{
    match find_key(&store.definitions, version) {
        Some(i) => Some(&store.definitions[i].1),
        None => None,
    }
}

/// The field (datatype) `field` of `version`.
pub fn get_field<'a>(store: &'a Store, version: &str, field: &str) -> (r: Option<&'a Field>)
    ensures
        match r {
            Some(f) => field_of(*store, version@, field@) == Some(*f),
            None => field_of(*store, version@, field@) == None::<Field>,
        },
{
    match get_definition(store, version) {
        Some(d) => match find_key(&d.fields, field) {
            Some(j) => Some(&d.fields[j].1),
            None => None,
        },
        None => None,
    }
}

/// The segment `segment` of `version`.
pub fn get_segment<'a>(store: &'a Store, version: &str, segment: &str) -> (r: Option<&'a Segment>)
    ensures
        match r {
            Some(s) => segment_of(*store, version@, segment@) == Some(*s),
            None => segment_of(*store, version@, segment@) == None::<Segment>,
        },
{
    match get_definition(store, version) {
        Some(d) => match find_key(&d.segments, segment) {
            Some(j) => Some(&d.segments[j].1),
            None => None,
        },
        None => None,
    }
}

/// The message type `message` of `version`.
pub fn get_message<'a>(store: &'a Store, version: &str, message: &str) -> (r: Option<&'a Message>)
    ensures
        match r {
            Some(m) => message_of(*store, version@, message@) == Some(*m),
            None => message_of(*store, version@, message@) == None::<Message>,
        },
{
    match get_definition(store, version) {
        Some(d) => match find_key(&d.messages, message) {
            Some(j) => Some(&d.messages[j].1),
            None => None,
        },
        None => None,
    }
}

/// The versions compiled into the store, in order.
pub fn versions(store: &Store) -> (r: Vec<&str>)
    ensures
        r@.len() == store.definitions@.len(),
        forall|i: int| 0 <= i < r@.len() ==> (#[trigger] r@[i])@ == store.definitions@[i].0@,
{
    let mut out: Vec<&str> = Vec::new();
    let mut i: usize = 0;
    while i < store.definitions.len()
        invariant
            i <= store.definitions@.len(),
            out@.len() == i,
            forall|j: int| 0 <= j < i ==> (#[trigger] out@[j])@ == store.definitions@[j].0@,
        decreases store.definitions@.len() - i,
    {
        out.push(store.definitions[i].0.as_str());
        i = i + 1;
    }
    out
}

} // verus!
