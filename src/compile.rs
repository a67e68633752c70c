//! The schema compiler: checks the source catalogs and lowers them into a [`Store`].
use vstd::prelude::*;
use crate::text::{numeral_u16, parse_u16, str_eq};
use crate::model::{Field, Segment, Message};
use crate::source::{SourceField, SourceSegment, SourceMessage, SourceDefinition, SourceTable, SourceCatalog};
use crate::lower::{field_lowered, segment_lowered, message_lowered, lower_field, lower_segment, lower_message};
use crate::store::{Table, Definition, Store, find_key};
use std::collections::HashMap;

verus! {

/// Why a source catalog was refused; each variant names the offending key.
#[derive(Clone, Debug, PartialEq, Eq)]
pub enum CompileError {
    /// A table key that is not a number in 0..=65535
    InvalidTableId(String),
    /// A table key whose number an earlier table key already has
    DuplicateTableId(String),
    /// A key that occurs twice in one map: a version, a name or a table code
    DuplicateKey(String),
}

pub open spec fn keys_unique<V>(e: Seq<(String, V)>) -> bool {
    forall|i: int, j: int| 0 <= i < j < e.len() ==> e[i].0@ != e[j].0@
}

pub open spec fn key_repeated<V>(e: Seq<(String, V)>, k: Seq<char>) -> bool {
    exists|i: int, j: int| 0 <= i < j < e.len() && e[i].0@ == k && e[j].0@ == k
}

pub open spec fn table_ids_valid(src: Seq<(String, SourceTable)>) -> bool {
    forall|i: int| 0 <= i < src.len() ==> (#[trigger] numeral_u16(src[i].0@)) is Some
}

pub open spec fn table_ids_unique(src: Seq<(String, SourceTable)>) -> bool {
    forall|i: int, j: int| 0 <= i < j < src.len() ==> numeral_u16(src[i].0@) != numeral_u16(src[j].0@)
}

pub open spec fn table_codes_unique(src: Seq<(String, SourceTable)>) -> bool {
    forall|i: int| 0 <= i < src.len() ==> keys_unique(#[trigger] src[i].1.values@)
}

/// A table catalog that compiles: numeric keys, no number twice, no code twice in a table.
pub open spec fn tables_valid(src: Seq<(String, SourceTable)>) -> bool {
    table_ids_valid(src) && table_ids_unique(src) && table_codes_unique(src)
}

/// The store holds source table `i` under its parsed number, and no other table.
pub open spec fn table_lowered_at(src: Seq<(String, SourceTable)>, out: Map<u16, Table>, i: int) -> bool {
    numeral_u16(src[i].0@) matches Some(id) && {
        &&& out.contains_key(id)
        &&& out[id].description@ == src[i].1.desc@
        &&& out[id].values@ == src[i].1.values@
    }
}

pub open spec fn tables_lowered(src: Seq<(String, SourceTable)>, out: Map<u16, Table>) -> bool {
    &&& forall|i: int| 0 <= i < src.len() ==> #[trigger] table_lowered_at(src, out, i)
    &&& forall|id: u16| #[trigger] out.contains_key(id) ==> exists|i: int|
        0 <= i < src.len() && numeral_u16(src[i].0@) == Some(id)
}

/// The error names a key of the table catalog that breaks `tables_valid`.
pub open spec fn table_error_named(src: Seq<(String, SourceTable)>, e: CompileError) -> bool {
    match e {
        CompileError::InvalidTableId(k) => exists|i: int|
            0 <= i < src.len() && src[i].0@ == k@ && numeral_u16(k@) is None,
        CompileError::DuplicateTableId(k) => exists|i: int, j: int|
            0 <= i < j < src.len() && src[j].0@ == k@ && numeral_u16(src[i].0@) == numeral_u16(k@),
        CompileError::DuplicateKey(k) => exists|i: int|
            0 <= i < src.len() && key_repeated(#[trigger] src[i].1.values@, k@),
    }
}

/// Index of the first entry whose key an earlier entry already has.
pub fn first_repeat<V>(e: &Vec<(String, V)>) -> (r: Option<usize>)
    ensures
        match r {
            Some(j) => j < e@.len() && key_repeated(e@, e@[j as int].0@),
            None => keys_unique(e@),
        },
{
    let mut j: usize = 0;
    while j < e.len()
        invariant
            j <= e@.len(),
            forall|a: int, b: int| 0 <= a < b < j ==> e@[a].0@ != e@[b].0@,
        decreases e@.len() - j,
    {
        match find_key(e, e[j].0.as_str()) {
            Some(i) => {
                if i < j {
                    assert(e@[i as int].0@ == e@[j as int].0@);
                    return Some(j);
                }
                if i > j {
                    assert(e@[j as int].0@ != e@[j as int].0@);
                }
            },
            None => {
                assert(e@[j as int].0@ != e@[j as int].0@);
            },
        }
        j = j + 1;
    }
    None
}

/// A copy of (code, meaning) pairs.
fn copy_pairs(v: &Vec<(String, String)>) -> (r: Vec<(String, String)>)
    ensures
        r@ == v@,
{
    let mut out: Vec<(String, String)> = Vec::new();
    let mut i: usize = 0;
    while i < v.len()
        invariant
            i <= v@.len(),
            out@ == v@.subrange(0, i as int),
        decreases v@.len() - i,
    {
        out.push((v[i].0.clone(), v[i].1.clone()));
        i = i + 1;
    }
    assert(v@.subrange(0, v@.len() as int) == v@);
    out
}

/// The table pass. Disabled, it gives no tables at all; enabled, every table
/// key must be a number, no number may repeat, and no table may repeat a code.
pub fn compile_tables(enabled: bool, src: &Vec<(String, SourceTable)>) -> (r: Result<HashMap<u16, Table>, CompileError>)
    ensures
        !enabled ==> (r matches Ok(ts) && ts@.len() == 0),
        enabled ==> (r is Ok <==> tables_valid(src@)),
        enabled ==> (r matches Ok(ts) ==> tables_lowered(src@, ts@)),
        r matches Err(e) ==> table_error_named(src@, e),
{
    broadcast use vstd::std_specs::hash::group_hash_axioms;
    let mut out: HashMap<u16, Table> = HashMap::new();
    if !enabled {
        return Ok(out);
    }
    let mut i: usize = 0;
    while i < src.len()
        invariant
            enabled,
            i <= src@.len(),
            forall|k: int| 0 <= k < i ==> #[trigger] table_lowered_at(src@, out@, k),
            forall|k: int| 0 <= k < i ==> keys_unique(#[trigger] src@[k].1.values@),
            forall|id: u16| #[trigger] out@.contains_key(id) ==> exists|k: int|
                0 <= k < i && numeral_u16(src@[k].0@) == Some(id),
            forall|a: int, b: int| 0 <= a < b < i ==> numeral_u16(src@[a].0@) != numeral_u16(src@[b].0@),
        decreases src@.len() - i,
    {
        let key = &src[i].0;
        let id = match parse_u16(key.as_str()) {
            Some(id) => id,
            None => {
                assert(!table_ids_valid(src@));
                return Err(CompileError::InvalidTableId(key.clone()));
            },
        };
        if out.contains_key(&id) {
            let ghost k = choose|k: int| 0 <= k < i && numeral_u16(src@[k].0@) == Some(id);
            assert(numeral_u16(src@[k].0@) == numeral_u16(src@[i as int].0@));
            return Err(CompileError::DuplicateTableId(key.clone()));
        }
        let table = &src[i].1;
        match first_repeat(&table.values) {
            Some(j) => {
                assert(!keys_unique(src@[i as int].1.values@));
                return Err(CompileError::DuplicateKey(table.values[j].0.clone()));
            },
            None => {},
        }
        proof {
            assert forall|a: int| 0 <= a < i implies numeral_u16(src@[a].0@) != numeral_u16(src@[i as int].0@) by {
                assert(table_lowered_at(src@, out@, a));
            }
        }
        let ghost before = out@;
        out.insert(id, Table { description: table.desc.clone(), values: copy_pairs(&table.values) });
        proof {
            assert forall|k: int| 0 <= k < i + 1 implies #[trigger] table_lowered_at(src@, out@, k) by {
                if k < i {
                    assert(table_lowered_at(src@, before, k));
                }
            }
            assert forall|x: u16| #[trigger] out@.contains_key(x) implies exists|k: int|
                0 <= k < i + 1 && numeral_u16(src@[k].0@) == Some(x) by {
                if x != id {
                    assert(before.contains_key(x));
                }
            }
        }
        i = i + 1;
    }
    assert forall|k: int| 0 <= k < src@.len() implies (#[trigger] numeral_u16(src@[k].0@)) is Some by {
        assert(table_lowered_at(src@, out@, k));
    }
    Ok(out)
}

pub open spec fn fields_lowered(s: Seq<(String, SourceField)>, f: Seq<(String, Field)>) -> bool {
    &&& s.len() == f.len()
    &&& forall|i: int| 0 <= i < s.len() ==> (#[trigger] f[i]).0@ == s[i].0@ && field_lowered(s[i].1, f[i].1)
}

pub open spec fn segments_lowered(s: Seq<(String, SourceSegment)>, f: Seq<(String, Segment)>) -> bool {
    &&& s.len() == f.len()
    &&& forall|i: int| 0 <= i < s.len() ==> (#[trigger] f[i]).0@ == s[i].0@ && segment_lowered(s[i].1, f[i].1)
}

pub open spec fn messages_lowered(s: Seq<(String, SourceMessage)>, f: Seq<(String, Message)>) -> bool {
    &&& s.len() == f.len()
    &&& forall|i: int| 0 <= i < s.len() ==> (#[trigger] f[i]).0@ == s[i].0@ && message_lowered(s[i].1, f[i].1)
}

/// Each map of the definition holds the source entries, in order and lowered.
pub open spec fn definition_lowered(s: SourceDefinition, d: Definition) -> bool {
    &&& fields_lowered(s.fields@, d.fields@)
    &&& segments_lowered(s.segments@, d.segments@)
    &&& messages_lowered(s.messages@, d.messages@)
}

pub open spec fn definition_keys_unique(d: SourceDefinition) -> bool {
    keys_unique(d.fields@) && keys_unique(d.segments@) && keys_unique(d.messages@)
}

pub open spec fn definition_key_repeated(d: SourceDefinition, k: Seq<char>) -> bool {
    key_repeated(d.fields@, k) || key_repeated(d.segments@, k) || key_repeated(d.messages@, k)
}

/// Whether `version` was opted in.
pub open spec fn version_enabled(enabled: Seq<String>, version: Seq<char>) -> bool {
    exists|i: int| 0 <= i < enabled.len() && enabled[i]@ == version
}

/// The source versions that were opted in, in source order.
pub open spec fn selected_versions(src: Seq<(String, SourceDefinition)>, enabled: Seq<String>) -> Seq<(String, SourceDefinition)>
    decreases src.len(),
{
    if src.len() == 0 {
        Seq::empty()
    } else {
        let rest = selected_versions(src.drop_last(), enabled);
        if version_enabled(enabled, src.last().0@) {
            rest.push(src.last())
        } else {
            rest
        }
    }
}

/// A definitions catalog that compiles: no version twice, and no name twice
/// in a map of an opted-in version.
pub open spec fn definitions_valid(src: Seq<(String, SourceDefinition)>, enabled: Seq<String>) -> bool {
    &&& keys_unique(src)
    &&& forall|i: int| 0 <= i < src.len() && version_enabled(enabled, #[trigger] src[i].0@)
        ==> definition_keys_unique(src[i].1)
}

/// Entry `i` of the store is selected version `i`, lowered.
pub open spec fn definitions_lowered(sel: Seq<(String, SourceDefinition)>, out: Seq<(String, Definition)>) -> bool {
    &&& sel.len() == out.len()
    &&& forall|i: int| 0 <= i < sel.len() ==> (#[trigger] out[i]).0@ == sel[i].0@ && definition_lowered(sel[i].1, out[i].1)
}

/// The error names a key of the definitions catalog that breaks `definitions_valid`.
pub open spec fn definition_error_named(src: Seq<(String, SourceDefinition)>, enabled: Seq<String>, e: CompileError) -> bool {
    match e {
        CompileError::DuplicateKey(k) => key_repeated(src, k@) || exists|i: int|
            0 <= i < src.len() && version_enabled(enabled, src[i].0@) && definition_key_repeated(#[trigger] src[i].1, k@),
        _ => false,
    }
}

pub fn lower_fields(s: &Vec<(String, SourceField)>) -> (r: Vec<(String, Field)>)
    ensures
        fields_lowered(s@, r@),
{
    let mut out: Vec<(String, Field)> = Vec::new();
    let mut i: usize = 0;
    while i < s.len()
        invariant
            i <= s@.len(),
            out@.len() == i,
            forall|j: int| 0 <= j < i ==> (#[trigger] out@[j]).0@ == s@[j].0@ && field_lowered(s@[j].1, out@[j].1),
        decreases s@.len() - i,
    {
        out.push((s[i].0.clone(), lower_field(&s[i].1)));
        i = i + 1;
    }
    out
}

pub fn lower_segments(s: &Vec<(String, SourceSegment)>) -> (r: Vec<(String, Segment)>)
    ensures
        segments_lowered(s@, r@),
{
    let mut out: Vec<(String, Segment)> = Vec::new();
    let mut i: usize = 0;
    while i < s.len()
        invariant
            i <= s@.len(),
            out@.len() == i,
            forall|j: int| 0 <= j < i ==> (#[trigger] out@[j]).0@ == s@[j].0@ && segment_lowered(s@[j].1, out@[j].1),
        decreases s@.len() - i,
    {
        out.push((s[i].0.clone(), lower_segment(&s[i].1)));
        i = i + 1;
    }
    out
}

pub fn lower_messages(s: &Vec<(String, SourceMessage)>) -> (r: Vec<(String, Message)>)
    ensures
        messages_lowered(s@, r@),
{
    let mut out: Vec<(String, Message)> = Vec::new();
    let mut i: usize = 0;
    while i < s.len()
        invariant
            i <= s@.len(),
            out@.len() == i,
            forall|j: int| 0 <= j < i ==> (#[trigger] out@[j]).0@ == s@[j].0@ && message_lowered(s@[j].1, out@[j].1),
        decreases s@.len() - i,
    {
        out.push((s[i].0.clone(), lower_message(&s[i].1)));
        i = i + 1;
    }
    out
}

/// Lowers one version; refuses a name that occurs twice in one of its maps.
pub fn lower_definition(s: &SourceDefinition) -> (r: Result<Definition, CompileError>)
    ensures
        r is Ok <==> definition_keys_unique(*s),
        r matches Ok(d) ==> definition_lowered(*s, d),
        r matches Err(e) ==> (e matches CompileError::DuplicateKey(k) && definition_key_repeated(*s, k@)),
{
    if let Some(j) = first_repeat(&s.fields) {
        return Err(CompileError::DuplicateKey(s.fields[j].0.clone()));
    }
    if let Some(j) = first_repeat(&s.segments) {
        return Err(CompileError::DuplicateKey(s.segments[j].0.clone()));
    }
    if let Some(j) = first_repeat(&s.messages) {
        return Err(CompileError::DuplicateKey(s.messages[j].0.clone()));
    }
    Ok(Definition {
        fields: lower_fields(&s.fields),
        segments: lower_segments(&s.segments),
        messages: lower_messages(&s.messages),
    })
}

/// Whether `version` is among the opted-in versions.
pub fn is_enabled(enabled: &Vec<String>, version: &str) -> (r: bool)
    ensures
        r == version_enabled(enabled@, version@),
{
    let mut i: usize = 0;
    while i < enabled.len()
        invariant
            i <= enabled@.len(),
            forall|j: int| 0 <= j < i ==> (#[trigger] enabled@[j])@ != version@,
        decreases enabled@.len() - i,
    {
        if str_eq(enabled[i].as_str(), version) {
            return true;
        }
        i = i + 1;
    }
    false
}

/// The definitions pass: every version that is not opted in is left out; the
/// others are lowered, in source order.
pub fn compile_definitions(enabled: &Vec<String>, src: &Vec<(String, SourceDefinition)>) -> (r: Result<Vec<(String, Definition)>, CompileError>)
    ensures
        r is Ok <==> definitions_valid(src@, enabled@),
        r matches Ok(ds) ==> definitions_lowered(selected_versions(src@, enabled@), ds@),
        r matches Err(e) ==> definition_error_named(src@, enabled@, e),
{
    if let Some(j) = first_repeat(src) {
        return Err(CompileError::DuplicateKey(src[j].0.clone()));
    }
    let mut out: Vec<(String, Definition)> = Vec::new();
    let mut i: usize = 0;
    while i < src.len()
        invariant
            i <= src@.len(),
            keys_unique(src@),
            definitions_lowered(selected_versions(src@.subrange(0, i as int), enabled@), out@),
            forall|k: int| 0 <= k < i && version_enabled(enabled@, #[trigger] src@[k].0@)
                ==> definition_keys_unique(src@[k].1),
        decreases src@.len() - i,
    {
        let ghost before = src@.subrange(0, i as int);
        let ghost after = src@.subrange(0, i + 1);
        assert(after.drop_last() == before);
        assert(after.last() == src@[i as int]);
        if is_enabled(enabled, src[i].0.as_str()) {
            match lower_definition(&src[i].1) {
                Ok(d) => {
                    out.push((src[i].0.clone(), d));
                },
                Err(e) => {
                    return Err(e);
                },
            }
        }
        i = i + 1;
    }
    assert(src@.subrange(0, src@.len() as int) == src@);
    Ok(out)
}

/// Whether `store` is what the compiler makes of `catalog` under the given selection.
pub open spec fn compiled(catalog: SourceCatalog, tables_enabled: bool, versions: Seq<String>, store: Store) -> bool {
    &&& definitions_valid(catalog.definitions@, versions)
    &&& if tables_enabled {
        tables_valid(catalog.tables@) && tables_lowered(catalog.tables@, store.tables@)
    } else {
        store.tables@.len() == 0
    }
    &&& definitions_lowered(selected_versions(catalog.definitions@, versions), store.definitions@)
}

/// Compiles both catalogs into a store: the tables when `tables_enabled`, and
/// the versions named in `versions`, and no others.
pub fn compile(catalog: &SourceCatalog, tables_enabled: bool, versions: &Vec<String>) -> (r: Result<Store, CompileError>)
    ensures
        r is Ok <==> (!tables_enabled || tables_valid(catalog.tables@))
            && definitions_valid(catalog.definitions@, versions@),
        r matches Ok(store) ==> compiled(*catalog, tables_enabled, versions@, store),
        r matches Err(e) ==> (tables_enabled && table_error_named(catalog.tables@, e))
            || definition_error_named(catalog.definitions@, versions@, e),
{
    let tables = match compile_tables(tables_enabled, &catalog.tables) {
        Ok(ts) => ts,
        Err(e) => {
            return Err(e);
        },
    };
    let definitions = match compile_definitions(versions, &catalog.definitions) {
        Ok(ds) => ds,
        Err(e) => {
            return Err(e);
        },
    };
    Ok(Store { tables, definitions })
}

} // verus!
