//! What holds of every store that the compiler makes, stated over the
//! queries' own specifications.
use vstd::prelude::*;
use crate::text::numeral_u16;
use crate::model::{MessageSegment, node_depth, segment_node};
use crate::source::{SourceCatalog, SourceDefinition, SourceMessageSegment, source_segment_node};
use crate::lower::{field_lowered, segment_lowered, message_lowered};
use crate::store::{
    Table, Store, lookup, table_of, description_of, meaning_of, definition_of,
    field_of, segment_of, message_of,
};
use crate::compile::{
    keys_unique, table_lowered_at, version_enabled, selected_versions, definitions_lowered,
    definition_lowered, compiled,
};

verus! {

proof fn lemma_lookup_at<V>(e: Seq<(String, V)>, i: int)
    requires
        keys_unique(e),
        0 <= i < e.len(),
    ensures
        lookup(e, e[i].0@) == Some(e[i].1),
    decreases i,
{
    if i > 0 {
        let t = e.drop_first();
        assert(t[i - 1] == e[i]);
        assert(keys_unique(t)) by {
            assert forall|a: int, b: int| 0 <= a < b < t.len() implies t[a].0@ != t[b].0@ by {
                assert(t[a] == e[a + 1] && t[b] == e[b + 1]);
            }
        }
        lemma_lookup_at(t, i - 1);
    }
}

proof fn lemma_lookup_absent<V>(e: Seq<(String, V)>, k: Seq<char>)
    requires
        forall|i: int| 0 <= i < e.len() ==> (#[trigger] e[i]).0@ != k,
    ensures
        lookup(e, k) == None::<V>,
    decreases e.len(),
{
    if e.len() > 0 {
        let t = e.drop_first();
        assert(e[0].0@ != k);
        assert forall|i: int| 0 <= i < t.len() implies (#[trigger] t[i]).0@ != k by {
            assert(t[i] == e[i + 1]);
        }
        lemma_lookup_absent(t, k);
    }
}

/// Every selected version is a source version that was opted in.
proof fn lemma_selected_from_source(src: Seq<(String, SourceDefinition)>, enabled: Seq<String>)
    ensures
        forall|j: int| 0 <= j < selected_versions(src, enabled).len() ==> exists|i: int|
            0 <= i < src.len() && #[trigger] selected_versions(src, enabled)[j] == src[i],
        forall|j: int| 0 <= j < selected_versions(src, enabled).len()
            ==> version_enabled(enabled, (#[trigger] selected_versions(src, enabled)[j]).0@),
    decreases src.len(),
{
    if src.len() > 0 {
        let init = src.drop_last();
        lemma_selected_from_source(init, enabled);
        let rest = selected_versions(init, enabled);
        let sel = selected_versions(src, enabled);
        assert forall|j: int| 0 <= j < sel.len() implies exists|i: int|
            0 <= i < src.len() && #[trigger] sel[j] == src[i] by {
            if j < rest.len() {
                assert(sel[j] == rest[j]);
                let i = choose|i: int| 0 <= i < init.len() && rest[j] == init[i];
                assert(init[i] == src[i]);
            } else {
                assert(sel[j] == src[src.len() - 1]);
            }
        }
        assert forall|j: int| 0 <= j < sel.len() implies version_enabled(enabled, (#[trigger] sel[j]).0@) by {
            if j < rest.len() {
                assert(sel[j] == rest[j]);
            }
        }
    }
}

/// Distinct source versions stay distinct once selected.
proof fn lemma_selected_unique(src: Seq<(String, SourceDefinition)>, enabled: Seq<String>)
    requires
        keys_unique(src),
    ensures
        keys_unique(selected_versions(src, enabled)),
    decreases src.len(),
{
    if src.len() > 0 {
        let init = src.drop_last();
        assert(keys_unique(init)) by {
            assert forall|a: int, b: int| 0 <= a < b < init.len() implies init[a].0@ != init[b].0@ by {
                assert(init[a] == src[a] && init[b] == src[b]);
            }
        }
        lemma_selected_unique(init, enabled);
        lemma_selected_from_source(init, enabled);
        let rest = selected_versions(init, enabled);
        let sel = selected_versions(src, enabled);
        if version_enabled(enabled, src.last().0@) {
            assert forall|a: int, b: int| 0 <= a < b < sel.len() implies sel[a].0@ != sel[b].0@ by {
                assert(sel[a] == rest[a]);
                if b < rest.len() {
                    assert(sel[b] == rest[b]);
                } else {
                    let i = choose|i: int| 0 <= i < init.len() && rest[a] == init[i];
                    assert(init[i] == src[i]);
                    assert(sel[b] == src[src.len() - 1]);
                }
            }
        }
    }
}

/// An opted-in source version is among the selected ones.
proof fn lemma_selected_contains(src: Seq<(String, SourceDefinition)>, enabled: Seq<String>, i: int)
    requires
        0 <= i < src.len(),
        version_enabled(enabled, src[i].0@),
    ensures
        exists|j: int| 0 <= j < selected_versions(src, enabled).len() && #[trigger] selected_versions(src, enabled)[j] == src[i],
    decreases src.len(),
{
    let init = src.drop_last();
    let sel = selected_versions(src, enabled);
    if i == src.len() - 1 {
        assert(sel[sel.len() - 1] == src[i]);
    } else {
        assert(init[i] == src[i]);
        lemma_selected_contains(init, enabled, i);
        let rest = selected_versions(init, enabled);
        let j = choose|j: int| 0 <= j < rest.len() && rest[j] == init[i];
        assert(sel[j] == rest[j]);
    }
}

/// The definition that a compiled store holds for opted-in source version `i`.
proof fn lemma_definition_of_enabled(catalog: SourceCatalog, tables_enabled: bool, versions: Seq<String>, store: Store, i: int)
    requires
        compiled(catalog, tables_enabled, versions, store),
        0 <= i < catalog.definitions@.len(),
        version_enabled(versions, catalog.definitions@[i].0@),
    ensures
        definition_of(store, catalog.definitions@[i].0@) matches Some(d)
            && definition_lowered(catalog.definitions@[i].1, d),
{
    let src = catalog.definitions@;
    let sel = selected_versions(src, versions);
    let out = store.definitions@;
    lemma_selected_contains(src, versions, i);
    lemma_selected_unique(src, versions);
    let j = choose|j: int| 0 <= j < sel.len() && sel[j] == src[i];
    assert(out[j].0@ == sel[j].0@);
    assert(keys_unique(out)) by {
        assert forall|a: int, b: int| 0 <= a < b < out.len() implies out[a].0@ != out[b].0@ by {
            assert(out[a].0@ == sel[a].0@ && out[b].0@ == sel[b].0@);
        }
    }
    lemma_lookup_at(out, j);
}

/// The description of every compiled table is the one its source gives.
pub proof fn law_table_description(catalog: SourceCatalog, versions: Seq<String>, store: Store, i: int)
    requires
        compiled(catalog, true, versions, store),
        0 <= i < catalog.tables@.len(),
    ensures
        numeral_u16(catalog.tables@[i].0@) matches Some(id)
            && description_of(store, id) == Some(catalog.tables@[i].1.desc@),
{
    assert(table_lowered_at(catalog.tables@, store.tables@, i));
}

/// The meaning of a code in a compiled table is the one its source gives,
/// and a code that the source table lacks has none.
pub proof fn law_table_value(catalog: SourceCatalog, versions: Seq<String>, store: Store, i: int, code: Seq<char>)
    requires
        compiled(catalog, true, versions, store),
        0 <= i < catalog.tables@.len(),
    ensures
        numeral_u16(catalog.tables@[i].0@) matches Some(id) && {
            let vals = catalog.tables@[i].1.values@;
            &&& forall|k: int| 0 <= k < vals.len() && (#[trigger] vals[k]).0@ == code
                ==> meaning_of(store, id, code) == Some(vals[k].1@)
            &&& (forall|k: int| 0 <= k < vals.len() ==> (#[trigger] vals[k]).0@ != code)
                ==> meaning_of(store, id, code) == None::<Seq<char>>
        },
{
    assert(table_lowered_at(catalog.tables@, store.tables@, i));
    let vals = catalog.tables@[i].1.values@;
    assert(keys_unique(vals));
    assert forall|k: int| 0 <= k < vals.len() && (#[trigger] vals[k]).0@ == code
        implies lookup(vals, code) == Some(vals[k].1) by {
        lemma_lookup_at(vals, k);
    }
    if forall|k: int| 0 <= k < vals.len() ==> (#[trigger] vals[k]).0@ != code {
        lemma_lookup_absent(vals, code);
    }
}

/// A compiled table holds exactly its source's (code, meaning) pairs.
pub proof fn law_table_values(catalog: SourceCatalog, versions: Seq<String>, store: Store, i: int)
    requires
        compiled(catalog, true, versions, store),
        0 <= i < catalog.tables@.len(),
    ensures
        numeral_u16(catalog.tables@[i].0@) matches Some(id)
            && table_of(store, id) matches Some(t)
            && t.values@ == catalog.tables@[i].1.values@
            && t.values@.len() == catalog.tables@[i].1.values@.len(),
{
    assert(table_lowered_at(catalog.tables@, store.tables@, i));
}

/// Every opted-in version has a definition, and each of its maps is
/// non-empty where the source defines entries.
pub proof fn law_definition_present(catalog: SourceCatalog, tables_enabled: bool, versions: Seq<String>, store: Store, i: int)
    requires
        compiled(catalog, tables_enabled, versions, store),
        0 <= i < catalog.definitions@.len(),
        version_enabled(versions, catalog.definitions@[i].0@),
    ensures
        definition_of(store, catalog.definitions@[i].0@) matches Some(d) && {
            let s = catalog.definitions@[i].1;
            &&& (s.fields@.len() > 0 ==> d.fields@.len() > 0)
            &&& (s.segments@.len() > 0 ==> d.segments@.len() > 0)
            &&& (s.messages@.len() > 0 ==> d.messages@.len() > 0)
        },
{
    lemma_definition_of_enabled(catalog, tables_enabled, versions, store, i);
}

/// Reading a field back gives it lowered from its source: the same
/// components in the same order, each with all its attributes.
pub proof fn law_field_read(catalog: SourceCatalog, tables_enabled: bool, versions: Seq<String>, store: Store, i: int, k: int)
    requires
        compiled(catalog, tables_enabled, versions, store),
        0 <= i < catalog.definitions@.len(),
        version_enabled(versions, catalog.definitions@[i].0@),
        0 <= k < catalog.definitions@[i].1.fields@.len(),
    ensures
        field_of(store, catalog.definitions@[i].0@, catalog.definitions@[i].1.fields@[k].0@) matches Some(f)
            && field_lowered(catalog.definitions@[i].1.fields@[k].1, f),
{
    lemma_definition_of_enabled(catalog, tables_enabled, versions, store, i);
    let d = definition_of(store, catalog.definitions@[i].0@)->Some_0;
    let s = catalog.definitions@[i].1;
    assert(keys_unique(s.fields@));
    assert(d.fields@[k].0@ == s.fields@[k].0@);
    assert(keys_unique(d.fields@)) by {
        assert forall|a: int, b: int| 0 <= a < b < d.fields@.len() implies d.fields@[a].0@ != d.fields@[b].0@ by {
            assert(d.fields@[a].0@ == s.fields@[a].0@ && d.fields@[b].0@ == s.fields@[b].0@);
        }
    }
    lemma_lookup_at(d.fields@, k);
}

/// Reading a segment back gives it lowered from its source: the same
/// fields in the same order, each with all its attributes.
pub proof fn law_segment_read(catalog: SourceCatalog, tables_enabled: bool, versions: Seq<String>, store: Store, i: int, k: int)
    requires
        compiled(catalog, tables_enabled, versions, store),
        0 <= i < catalog.definitions@.len(),
        version_enabled(versions, catalog.definitions@[i].0@),
        0 <= k < catalog.definitions@[i].1.segments@.len(),
    ensures
        segment_of(store, catalog.definitions@[i].0@, catalog.definitions@[i].1.segments@[k].0@) matches Some(g)
            && segment_lowered(catalog.definitions@[i].1.segments@[k].1, g),
{
    lemma_definition_of_enabled(catalog, tables_enabled, versions, store, i);
    let d = definition_of(store, catalog.definitions@[i].0@)->Some_0;
    let s = catalog.definitions@[i].1;
    assert(keys_unique(s.segments@));
    assert(keys_unique(d.segments@)) by {
        assert forall|a: int, b: int| 0 <= a < b < d.segments@.len() implies d.segments@[a].0@ != d.segments@[b].0@ by {
            assert(d.segments@[a].0@ == s.segments@[a].0@ && d.segments@[b].0@ == s.segments@[b].0@);
        }
    }
    lemma_lookup_at(d.segments@, k);
}

/// Reading a message back gives its segment trees as the source has them:
/// the same nodes, children and compounds, in the same order and at the same depth.
pub proof fn law_message_read(catalog: SourceCatalog, tables_enabled: bool, versions: Seq<String>, store: Store, i: int, k: int)
    requires
        compiled(catalog, tables_enabled, versions, store),
        0 <= i < catalog.definitions@.len(),
        version_enabled(versions, catalog.definitions@[i].0@),
        0 <= k < catalog.definitions@[i].1.messages@.len(),
    ensures
        message_of(store, catalog.definitions@[i].0@, catalog.definitions@[i].1.messages@[k].0@) matches Some(m)
            && message_lowered(catalog.definitions@[i].1.messages@[k].1, m)
            && m.segments@.len() == catalog.definitions@[i].1.messages@[k].1.segments@.len()
            && forall|j: int| 0 <= j < m.segments@.len() ==>
                segment_node(#[trigger] m.segments@[j]) == source_segment_node(catalog.definitions@[i].1.messages@[k].1.segments@[j])
                && node_depth(segment_node(m.segments@[j]))
                    == node_depth(source_segment_node(catalog.definitions@[i].1.messages@[k].1.segments@[j])),
{
    lemma_definition_of_enabled(catalog, tables_enabled, versions, store, i);
    let d = definition_of(store, catalog.definitions@[i].0@)->Some_0;
    let s = catalog.definitions@[i].1;
    assert(keys_unique(s.messages@));
    assert(keys_unique(d.messages@)) by {
        assert forall|a: int, b: int| 0 <= a < b < d.messages@.len() implies d.messages@[a].0@ != d.messages@[b].0@ by {
            assert(d.messages@[a].0@ == s.messages@[a].0@ && d.messages@[b].0@ == s.messages@[b].0@);
        }
    }
    lemma_lookup_at(d.messages@, k);
    let m = d.messages@[k].1;
    let sm = s.messages@[k].1;
    let mm = m.segments@.map_values(|x: MessageSegment| segment_node(x));
    let sn = sm.segments@.map_values(|x: SourceMessageSegment| source_segment_node(x));
    assert(message_lowered(sm, m));
    assert(mm == sn);
    assert(mm.len() == m.segments@.len());
    assert(sn.len() == sm.segments@.len());
    assert forall|j: int| 0 <= j < m.segments@.len() implies
        segment_node(#[trigger] m.segments@[j]) == source_segment_node(sm.segments@[j]) by {
        assert(mm[j] == segment_node(m.segments@[j]));
        assert(sn[j] == source_segment_node(sm.segments@[j]));
    }
}

/// A version that was not opted in is absent: no definition, and no entry
/// in the list of compiled versions.
pub proof fn law_version_absent(catalog: SourceCatalog, tables_enabled: bool, versions: Seq<String>, store: Store, version: Seq<char>)
    requires
        compiled(catalog, tables_enabled, versions, store),
        !version_enabled(versions, version),
    ensures
        definition_of(store, version) == None::<crate::store::Definition>,
        forall|j: int| 0 <= j < store.definitions@.len() ==> (#[trigger] store.definitions@[j]).0@ != version,
{
    let sel = selected_versions(catalog.definitions@, versions);
    lemma_selected_from_source(catalog.definitions@, versions);
    assert forall|j: int| 0 <= j < store.definitions@.len() implies (#[trigger] store.definitions@[j]).0@ != version by {
        assert(store.definitions@[j].0@ == sel[j].0@);
        assert(version_enabled(versions, sel[j].0@));
    }
    lemma_lookup_absent(store.definitions@, version);
}

/// With the tables left out, every table query finds nothing. (The read
/// laws above hold whichever way the tables were set.)
pub proof fn law_tables_disabled(catalog: SourceCatalog, versions: Seq<String>, store: Store, id: u16, code: Seq<char>)
    requires
        compiled(catalog, false, versions, store),
    ensures
        table_of(store, id) == None::<Table>,
        description_of(store, id) == None::<Seq<char>>,
        meaning_of(store, id, code) == None::<Seq<char>>,
{
    assert(!store.tables@.contains_key(id));
}

} // verus!
