//! The source catalogs, as read from the definition documents.
use vstd::prelude::*;
use crate::model::{CompoundNode, SegmentNode};

verus! {

/// A field or component as written in the source: codes not yet resolved.
pub struct SourceSubField {
    pub datatype: String,
    pub desc: String,
    /// Optionality code: 1 optional, 2 required, 3 conditional, else backward compatibility
    pub opt: usize,
    /// Repeatability code: 0 unbounded, 1 single, n above one bounded by n
    pub rep: usize,
    pub len: Option<usize>,
    pub table: Option<usize>,
}

pub struct SourceField {
    pub desc: String,
    pub subfields: Vec<SourceSubField>,
}

pub struct SourceSegment {
    pub desc: String,
    pub fields: Vec<SourceSubField>,
}

pub struct SourceCompound {
    pub name: Option<String>,
    pub desc: String,
    pub min: usize,
    pub max: usize,
}

pub struct SourceMessageSegment {
    pub name: String,
    pub desc: String,
    pub min: usize,
    pub max: usize,
    pub children: Option<SourceSegmentList>,
    pub compounds: Option<Vec<SourceCompound>>,
}

/// An ordered sequence of source message segments.
pub enum SourceSegmentList {
    Empty,
    Cons(Box<SourceMessageSegment>, Box<SourceSegmentList>),
}

pub struct SourceMessage {
    pub desc: String,
    pub name: String,
    pub segments: Vec<SourceMessageSegment>,
}

/// The schema of one version: fields, segments and messages by name.
pub struct SourceDefinition {
    pub fields: Vec<(String, SourceField)>,
    pub segments: Vec<(String, SourceSegment)>,
    pub messages: Vec<(String, SourceMessage)>,
}

/// A coded value table: its description and its (code, meaning) pairs.
pub struct SourceTable {
    pub desc: String,
    pub values: Vec<(String, String)>,
}

/// Both source documents: tables keyed by their number as text, and
/// definitions keyed by version.
pub struct SourceCatalog {
    pub tables: Vec<(String, SourceTable)>,
    pub definitions: Vec<(String, SourceDefinition)>,
}

pub open spec fn source_compound_node(c: SourceCompound) -> CompoundNode {
    CompoundNode {
        name: match c.name {
            Some(n) => Some(n@),
            None => None,
        },
        description: c.desc@,
        min: c.min as nat,
        max: c.max as nat,
    }
}

pub open spec fn source_compound_nodes(cs: Seq<SourceCompound>) -> Seq<CompoundNode> {
    cs.map_values(|c: SourceCompound| source_compound_node(c))
}

/// The tree that a source message segment stands for.
pub open spec fn source_segment_node(s: SourceMessageSegment) -> SegmentNode
    decreases s,
{
    SegmentNode {
        name: s.name@,
        description: s.desc@,
        min: s.min as nat,
        max: s.max as nat,
        children: match s.children {
            Some(l) => Some(source_list_nodes(l)),
            None => None,
        },
        compounds: match s.compounds {
            Some(cs) => Some(source_compound_nodes(cs@)),
            None => None,
        },
    }
}

pub open spec fn source_list_nodes(l: SourceSegmentList) -> Seq<SegmentNode>
    decreases l,
{
    match l {
        SourceSegmentList::Empty => Seq::empty(),
        SourceSegmentList::Cons(head, tail) => seq![source_segment_node(*head)] + source_list_nodes(*tail),
    }
}

} // verus!
