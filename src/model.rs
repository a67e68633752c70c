//! The lowered schema: the shapes that queries hand out.
use vstd::prelude::*;
use crate::text::decimal_text;
use crate::text::push_decimal;

verus! {

/// How "required" a field is.
#[derive(Clone, Copy, Debug, PartialEq, Eq, Structural)]
pub enum FieldOptionality {
    /// The field is optional
    Optional,
    /// The field is required
    Required,
    /// The field is required under some condition
    Conditional,
    /// The field is only there for backwards compatibility
    BackwardCompatibility,
}

/// The words that name an optionality.
pub open spec fn optionality_label(o: FieldOptionality) -> Seq<char> {
    match o {
        FieldOptionality::Optional => "optional"@,
        FieldOptionality::Required => "required"@,
        FieldOptionality::Conditional => "conditional"@,
        FieldOptionality::BackwardCompatibility => "backwards compatibility"@,
    }
}

impl FieldOptionality {
    /// The optionality in words.
    pub fn to_string(&self) -> (r: String)
        ensures
            r@ == optionality_label(*self),
    {
        match self {
            FieldOptionality::Optional => String::from_str("optional"),
            FieldOptionality::Required => String::from_str("required"),
            FieldOptionality::Conditional => String::from_str("conditional"),
            FieldOptionality::BackwardCompatibility => String::from_str("backwards compatibility"),
        }
    }
}

/// How many times a field can be repeated.
#[derive(Clone, Copy, Debug, PartialEq, Eq, Structural)]
pub enum FieldRepeatability {
    /// The field can be repeated without limit
    Unbounded,
    /// There can only be one
    Single,
    /// The field can be repeated `n` many times
    Bounded(usize),
}

/// The words that name a repeatability.
pub open spec fn repeatability_label(r: FieldRepeatability) -> Seq<char> {
    match r {
        FieldRepeatability::Unbounded => "unbounded"@,
        FieldRepeatability::Single => "singular"@,
        FieldRepeatability::Bounded(n) => "maximum "@ + decimal_text(n as nat),
    }
}

impl FieldRepeatability {
    /// The repeatability in words.
    pub fn to_string(&self) -> (r: String)
        ensures
            r@ == repeatability_label(*self),
    {
        match self {
            FieldRepeatability::Unbounded => String::from_str("unbounded"),
            FieldRepeatability::Single => String::from_str("singular"),
            FieldRepeatability::Bounded(n) => {
                let mut s = String::from_str("maximum ");
                push_decimal(&mut s, *n);
                s
            },
        }
    }
}

/// The lowest-level datatype: what a component or sub-component can be.
#[derive(Clone, Debug, PartialEq, Eq)]
pub struct SubField {
    /// The datatype (field) of the sub-field
    pub datatype: String,
    /// A description of the sub-field
    pub description: String,
    /// Whether the sub-field is required or not
    pub optionality: FieldOptionality,
    /// The maximum length of the sub-field; `None` if unbounded or not applicable
    pub max_length: Option<usize>,
    /// How many times the sub-field can be repeated
    pub repeatability: FieldRepeatability,
    /// The table that holds the valid values of this sub-field
    pub table: Option<usize>,
}

/// A field type (an HL7 field, component or sub-component by its usage): a datatype.
#[derive(Clone, Debug, PartialEq, Eq)]
pub struct Field {
    /// The description of the field
    pub description: String,
    /// The components of the datatype, in order
    pub subfields: Vec<SubField>,
}

/// Schema of a segment (`MSH`, `PID`, ...).
#[derive(Clone, Debug, PartialEq, Eq)]
pub struct Segment {
    /// The description of the segment
    pub description: String,
    /// The fields of the segment, in wire order
    pub fields: Vec<SubField>,
}

/// One alternative among the segments allowed at a position of a message.
#[derive(Clone, Debug, PartialEq, Eq)]
pub struct MessageCompound {
    pub name: Option<String>,
    pub description: String,
    pub min: usize,
    pub max: usize,
}

/// A segment within a message.
#[derive(Debug, PartialEq, Eq)]
pub struct MessageSegment {
    /// The name of the segment (3 capital letters)
    pub name: String,
    /// A description of the segment
    pub description: String,
    /// Least number of occurrences; above zero the segment is required
    pub min: usize,
    /// Greatest number of occurrences; above one the segment repeats
    pub max: usize,
    /// The segments nested under this one, in order
    pub children: Option<SegmentList>,
    /// The segments that may stand at this position instead, as choices
    pub compounds: Option<Vec<MessageCompound>>,
}

/// An ordered sequence of message segments.
#[derive(Debug, PartialEq, Eq)]
pub enum SegmentList {
    /// No segment
    Empty,
    /// A first segment, then the rest
    Cons(Box<MessageSegment>, Box<SegmentList>),
}

/// The trees of a run of segments, in order.
pub open spec fn ref_nodes(v: Seq<&MessageSegment>) -> Seq<SegmentNode> {
    v.map_values(|s: &MessageSegment| segment_node(*s))
}

impl SegmentList {
    /// The segments of the list, in order.
    pub fn segments(&self) -> (r: Vec<&MessageSegment>)
        ensures
            ref_nodes(r@) == list_nodes(*self),
    {
        let mut out: Vec<&MessageSegment> = Vec::new();
        self.push_segments(&mut out);
        assert(ref_nodes(out@) =~= Seq::<SegmentNode>::empty() + list_nodes(*self));
        out
    }

    fn push_segments<'a>(&'a self, out: &mut Vec<&'a MessageSegment>)
        ensures
            ref_nodes(final(out)@) == ref_nodes(old(out)@) + list_nodes(*self),
        decreases self,
    {
        match self {
            SegmentList::Empty => {
                assert(ref_nodes(out@) =~= ref_nodes(out@) + Seq::<SegmentNode>::empty());
            },
            SegmentList::Cons(head, tail) => {
                let ghost before = out@;
                out.push(&**head);
                assert(ref_nodes(out@) =~= ref_nodes(before) + seq![segment_node(**head)]);
                tail.push_segments(out);
                assert(list_nodes(*self) == seq![segment_node(**head)] + list_nodes(**tail));
                assert(ref_nodes(before) + seq![segment_node(**head)] + list_nodes(**tail)
                    =~= ref_nodes(before) + list_nodes(*self));
            },
        }
    }
}

/// Schema of a message (`ADT_A01`, ...).
#[derive(Debug, PartialEq, Eq)]
pub struct Message {
    /// A description of the message
    pub description: String,
    /// The name of the message
    pub name: String,
    /// The top-level segments of the message, in order
    pub segments: Vec<MessageSegment>,
}

/// A compound as plain values.
pub struct CompoundNode {
    pub name: Option<Seq<char>>,
    pub description: Seq<char>,
    pub min: nat,
    pub max: nat,
}

/// A message segment tree as plain values.
pub struct SegmentNode {
    pub name: Seq<char>,
    pub description: Seq<char>,
    pub min: nat,
    pub max: nat,
    pub children: Option<Seq<SegmentNode>>,
    pub compounds: Option<Seq<CompoundNode>>,
}

pub open spec fn compound_node(c: MessageCompound) -> CompoundNode {
    CompoundNode {
        name: match c.name {
            Some(n) => Some(n@),
            None => None,
        },
        description: c.description@,
        min: c.min as nat,
        max: c.max as nat,
    }
}

pub open spec fn compound_nodes(cs: Seq<MessageCompound>) -> Seq<CompoundNode> {
    cs.map_values(|c: MessageCompound| compound_node(c))
}

/// The tree that a message segment stands for.
pub open spec fn segment_node(s: MessageSegment) -> SegmentNode
    decreases s,
{
    SegmentNode {
        name: s.name@,
        description: s.description@,
        min: s.min as nat,
        max: s.max as nat,
        children: match s.children {
            Some(l) => Some(list_nodes(l)),
            None => None,
        },
        compounds: match s.compounds {
            Some(cs) => Some(compound_nodes(cs@)),
            None => None,
        },
    }
}

/// The trees that a segment list stands for, in order.
pub open spec fn list_nodes(l: SegmentList) -> Seq<SegmentNode>
    decreases l,
{
    match l {
        SegmentList::Empty => Seq::empty(),
        SegmentList::Cons(head, tail) => seq![segment_node(*head)] + list_nodes(*tail),
    }
}

/// Nesting depth of a segment tree: a segment without children has depth one.
pub open spec fn node_depth(n: SegmentNode) -> nat
    decreases n,
{
    match n.children {
        Some(cs) => 1 + nodes_depth(cs),
        None => 1,
    }
}

pub open spec fn nodes_depth(ns: Seq<SegmentNode>) -> nat
    decreases ns,
{
    if ns.len() == 0 {
        0
    } else {
        let a = node_depth(ns[0]);
        let b = nodes_depth(ns.drop_first());
        if a >= b { a } else { b }
    }
}

} // verus!
