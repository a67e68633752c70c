//! Lowering of source entities into the shapes that queries hand out.
use vstd::prelude::*;
use crate::model::{
    FieldOptionality, FieldRepeatability, SubField, Field, Segment, MessageCompound,
    MessageSegment, SegmentList, Message, compound_node, compound_nodes, segment_node, list_nodes,
};
use crate::source::{
    SourceSubField, SourceField, SourceSegment, SourceCompound, SourceMessageSegment,
    SourceSegmentList, SourceMessage, source_compound_node, source_compound_nodes,
    source_segment_node, source_list_nodes,
};

verus! {

/// The optionality that a source code stands for.
pub open spec fn optionality_of(code: usize) -> FieldOptionality {
    if code == 1 {
        FieldOptionality::Optional
    } else if code == 2 {
        FieldOptionality::Required
    } else if code == 3 {
        FieldOptionality::Conditional
    } else {
        FieldOptionality::BackwardCompatibility
    }
}

/// The repeatability that a source code stands for.
pub open spec fn repeatability_of(code: usize) -> FieldRepeatability {
    if code == 0 {
        FieldRepeatability::Unbounded
    } else if code == 1 {
        FieldRepeatability::Single
    } else {
        FieldRepeatability::Bounded(code)
    }
}

pub open spec fn subfield_lowered(s: SourceSubField, f: SubField) -> bool {
    &&& f.datatype@ == s.datatype@
    &&& f.description@ == s.desc@
    &&& f.optionality == optionality_of(s.opt)
    &&& f.repeatability == repeatability_of(s.rep)
    &&& f.max_length == s.len
    &&& f.table == s.table
}

/// Same length, and each entry lowered from the one at its position.
pub open spec fn subfields_lowered(s: Seq<SourceSubField>, f: Seq<SubField>) -> bool {
    &&& s.len() == f.len()
    &&& forall|i: int| 0 <= i < s.len() ==> subfield_lowered(#[trigger] s[i], f[i])
}

pub open spec fn field_lowered(s: SourceField, f: Field) -> bool {
    f.description@ == s.desc@ && subfields_lowered(s.subfields@, f.subfields@)
}

pub open spec fn segment_lowered(s: SourceSegment, f: Segment) -> bool {
    f.description@ == s.desc@ && subfields_lowered(s.fields@, f.fields@)
}

pub open spec fn message_lowered(s: SourceMessage, m: Message) -> bool {
    &&& m.description@ == s.desc@
    &&& m.name@ == s.name@
    &&& m.segments@.map_values(|x: MessageSegment| segment_node(x))
        == s.segments@.map_values(|x: SourceMessageSegment| source_segment_node(x))
}

/// Resolves an optionality code; every code outside 1..=3 means backward compatibility.
pub fn optionality_from_code(code: usize) -> (r: FieldOptionality)
    ensures
        r == optionality_of(code),
{
    match code {
        1 => FieldOptionality::Optional,
        2 => FieldOptionality::Required,
        3 => FieldOptionality::Conditional,
        _ => FieldOptionality::BackwardCompatibility,
    }
}

/// Resolves a repeatability code.
pub fn repeatability_from_code(code: usize) -> (r: FieldRepeatability)
    ensures
        r == repeatability_of(code),
{
    match code {
        0 => FieldRepeatability::Unbounded,
        1 => FieldRepeatability::Single,
        n => FieldRepeatability::Bounded(n),
    }
}

pub fn lower_subfield(s: &SourceSubField) -> (r: SubField)
    ensures
        subfield_lowered(*s, r),
{
    SubField {
        datatype: s.datatype.clone(),
        description: s.desc.clone(),
        optionality: optionality_from_code(s.opt),
        max_length: s.len,
        repeatability: repeatability_from_code(s.rep),
        table: s.table,
    }
}

pub fn lower_subfields(s: &Vec<SourceSubField>) -> (r: Vec<SubField>)
    ensures
        subfields_lowered(s@, r@),
{
    let mut out: Vec<SubField> = Vec::new();
    let mut i: usize = 0;
    while i < s.len()
        invariant
            i <= s@.len(),
            out@.len() == i,
            forall|j: int| 0 <= j < i ==> subfield_lowered(#[trigger] s@[j], out@[j]),
        decreases s@.len() - i,
    {
        out.push(lower_subfield(&s[i]));
        i = i + 1;
    }
    out
}

pub fn lower_field(s: &SourceField) -> (r: Field)
    ensures
        field_lowered(*s, r),
{
    Field { description: s.desc.clone(), subfields: lower_subfields(&s.subfields) }
}

pub fn lower_segment(s: &SourceSegment) -> (r: Segment)
    ensures
        segment_lowered(*s, r),
{
    Segment { description: s.desc.clone(), fields: lower_subfields(&s.fields) }
}

fn copy_name(n: &Option<String>) -> (r: Option<String>)
    ensures
        match (*n, r) {
            (Some(a), Some(b)) => a@ == b@,
            (None, None) => true,
            _ => false,
        },
{
    match n {
        Some(s) => Some(s.clone()),
        None => None,
    }
}

pub fn lower_compound(c: &SourceCompound) -> (r: MessageCompound)
    ensures
        compound_node(r) == source_compound_node(*c),
{
    MessageCompound { name: copy_name(&c.name), description: c.desc.clone(), min: c.min, max: c.max }
}

pub fn lower_compounds(cs: &Vec<SourceCompound>) -> (r: Vec<MessageCompound>)
    ensures
        compound_nodes(r@) == source_compound_nodes(cs@),
{
    let mut out: Vec<MessageCompound> = Vec::new();
    let mut i: usize = 0;
    while i < cs.len()
        invariant
            i <= cs@.len(),
            out@.len() == i,
            forall|j: int| 0 <= j < i ==> compound_node(#[trigger] out@[j]) == source_compound_node(cs@[j]),
        decreases cs@.len() - i,
    {
        out.push(lower_compound(&cs[i]));
        i = i + 1;
    }
    assert(compound_nodes(out@) =~= source_compound_nodes(cs@));
    out
}

/// Lowers a segment tree node, keeping its children and compounds in place and in order.
pub fn lower_message_segment(s: &SourceMessageSegment) -> (r: MessageSegment)
    ensures
        segment_node(r) == source_segment_node(*s),
    decreases s,
{
    let children = match &s.children {
        Some(l) => Some(lower_segment_list(l)),
        None => None,
    };
    let compounds = match &s.compounds {
        Some(cs) => Some(lower_compounds(cs)),
        None => None,
    };
    MessageSegment {
        name: s.name.clone(),
        description: s.desc.clone(),
        min: s.min,
        max: s.max,
        children,
        compounds,
    }
}

pub fn lower_segment_list(l: &SourceSegmentList) -> (r: SegmentList)
    ensures
        list_nodes(r) == source_list_nodes(*l),
    decreases l,
{
    match l {
        SourceSegmentList::Empty => SegmentList::Empty,
        SourceSegmentList::Cons(head, tail) => {
            let h = lower_message_segment(head);
            let t = lower_segment_list(tail);
            SegmentList::Cons(Box::new(h), Box::new(t))
        },
    }
}

pub fn lower_message(s: &SourceMessage) -> (r: Message)
    ensures
        message_lowered(*s, r),
{
    let mut out: Vec<MessageSegment> = Vec::new();
    let mut i: usize = 0;
    while i < s.segments.len()
        invariant
            i <= s.segments@.len(),
            out@.len() == i,
            forall|j: int| 0 <= j < i ==> segment_node(#[trigger] out@[j]) == source_segment_node(s.segments@[j]),
        decreases s.segments@.len() - i,
    {
        out.push(lower_message_segment(&s.segments[i]));
        i = i + 1;
    }
    assert(out@.map_values(|x: MessageSegment| segment_node(x))
        =~= s.segments@.map_values(|x: SourceMessageSegment| source_segment_node(x)));
    Message { description: s.desc.clone(), name: s.name.clone(), segments: out }
}

} // verus!
