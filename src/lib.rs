//! Schema data for the HL7 v2.x messaging standard: coded value tables,
//! datatypes, segments and message structures, per protocol version.
//!
//! Source catalogs are lowered once by the schema compiler into an immutable
//! [`Store`], which the query functions read.

pub mod text;
pub mod model;
pub mod source;
pub mod lower;
pub mod store;
pub mod compile;
pub mod laws;

pub use model::{
    FieldOptionality, FieldRepeatability, SubField, Field, Segment, MessageCompound,
    MessageSegment, SegmentList, Message,
};
pub use source::{
    SourceSubField, SourceField, SourceSegment, SourceCompound, SourceMessageSegment,
    SourceSegmentList, SourceMessage, SourceDefinition, SourceTable, SourceCatalog,
};
pub use store::{
    Table, Definition, Store, table_description, table_value, table_values, get_definition,
    get_field, get_segment, get_message, versions,
};
pub use compile::{CompileError, compile, compile_tables, compile_definitions};

