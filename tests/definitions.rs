use hl7_definitions::{
    compile, get_definition, get_field, get_message, get_segment, table_description, table_value,
    table_values, versions, CompileError, FieldOptionality, FieldRepeatability, SourceCatalog,
    SourceCompound, SourceDefinition, SourceField, SourceMessage, SourceMessageSegment,
    SourceSegment, SourceSegmentList, SourceSubField, SourceTable, Store,
};

fn sub(datatype: &str, desc: &str, opt: usize, rep: usize, len: Option<usize>, table: Option<usize>) -> SourceSubField {
    SourceSubField { datatype: datatype.to_string(), desc: desc.to_string(), opt, rep, len, table }
}

fn table(id: &str, desc: &str, values: &[(&str, &str)]) -> (String, SourceTable) {
    (
        id.to_string(),
        SourceTable {
            desc: desc.to_string(),
            values: values.iter().map(|(k, v)| (k.to_string(), v.to_string())).collect(),
        },
    )
}

fn leaf(name: &str, desc: &str, min: usize, max: usize) -> SourceMessageSegment {
    SourceMessageSegment {
        name: name.to_string(),
        desc: desc.to_string(),
        min,
        max,
        children: None,
        compounds: None,
    }
}

fn list(items: Vec<SourceMessageSegment>) -> SourceSegmentList {
    let mut l = SourceSegmentList::Empty;
    for item in items.into_iter().rev() {
        l = SourceSegmentList::Cons(Box::new(item), Box::new(l));
    }
    l
}

const MSH_251: [&str; 21] = [
    "Field Separator",
    "Encoding Characters",
    "Sending Application",
    "Sending Facility",
    "Receiving Application",
    "Receiving Facility",
    "Date/Time Of Message",
    "Security",
    "Message Type",
    "Message Control ID",
    "Processing ID",
    "Version ID",
    "Sequence Number",
    "Continuation Pointer",
    "Accept Acknowledgment Type",
    "Application Acknowledgment Type",
    "Country Code",
    "Character Set",
    "Principal Language Of Message",
    "Alternate Character Set Handling Scheme",
    "Message Profile Identifier",
];

const ADT_A01_251: [&str; 22] = [
    "MSH", "SFT", "EVN", "PID", "PD1", "ROL", "NK1", "PV1", "PV2", "ROL", "DB1", "OBX", "AL1",
    "DG1", "DRG", "PROCEDURE", "GT1", "INSURANCE", "ACC", "UB1", "UB2", "PDA",
];

fn v251() -> SourceDefinition {
    let ad = SourceField {
        desc: "Address".to_string(),
        subfields: vec![
            sub("ST", "Street Address", 2, 1, Some(120), None),
            sub("ST", "Other Designation", 1, 1, Some(120), None),
            sub("ST", "City", 1, 1, Some(50), None),
            sub("ST", "State or Province", 1, 1, Some(50), None),
            sub("ST", "Zip or Postal Code", 1, 1, Some(12), None),
            sub("ID", "Country", 1, 1, Some(3), Some(399)),
            sub("ID", "Address Type", 1, 1, Some(3), Some(190)),
            sub("ST", "Other Geographic Designation", 1, 1, Some(50), None),
        ],
    };
    let ts = SourceField { desc: "Time Stamp".to_string(), subfields: vec![sub("DTM", "Time", 2, 1, Some(24), None)] };
    let msh = SourceSegment {
        desc: "Message Header".to_string(),
        fields: MSH_251.iter().map(|d| sub("ST", d, 2, 1, Some(20), None)).collect(),
    };
    let mut segments: Vec<SourceMessageSegment> = ADT_A01_251
        .iter()
        .map(|n| leaf(n, n, 0, 1))
        .collect();
    segments[0].min = 1;
    segments[15].children = Some(list(vec![leaf("PR1", "Procedures", 1, 1), leaf("ROL", "Role", 0, 0)]));
    segments[17].children = Some(list(vec![
        leaf("IN1", "Insurance", 1, 1),
        SourceMessageSegment {
            name: "IN2".to_string(),
            desc: "Insurance Additional Information".to_string(),
            min: 0,
            max: 1,
            children: Some(list(vec![leaf("ZIN", "Nested", 0, 3)])),
            compounds: Some(vec![
                SourceCompound { name: Some("IN3".to_string()), desc: "Certification".to_string(), min: 0, max: 0 },
                SourceCompound { name: None, desc: "Anonymous".to_string(), min: 1, max: 2 },
            ]),
        },
    ]));
    SourceDefinition {
        fields: vec![("AD".to_string(), ad), ("TS".to_string(), ts)],
        segments: vec![("MSH".to_string(), msh)],
        messages: vec![(
            "ADT_A01".to_string(),
            SourceMessage { desc: "Admit/Visit Notification".to_string(), name: "ADT_A01".to_string(), segments },
        )],
    }
}

fn v23() -> SourceDefinition {
    let msh = SourceSegment {
        desc: "Message header segment".to_string(),
        fields: MSH_251[..19]
            .iter()
            .enumerate()
            .map(|(i, d)| sub("ST", d, if i == 7 { 1 } else { 2 }, 1, Some(20), None))
            .collect(),
    };
    SourceDefinition { fields: vec![], segments: vec![("MSH".to_string(), msh)], messages: vec![] }
}

fn v24() -> SourceDefinition {
    SourceDefinition {
        fields: vec![("CE".to_string(), SourceField { desc: "Coded Element".to_string(), subfields: vec![] })],
        segments: vec![],
        messages: vec![],
    }
}

fn catalog() -> SourceCatalog {
    SourceCatalog {
        tables: vec![
            table("1", "Administrative Sex", &[("F", "Female"), ("M", "Male"), ("U", "Unknown")]),
            table("3", "Event type", &[
                ("A01", "ADT/ACK - Admit/visit notification"),
                ("A08", "ADT/ACK -  Update patient information"),
            ]),
            table("91", "Query priority", &[("D", "Deferred"), ("I", "Immediate")]),
            table("895", "Present On Admission (POA) Indicator", &[("Y", "Yes"), ("N", "No")]),
        ],
        definitions: vec![("2.3".to_string(), v23()), ("2.4".to_string(), v24()), ("2.5.1".to_string(), v251())],
    }
}

fn enabled() -> Vec<String> {
    vec!["2.3".to_string(), "2.5.1".to_string()]
}

fn store() -> Store {
    compile(&catalog(), true, &enabled()).expect("catalog compiles")
}

#[test]
fn can_get_table_descriptions() {
    let store = store();
    assert_eq!(
        table_description(&store, 1).expect("table exists"),
        "Administrative Sex"
    );
    assert_eq!(
        table_description(&store, 895).expect("table exists"),
        "Present On Admission (POA) Indicator"
    );
}

#[test]
fn can_get_table_value() {
    let store = store();
    assert_eq!(
        table_value(&store, 3, "A08").expect("table value exists"),
        "ADT/ACK -  Update patient information"
    );
}

#[test]
fn can_get_table_values() {
    let store = store();
    let values = table_values(&store, 91).expect("can get table 91 values");
    assert_eq!(values.len(), 2);
    let d = values.iter().find(|(k, _)| k == "D").expect("can find entry D");
    assert_eq!((d.0.as_str(), d.1.as_str()), ("D", "Deferred"));
    let i = values.iter().find(|(k, _)| k == "I").expect("can find entry I");
    assert_eq!((i.0.as_str(), i.1.as_str()), ("I", "Immediate"));
}

#[test]
fn can_list_versions() {
    let store = store();
    assert!(versions(&store).iter().any(|v| v == &"2.5.1"));
}

#[test]
fn can_get_definitions_for_version() {
    let store = store();
    let defs = get_definition(&store, "2.5.1").expect("can get definition for v2.5.1");
    assert!(!defs.fields.is_empty());
    assert!(!defs.segments.is_empty());
}

#[test]
fn can_get_fields_for_version() {
    let store = store();
    let ad = get_field(&store, "2.5.1", "AD").expect("can get AD field for v2.5.1");
    assert_eq!(ad.description, "Address");
    assert_eq!(ad.subfields.len(), 8);
    assert_eq!(ad.subfields[0].datatype, "ST");
    assert_eq!(ad.subfields[0].description, "Street Address");
    assert_eq!(ad.subfields[0].optionality, FieldOptionality::Required);
    assert_eq!(ad.subfields[0].repeatability, FieldRepeatability::Single);
    assert_eq!(ad.subfields[0].max_length, Some(120));
    assert_eq!(ad.subfields[0].table, None);
}

#[test]
fn can_get_segments_for_version() {
    let store = store();
    let msh = get_segment(&store, "2.5.1", "MSH").expect("can get MSH segment for v2.5.1");
    assert_eq!(msh.description, "Message Header");
    assert_eq!(msh.fields.len(), 21);
    assert_eq!(msh.fields[9].description, "Message Control ID");
}

#[test]
fn can_get_messages_for_version() {
    let store = store();
    let a01 = get_message(&store, "2.5.1", "ADT_A01").expect("can get ADT_A01 message for v2.5.1");
    assert_eq!(a01.segments.len(), 22);
    let msh = &a01.segments[0];
    assert_eq!(msh.name, "MSH");
    assert_eq!(msh.min, 1);
    assert_eq!(msh.max, 1);
}

#[test]
fn test_proper_optionality() {
    let store = store();
    let segment = get_segment(&store, "2.3", "MSH").expect("MSH segment");
    let st_field = segment.fields.iter().nth(7).expect("MSH.8");
    assert_eq!(st_field.description, "Security");
    assert_eq!(st_field.optionality, FieldOptionality::Optional);
}

#[test]
fn every_table_reads_back_from_its_source() {
    let cat = catalog();
    let store = store();
    for (id, t) in &cat.tables {
        let n: u16 = id.parse().unwrap();
        assert_eq!(table_description(&store, n), Some(t.desc.as_str()));
        let vals = table_values(&store, n).expect("table present");
        assert_eq!(vals.len(), t.values.len());
        for (code, meaning) in &t.values {
            assert_eq!(table_value(&store, n, code), Some(meaning.as_str()));
        }
        assert_eq!(table_value(&store, n, "no such code"), None);
    }
    assert_eq!(table_description(&store, 2), None);
    assert_eq!(table_values(&store, 2), None);
}

#[test]
fn lookups_are_exact_and_case_sensitive() {
    let store = store();
    assert!(get_segment(&store, "2.5.1", "msh").is_none());
    assert!(get_segment(&store, "2.5", "MSH").is_none());
    assert!(get_field(&store, "2.5.1", "A").is_none());
    assert!(get_message(&store, "2.5.1", "ADT_A0").is_none());
    assert_eq!(table_value(&store, 3, "a08"), None);
}

#[test]
fn enabled_versions_have_non_empty_maps() {
    let store = store();
    let d = get_definition(&store, "2.5.1").expect("2.5.1");
    assert_eq!(d.fields.len(), 2);
    assert_eq!(d.segments.len(), 1);
    assert_eq!(d.messages.len(), 1);
    let d = get_definition(&store, "2.3").expect("2.3");
    assert!(d.fields.is_empty());
    assert_eq!(d.segments.len(), 1);
}

#[test]
fn disabled_version_is_absent() {
    let store = store();
    assert!(get_definition(&store, "2.4").is_none());
    assert!(get_field(&store, "2.4", "CE").is_none());
    let vs = versions(&store);
    assert_eq!(vs, vec!["2.3", "2.5.1"]);
}

#[test]
fn no_version_is_compiled_in_by_default() {
    let store = compile(&catalog(), false, &vec![]).expect("compiles");
    assert!(versions(&store).is_empty());
    assert!(get_definition(&store, "2.5.1").is_none());
}

#[test]
fn disabled_tables_find_nothing_and_leave_definitions_alone() {
    let store = compile(&catalog(), false, &enabled()).expect("compiles");
    assert_eq!(table_description(&store, 1), None);
    assert_eq!(table_value(&store, 3, "A08"), None);
    assert_eq!(table_values(&store, 91), None);
    let with_tables = self::store();
    assert_eq!(get_segment(&store, "2.5.1", "MSH"), get_segment(&with_tables, "2.5.1", "MSH"));
    assert_eq!(get_field(&store, "2.5.1", "AD"), get_field(&with_tables, "2.5.1", "AD"));
    assert_eq!(get_message(&store, "2.5.1", "ADT_A01"), get_message(&with_tables, "2.5.1", "ADT_A01"));
}

#[test]
fn disabled_tables_skip_malformed_table_ids() {
    let mut cat = catalog();
    cat.tables.push(table("x1", "Bad", &[]));
    assert!(compile(&cat, false, &enabled()).is_ok());
}

#[test]
fn subfield_attributes_are_kept_in_order() {
    let store = store();
    let ad = get_field(&store, "2.5.1", "AD").expect("AD");
    let src = &v251().fields[0].1.subfields;
    for (out, s) in ad.subfields.iter().zip(src.iter()) {
        assert_eq!(out.datatype, s.datatype);
        assert_eq!(out.description, s.desc);
        assert_eq!(out.max_length, s.len);
        assert_eq!(out.table, s.table);
    }
    assert_eq!(ad.subfields[5].table, Some(399));
    assert_eq!(ad.subfields[6].description, "Address Type");
}

#[test]
fn optionality_codes() {
    let opts = [(0, FieldOptionality::BackwardCompatibility), (1, FieldOptionality::Optional),
        (2, FieldOptionality::Required), (3, FieldOptionality::Conditional),
        (4, FieldOptionality::BackwardCompatibility), (usize::MAX, FieldOptionality::BackwardCompatibility)];
    for (code, want) in opts {
        assert_eq!(hl7_definitions::lower::optionality_from_code(code), want);
    }
}

#[test]
fn repeatability_codes() {
    assert_eq!(hl7_definitions::lower::repeatability_from_code(0), FieldRepeatability::Unbounded);
    assert_eq!(hl7_definitions::lower::repeatability_from_code(1), FieldRepeatability::Single);
    assert_eq!(hl7_definitions::lower::repeatability_from_code(2), FieldRepeatability::Bounded(2));
    assert_eq!(hl7_definitions::lower::repeatability_from_code(99), FieldRepeatability::Bounded(99));
}

#[test]
fn labels_in_words() {
    assert_eq!(FieldOptionality::Optional.to_string(), "optional");
    assert_eq!(FieldOptionality::Required.to_string(), "required");
    assert_eq!(FieldOptionality::Conditional.to_string(), "conditional");
    assert_eq!(FieldOptionality::BackwardCompatibility.to_string(), "backwards compatibility");
    assert_eq!(FieldRepeatability::Unbounded.to_string(), "unbounded");
    assert_eq!(FieldRepeatability::Single.to_string(), "singular");
    assert_eq!(FieldRepeatability::Bounded(5).to_string(), "maximum 5");
    assert_eq!(FieldRepeatability::Bounded(120).to_string(), "maximum 120");
    assert_eq!(FieldRepeatability::Bounded(0).to_string(), "maximum 0");
}

#[test]
fn message_tree_keeps_nesting_and_compounds() {
    let store = store();
    let a01 = get_message(&store, "2.5.1", "ADT_A01").expect("ADT_A01");
    assert_eq!(a01.name, "ADT_A01");
    assert_eq!(a01.description, "Admit/Visit Notification");
    for (seg, name) in a01.segments.iter().zip(ADT_A01_251.iter()) {
        assert_eq!(&seg.name, name);
    }
    assert!(a01.segments[1].children.is_none());
    let ins = a01.segments[17].children.as_ref().expect("insurance group");
    let (in1, rest) = match ins {
        hl7_definitions::SegmentList::Cons(h, t) => (h, t),
        _ => panic!("empty group"),
    };
    assert_eq!(in1.name, "IN1");
    assert_eq!((in1.min, in1.max), (1, 1));
    let in2 = match &**rest {
        hl7_definitions::SegmentList::Cons(h, t) => {
            assert!(matches!(**t, hl7_definitions::SegmentList::Empty));
            h
        }
        _ => panic!("missing IN2"),
    };
    assert_eq!(in2.name, "IN2");
    let compounds = in2.compounds.as_ref().expect("compounds");
    assert_eq!(compounds.len(), 2);
    assert_eq!(compounds[0].name.as_deref(), Some("IN3"));
    assert_eq!(compounds[0].description, "Certification");
    assert_eq!(compounds[1].name, None);
    assert_eq!((compounds[1].min, compounds[1].max), (1, 2));
    match in2.children.as_ref().expect("nested") {
        hl7_definitions::SegmentList::Cons(h, _) => {
            assert_eq!(h.name, "ZIN");
            assert_eq!(h.max, 3);
        }
        _ => panic!("missing ZIN"),
    }
}

#[test]
fn table_ids_must_be_numbers() {
    let mut cat = catalog();
    cat.tables.push(table("12a", "Bad", &[]));
    assert_eq!(compile(&cat, true, &enabled()).unwrap_err(), CompileError::InvalidTableId("12a".to_string()));
    let mut cat = catalog();
    cat.tables.push(table("65536", "Too large", &[]));
    assert_eq!(compile(&cat, true, &enabled()).unwrap_err(), CompileError::InvalidTableId("65536".to_string()));
    let mut cat = catalog();
    cat.tables.push(table("", "Empty", &[]));
    assert_eq!(compile(&cat, true, &enabled()).unwrap_err(), CompileError::InvalidTableId("".to_string()));
    let mut cat = catalog();
    cat.tables.push(table("-4", "Negative", &[]));
    assert_eq!(compile(&cat, true, &enabled()).unwrap_err(), CompileError::InvalidTableId("-4".to_string()));
}

#[test]
fn table_ids_parse_like_unsigned_numbers() {
    let mut cat = catalog();
    cat.tables = vec![table("65535", "Largest", &[]), table("+7", "Signed", &[]), table("007", "Zeros", &[])];
    assert!(matches!(compile(&cat, true, &vec![]), Err(CompileError::DuplicateTableId(k)) if k == "007"));
    cat.tables.pop();
    let store = compile(&cat, true, &vec![]).expect("compiles");
    assert_eq!(table_description(&store, 65535), Some("Largest"));
    assert_eq!(table_description(&store, 7), Some("Signed"));
}

#[test]
fn duplicate_keys_are_refused() {
    let mut cat = catalog();
    cat.tables[0].1.values.push(("F".to_string(), "Again".to_string()));
    assert_eq!(compile(&cat, true, &enabled()).unwrap_err(), CompileError::DuplicateKey("F".to_string()));
    let mut cat = catalog();
    cat.definitions.push(("2.3".to_string(), v24()));
    assert_eq!(compile(&cat, true, &enabled()).unwrap_err(), CompileError::DuplicateKey("2.3".to_string()));
    let mut cat = catalog();
    cat.definitions[2].1.segments.push(("MSH".to_string(), SourceSegment { desc: "x".to_string(), fields: vec![] }));
    assert_eq!(compile(&cat, true, &enabled()).unwrap_err(), CompileError::DuplicateKey("MSH".to_string()));
    let mut cat = catalog();
    cat.definitions[1].1.fields.push(("CE".to_string(), SourceField { desc: "x".to_string(), subfields: vec![] }));
    assert!(compile(&cat, true, &enabled()).is_ok());
}

#[test]
fn children_list_in_order() {
    let store = store();
    let a01 = get_message(&store, "2.5.1", "ADT_A01").expect("ADT_A01");
    let procedure = a01.segments[15].children.as_ref().expect("procedure group").segments();
    let names: Vec<&str> = procedure.iter().map(|s| s.name.as_str()).collect();
    assert_eq!(names, vec!["PR1", "ROL"]);
    assert_eq!(procedure[1].max, 0);
    assert!(hl7_definitions::SegmentList::Empty.segments().is_empty());
}
