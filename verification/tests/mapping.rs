use nifi_provision::sparql::{
    attribute_records, execute_query, get_parameter_solutions, Field, MapError,
    NifiLinkQueryOutput, QuerySolutionOutput, ShaclType,
};
use nifi_provision::term::{unwrap_literal, unwrap_node, Row, Term, TermKind};

fn attribute_row(subject: &str, key: Option<&str>, value: &str, ty: &str) -> Row {
    let mut row = Row::new();
    row.bind("subject", Term::named_node(subject));
    row.bind("value", Term::literal(value));
    row.bind("ty", Term::literal(ty));
    if let Some(k) = key {
        row.bind("nifi_key", Term::literal(k));
    }
    row
}

#[test]
fn row_get_returns_first_binding() {
    let mut row = Row::new();
    row.bind("a", Term::literal("1"));
    row.bind("b", Term::literal("2"));
    row.bind("a", Term::literal("3"));
    assert_eq!(row.get("a").unwrap().value, "1");
    assert_eq!(row.get("b").unwrap().value, "2");
    assert!(row.get("c").is_none());
}

#[test]
fn unwrap_literal_and_node() {
    assert_eq!(unwrap_literal(&Term::literal("x")), Some("x".to_string()));
    assert_eq!(unwrap_literal(&Term::named_node("x")), None);
    assert_eq!(unwrap_node(Some(&Term::named_node("n"))), Some("n".to_string()));
    assert_eq!(unwrap_node(Some(&Term::blank_node("b"))), Some("b".to_string()));
    assert_eq!(unwrap_node(Some(&Term::literal("l"))), None);
    assert_eq!(unwrap_node(None), None);
}

#[test]
fn attribute_row_maps_to_record() {
    let mut row = attribute_row("http://e/s", Some("msg"), "hi", "org.example.Echo");
    row.bind("datatype", Term::named_node("http://www.w3.org/2001/XMLSchema#string"));
    let record = QuerySolutionOutput::from_query(&row).unwrap();
    assert!(record.subject.same(&Term::named_node("http://e/s")));
    assert_eq!(record.nifi_key, Some("msg".to_string()));
    assert_eq!(record.value.value, "hi");
    assert_eq!(record.ty, "org.example.Echo");
    assert!(matches!(record.shacl_type, ShaclType::DataType(_)));
}

#[test]
fn absent_optional_key_maps_to_none() {
    let row = attribute_row("http://e/s", None, "hi", "T");
    let record = QuerySolutionOutput::from_query(&row).unwrap();
    assert_eq!(record.nifi_key, None);
    assert!(matches!(record.shacl_type, ShaclType::Untyped));
}

#[test]
fn missing_required_binding_is_named() {
    let mut row = Row::new();
    row.bind("subject", Term::named_node("http://e/s"));
    row.bind("ty", Term::literal("T"));
    let err = QuerySolutionOutput::from_query(&row).unwrap_err();
    assert_eq!(err, MapError::Missing(Field::Value));
    assert_eq!(err.message(), "value");

    let mut row = Row::new();
    row.bind("value", Term::literal("v"));
    let err = QuerySolutionOutput::from_query(&row).unwrap_err();
    assert_eq!(err, MapError::Missing(Field::Subject));
    assert_eq!(err.message(), "subject");
}

#[test]
fn engine_type_must_be_a_literal() {
    let mut row = Row::new();
    row.bind("subject", Term::named_node("http://e/s"));
    row.bind("value", Term::literal("v"));
    row.bind("ty", Term::named_node("http://e/T"));
    let err = QuerySolutionOutput::from_query(&row).unwrap_err();
    assert_eq!(err, MapError::NotLiteral(Field::Ty, TermKind::NamedNode));
    assert_eq!(err.message(), "Expected literal, found named node");
}

#[test]
fn malformed_row_is_rejected_and_not_aggregated() {
    let good = attribute_row("http://e/a", Some("k"), "v", "T");
    let mut bad = attribute_row("http://e/b", Some("k"), "v", "T");
    bad.bind("datatype", Term::named_node("http://e/dt"));
    bad.bind("class", Term::named_node("http://e/cl"));
    let err = QuerySolutionOutput::from_query(&bad).unwrap_err();
    assert_eq!(err, MapError::Exclusive);
    assert_eq!(err.message(), "Both datatype and class specified");

    let rows = vec![good.clone(), bad, good];
    assert_eq!(attribute_records(&rows).len(), 2);
    let groups = get_parameter_solutions(&rows);
    assert_eq!(groups.len(), 1);
    assert_eq!(groups[0].len(), 2);
    assert!(groups[0].iter().all(|r| r.subject.same(&Term::named_node("http://e/a"))));
}

#[test]
fn groups_follow_first_seen_order_and_keep_record_order() {
    let rows = vec![
        attribute_row("http://e/b", Some("k1"), "1", "T"),
        attribute_row("http://e/a", Some("k2"), "2", "T"),
        attribute_row("http://e/b", Some("k3"), "3", "T"),
        attribute_row("http://e/c", Some("k4"), "4", "T"),
        attribute_row("http://e/a", Some("k5"), "5", "T"),
    ];
    let groups = get_parameter_solutions(&rows);
    let shape: Vec<(String, Vec<String>)> = groups
        .iter()
        .map(|g| (g[0].subject.value.clone(), g.iter().map(|r| r.value.value.clone()).collect()))
        .collect();
    assert_eq!(
        shape,
        vec![
            ("http://e/b".to_string(), vec!["1".to_string(), "3".to_string()]),
            ("http://e/a".to_string(), vec!["2".to_string(), "5".to_string()]),
            ("http://e/c".to_string(), vec!["4".to_string()]),
        ]
    );
    let total: usize = groups.iter().map(|g| g.len()).sum();
    assert_eq!(total, rows.len());
}

#[test]
fn named_and_blank_nodes_of_one_text_are_distinct_subjects() {
    let mut blank = Row::new();
    blank.bind("subject", Term::blank_node("x"));
    blank.bind("value", Term::literal("1"));
    blank.bind("ty", Term::literal("T"));
    let mut named = Row::new();
    named.bind("subject", Term::named_node("x"));
    named.bind("value", Term::literal("2"));
    named.bind("ty", Term::literal("T"));
    let groups = get_parameter_solutions(&vec![blank, named]);
    assert_eq!(groups.len(), 2);
}

#[test]
fn empty_input_gives_no_groups() {
    assert!(get_parameter_solutions(&Vec::new()).is_empty());
}

#[test]
fn link_rows_need_their_key_only_when_keyed() {
    let mut row = Row::new();
    row.bind("source_id", Term::literal("id1"));
    row.bind("target_id", Term::literal("id2"));
    let err = NifiLinkQueryOutput::from_query(&row, true).unwrap_err();
    assert_eq!(err, MapError::Missing(Field::Key));
    assert_eq!(err.message(), "key");
    let link = NifiLinkQueryOutput::from_query(&row, false).unwrap();
    assert_eq!(link.key, None);
    row.bind("key", Term::literal("data"));
    let link = NifiLinkQueryOutput::from_query(&row, true).unwrap();
    assert_eq!(link.source_id, "id1");
    assert_eq!(link.target_id, "id2");
    assert_eq!(link.key, Some("data".to_string()));
    assert_eq!(execute_query(&vec![row], true).len(), 1);
}
