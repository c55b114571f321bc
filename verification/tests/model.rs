use ultime::model::{
    extract_define_event_statements, extract_define_field_statements,
    extract_define_table_statements, is_value_param_used, FieldKind, SchemaStatement, ValueExpr,
};

fn param(name: &str) -> ValueExpr {
    ValueExpr::Param(name.to_string())
}

#[test]
fn literal_shapes_do_not_use_the_value_parameter() {
    assert!(!is_value_param_used(&Some(ValueExpr::Literal)));
    assert!(!is_value_param_used(&Some(param("other"))));
    assert!(!is_value_param_used(&Some(ValueExpr::CallOf(vec![]))));
    assert!(!is_value_param_used(&Some(ValueExpr::CastOf(Box::new(ValueExpr::Literal)))));
}

#[test]
fn value_references_are_found_through_every_wrapper() {
    assert!(is_value_param_used(&None));
    assert!(is_value_param_used(&Some(ValueExpr::OtherExpr)));
    assert!(is_value_param_used(&Some(param("value"))));
    assert!(is_value_param_used(&Some(ValueExpr::CastOf(Box::new(param("value"))))));
    assert!(is_value_param_used(&Some(ValueExpr::CallOf(vec![
        ValueExpr::Literal,
        ValueExpr::BinaryOf(Box::new(ValueExpr::Literal), Box::new(param("value"))),
    ]))));
    assert!(!is_value_param_used(&Some(ValueExpr::BinaryOf(
        Box::new(param("before")),
        Box::new(param("after")),
    ))));
}

#[test]
fn extractors_are_order_preserving_filters() {
    let statements = vec![
        SchemaStatement::OtherStatement,
        SchemaStatement::DefineTable { name: "post".to_string() },
        SchemaStatement::DefineField {
            name: "title".to_string(),
            what: "post".to_string(),
            kind: FieldKind::StringKind,
            value: None,
        },
        SchemaStatement::DefineEvent { name: "publish_post".to_string() },
        SchemaStatement::DefineTable { name: "user".to_string() },
    ];

    let tables = extract_define_table_statements(&statements);
    assert_eq!(tables.len(), 2);
    assert_eq!(tables[0].name, "post");
    assert_eq!(tables[1].name, "user");

    let fields = extract_define_field_statements(&statements);
    assert_eq!(fields.len(), 1);
    assert_eq!(fields[0].name, "title");
    assert_eq!(fields[0].what, "post");

    let events = extract_define_event_statements(&statements);
    assert_eq!(events.len(), 1);
    assert_eq!(events[0].name, "publish_post");
}

#[test]
fn extractors_tolerate_an_empty_tree() {
    let statements: Vec<SchemaStatement> = vec![];
    assert!(extract_define_table_statements(&statements).is_empty());
    assert!(extract_define_field_statements(&statements).is_empty());
    assert!(extract_define_event_statements(&statements).is_empty());
}
