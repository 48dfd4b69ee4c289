use sqlx_datadog::attribute::{vocabulary_fields, InstrumentAttribute};

fn texts(items: &[&str]) -> Vec<String> {
    items.iter().map(|item| item.to_string()).collect()
}

const VOCABULARY: [&str; 12] = [
    "span.kind = \"client\"",
    "span.type = \"sql\"",
    "component = \"sqlx\"",
    "operation = \"sqlx.query\"",
    "peer.hostname",
    "peer.service",
    "out.host",
    "out.port",
    "db.system",
    "db.instance",
    "db.name",
    "db.statement",
];

#[test]
fn the_vocabulary_has_twelve_fields_in_order() {
    assert_eq!(vocabulary_fields(), texts(&VOCABULARY));
}

#[test]
fn an_attribute_without_additions_declares_the_vocabulary() {
    let attribute = InstrumentAttribute::synthesize(vec![], vec![]);
    assert_eq!(attribute.fields, texts(&VOCABULARY));
    assert_eq!(attribute.arguments, Vec::<String>::new());
    assert_eq!(
        attribute.render(),
        "#[::tracing::instrument(fields(span.kind = \"client\", span.type = \"sql\", component = \"sqlx\", operation = \"sqlx.query\", peer.hostname, peer.service, out.host, out.port, db.system, db.instance, db.name, db.statement))]"
    );
}

#[test]
fn extra_fields_follow_the_vocabulary() {
    let attribute = InstrumentAttribute::synthesize(texts(&["x , y", "z = 1"]), vec![]);
    let mut expected = texts(&VOCABULARY);
    expected.push("x , y".to_string());
    expected.push("z = 1".to_string());
    assert_eq!(attribute.fields, expected);
    assert!(attribute.render().ends_with("db.name, db.statement, x , y, z = 1))]"));
}

#[test]
fn passed_arguments_follow_the_fields() {
    let attribute =
        InstrumentAttribute::synthesize(vec![], texts(&["skip (db)", "level = \"info\""]));
    assert_eq!(attribute.fields, texts(&VOCABULARY));
    assert_eq!(attribute.arguments, texts(&["skip (db)", "level = \"info\""]));
    assert!(attribute
        .render()
        .ends_with("db.name, db.statement), skip (db), level = \"info\")]"));
}
