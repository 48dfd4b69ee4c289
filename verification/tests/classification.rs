use sqlx_datadog::argument::{classify, Argument, Invocation};
use sqlx_datadog::error::RewriteError;
use sqlx_datadog::syntax::parse_arguments;

fn texts(items: &[&str]) -> Vec<String> {
    items.iter().map(|item| item.to_string()).collect()
}

fn path(text: &str) -> Argument {
    Argument::Path { text: text.to_string() }
}

fn name_value(name: &str, value: &str) -> Argument {
    Argument::NameValue {
        name: Some(name.to_string()),
        value: value.to_string(),
        text: format!("{} = {}", name, value),
    }
}

fn list(name: &str, tokens: &str) -> Argument {
    Argument::List {
        name: Some(name.to_string()),
        tokens: tokens.to_string(),
        text: format!("{} ({})", name, tokens),
    }
}

#[test]
fn an_argument_list_is_read_entry_by_entry() {
    let arguments = parse_arguments("skip(db), level = \"info\", db = conn, skip_all").unwrap();
    assert_eq!(
        arguments,
        vec![list("skip", "db"), name_value("level", "\"info\""), name_value("db", "conn"), path("skip_all")]
    );
}

#[test]
fn an_empty_argument_list_has_no_entries() {
    assert_eq!(parse_arguments("").unwrap(), Vec::<Argument>::new());
}

#[test]
fn a_trailing_comma_adds_no_entry() {
    assert_eq!(parse_arguments("skip(db),").unwrap(), vec![list("skip", "db")]);
}

#[test]
fn a_name_of_several_segments_is_no_identifier() {
    let arguments = parse_arguments("a::b = 1, a::b(x), a::b, ::c(y)").unwrap();
    assert_eq!(
        arguments,
        vec![
            Argument::NameValue { name: None, value: "1".to_string(), text: "a :: b = 1".to_string() },
            Argument::List { name: None, tokens: "x".to_string(), text: "a :: b (x)".to_string() },
            Argument::Path { text: "a :: b".to_string() },
            Argument::List { name: None, tokens: "y".to_string(), text: ":: c (y)".to_string() },
        ]
    );
}

#[test]
fn a_list_keeps_its_brackets_in_its_text() {
    let arguments = parse_arguments("fields[x], fields{y}").unwrap();
    assert_eq!(
        arguments,
        vec![
            Argument::List {
                name: Some("fields".to_string()),
                tokens: "x".to_string(),
                text: "fields [x]".to_string(),
            },
            Argument::List {
                name: Some("fields".to_string()),
                tokens: "y".to_string(),
                text: "fields { y }".to_string(),
            },
        ]
    );
}

#[test]
fn malformed_arguments_are_refused() {
    for text in ["skip(db) level", "= 3", "skip(db", "level = ", "\"info\"", ", skip(db)"] {
        match parse_arguments(text) {
            Err(RewriteError::MalformedArguments { message }) => assert!(!message.is_empty()),
            other => panic!("{:?} gave {:?}", text, other),
        }
    }
}

#[test]
fn no_arguments_give_the_default_handle() {
    let invocation = classify(&vec![]).unwrap();
    assert_eq!(
        invocation,
        Invocation { handle: "db".to_string(), fields: vec![], pass_through: vec![] }
    );
}

#[test]
fn the_handle_is_db_where_no_entry_binds_it() {
    let arguments = vec![list("skip", "db"), name_value("level", "\"info\""), path("db")];
    let invocation = classify(&arguments).unwrap();
    assert_eq!(invocation.handle, "db");
    assert_eq!(invocation.pass_through, texts(&["skip (db)", "level = \"info\"", "db"]));
}

#[test]
fn db_binds_the_handle() {
    let invocation = classify(&vec![name_value("db", "conn")]).unwrap();
    assert_eq!(
        invocation,
        Invocation { handle: "conn".to_string(), fields: vec![], pass_through: vec![] }
    );
}

#[test]
fn the_last_db_entry_wins() {
    let arguments = vec![
        name_value("db", "first"),
        list("skip", "db"),
        name_value("db", "self . pool"),
        path("skip_all"),
    ];
    let invocation = classify(&arguments).unwrap();
    assert_eq!(invocation.handle, "self . pool");
    assert_eq!(invocation.pass_through, texts(&["skip (db)", "skip_all"]));
}

#[test]
fn a_list_named_db_is_passed_through() {
    let invocation = classify(&vec![list("db", "conn")]).unwrap();
    assert_eq!(invocation.handle, "db");
    assert_eq!(invocation.pass_through, texts(&["db (conn)"]));
}

#[test]
fn a_value_named_fields_is_passed_through() {
    let invocation = classify(&vec![name_value("fields", "x")]).unwrap();
    assert_eq!(invocation.fields, Vec::<String>::new());
    assert_eq!(invocation.pass_through, texts(&["fields = x"]));
}

#[test]
fn fields_entries_add_fields_in_order() {
    let arguments = vec![
        list("fields", "x , y"),
        list("skip", "db"),
        list("fields", ""),
        list("fields", "z = 1"),
    ];
    let invocation = classify(&arguments).unwrap();
    assert_eq!(invocation.fields, texts(&["x , y", "z = 1"]));
    assert_eq!(invocation.pass_through, texts(&["skip (db)"]));
}

#[test]
fn pass_through_keeps_the_order_written() {
    let arguments = vec![
        list("skip", "db"),
        name_value("db", "conn"),
        name_value("level", "\"info\""),
        list("fields", "x"),
        path("skip_all"),
        name_value("name", "\"query\""),
    ];
    let invocation = classify(&arguments).unwrap();
    assert_eq!(
        invocation.pass_through,
        texts(&["skip (db)", "level = \"info\"", "skip_all", "name = \"query\""])
    );
}

#[test]
fn the_first_unnamed_argument_is_reported() {
    let unnamed_value =
        Argument::NameValue { name: None, value: "1".to_string(), text: "a :: b = 1".to_string() };
    let unnamed_list =
        Argument::List { name: None, tokens: "x".to_string(), text: "a :: b (x)".to_string() };
    assert_eq!(
        classify(&vec![list("skip", "db"), unnamed_value.clone(), unnamed_list.clone()]),
        Err(RewriteError::UnnamedArgument { index: 1 })
    );
    assert_eq!(
        classify(&vec![unnamed_list, unnamed_value]),
        Err(RewriteError::UnnamedArgument { index: 0 })
    );
}

#[test]
fn a_bare_path_of_several_segments_is_passed_through() {
    let invocation = classify(&vec![path("a :: b")]).unwrap();
    assert_eq!(invocation.pass_through, texts(&["a :: b"]));
}

#[test]
fn a_raw_identifier_is_not_the_plain_name() {
    let arguments = parse_arguments("r#db = conn").unwrap();
    let invocation = classify(&arguments).unwrap();
    assert_eq!(invocation.handle, "db");
    assert_eq!(invocation.pass_through, texts(&["r#db = conn"]));
}
