use sqlx_datadog::error::RewriteError;

#[test]
fn a_parse_error_reports_the_parser_s_message() {
    let arguments = RewriteError::MalformedArguments { message: "expected `,`".to_string() };
    assert_eq!(arguments.message(), "expected `,`");
    let function = RewriteError::MalformedFunction { message: "expected `fn`".to_string() };
    assert_eq!(function.message(), "expected `fn`");
}

#[test]
fn an_unnamed_argument_reports_a_fixed_message() {
    let error = RewriteError::UnnamedArgument { index: 3 };
    assert_eq!(error.message(), "the name of an argument is not a single identifier");
}
