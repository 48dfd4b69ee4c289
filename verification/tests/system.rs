use sqlx_datadog::system::system_name;

#[test]
fn postgres_is_recorded_as_postgresql() {
    assert_eq!(system_name("postgres"), "postgresql");
}

#[test]
fn other_schemes_are_recorded_as_they_are() {
    assert_eq!(system_name("mysql"), "mysql");
    assert_eq!(system_name("sqlite"), "sqlite");
    assert_eq!(system_name("mariadb"), "mariadb");
    assert_eq!(system_name(""), "");
    assert_eq!(system_name("postgre"), "postgre");
    assert_eq!(system_name("ostgres"), "ostgres");
}

#[test]
fn a_scheme_that_holds_postgres_is_recorded_as_it_is() {
    assert_eq!(system_name("postgresql"), "postgresql");
    assert_eq!(system_name("postgres+ssl"), "postgres+ssl");
    assert_eq!(system_name("xpostgres"), "xpostgres");
    assert_eq!(system_name("postgrespostgres"), "postgrespostgres");
    assert_eq!(system_name("Postgres"), "Postgres");
}

#[test]
fn the_name_is_what_the_injected_match_gives() {
    for scheme in ["postgres", "mysql", "postgresql", "sqlite", "", "postgres+ssl"] {
        let expected = match scheme {
            "postgres" => "postgresql",
            scheme => scheme,
        };
        assert_eq!(system_name(scheme), expected);
    }
}
