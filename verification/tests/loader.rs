use connector_core::connector::{
    file_path_of, jdbc_string, stem_of, strip_all, trim_trailing_separators, Backend, Datasource,
    Mssql, Mysql, PoolPolicy, PostgreSql, Sqlite,
};
use connector_core::error::{Error, FailureClass, PoolError, Violation};
use connector_core::exec_loader::{
    load, mssql, mssql_from, mysql, mysql_from, parse_flag, postgres, postgres_from, sqlite,
    FeatureFlags, SqlConnector,
};
use connector_core::urls::{lookup, ParsedUrl};

fn source(provider: &str, url: &str) -> Datasource {
    Datasource { name: "db".to_string(), active_provider: provider.to_string(), url: url.to_string() }
}

fn flags(on: bool) -> FeatureFlags {
    FeatureFlags { microsoft_sql_server: on }
}

#[test]
fn sqlserver_without_flag_is_unsupported_feature() {
    let r = load(&source("sqlserver", "jdbc:sqlserver://host;schema=custom"), &flags(false));
    assert_eq!(
        r,
        Err(Error::UnsupportedFeature {
            name: "Microsoft SQL Server (experimental feature, needs to be enabled)".to_string()
        })
    );
}

#[test]
fn sqlserver_without_flag_does_not_look_at_the_url() {
    let r = load(&source("sqlserver", "this is no connection string"), &flags(false));
    assert!(matches!(r, Err(Error::UnsupportedFeature { .. })));
}

#[test]
fn sqlserver_with_flag_reads_schema() {
    let (name, executor) =
        load(&source("sqlserver", "jdbc:sqlserver://host;schema=custom"), &flags(true)).unwrap();
    assert_eq!(name, "custom");
    assert!(!executor.force_transactions);
    assert_eq!(executor.connector.name(), "mssql");
}

#[test]
fn sqlserver_without_schema_is_dbo() {
    let (name, _) = load(&source("sqlserver", "jdbc:sqlserver://host"), &flags(true)).unwrap();
    assert_eq!(name, "dbo");
}

#[test]
fn sqlserver_url_without_jdbc_prefix() {
    let (name, _) =
        load(&source("sqlserver", "sqlserver://localhost:1433;schema=custom"), &flags(true)).unwrap();
    assert_eq!(name, "custom");
    let (name, _) = mssql(&source("sqlserver", "sqlserver://localhost:1433")).unwrap();
    assert_eq!(name, "dbo");
}

#[test]
fn sqlserver_last_schema_wins_and_keys_ignore_case() {
    let (name, _) =
        mssql(&source("sqlserver", "jdbc:sqlserver://host;schema=a;Schema=b")).unwrap();
    assert_eq!(name, "b");
}

#[test]
fn sqlserver_invalid_string() {
    let r = load(&source("sqlserver", "jdbc:sqlserver:/host"), &flags(true));
    match r {
        Err(Error::InvalidDatabaseUrl { details, url }) => {
            assert_eq!(url, "jdbc:sqlserver:/host");
            assert_eq!(details, "Conversion error: Invalid JDBC sub-protocol");
        }
        other => panic!("unexpected outcome: {:?}", other),
    }
}

#[test]
fn jdbc_string_adds_prefix_once() {
    assert_eq!(jdbc_string("sqlserver://h"), "jdbc:sqlserver://h");
    assert_eq!(jdbc_string("jdbc:sqlserver://h"), "jdbc:sqlserver://h");
    assert_eq!(jdbc_string(""), "jdbc:");
}

#[test]
fn mssql_from_each_answer() {
    let s = source("sqlserver", "sqlserver://h");
    assert_eq!(mssql_from(&s, Ok(Some("x".to_string()))).unwrap().0, "x");
    assert_eq!(mssql_from(&s, Ok(None)).unwrap().0, "dbo");
    assert_eq!(
        mssql_from(&s, Err("bad".to_string())),
        Err(Error::InvalidDatabaseUrl { details: "bad".to_string(), url: "sqlserver://h".to_string() })
    );
}

#[test]
fn postgres_schema_and_pgbouncer() {
    let (name, executor) =
        load(&source("postgresql", "postgres://h/db?schema=foo&pgbouncer=true"), &flags(false))
            .unwrap();
    assert_eq!(name, "foo");
    assert!(executor.force_transactions);
    assert_eq!(executor.connector.name(), "postgres");
}

#[test]
fn postgres_defaults() {
    let (name, executor) = load(&source("postgresql", "postgres://h/db"), &flags(false)).unwrap();
    assert_eq!(name, "public");
    assert!(!executor.force_transactions);
}

#[test]
fn postgres_pgbouncer_must_be_true() {
    for (url, expected) in [
        ("postgres://h/db?pgbouncer=false", false),
        ("postgres://h/db?pgbouncer=1", false),
        ("postgres://h/db?pgbouncer=TRUE", false),
        ("postgres://h/db?pgbouncer=", false),
        ("postgres://h/db?pgbouncer=true&pgbouncer=false", false),
        ("postgres://h/db?pgbouncer=false&pgbouncer=true", true),
    ] {
        let (_, executor) = postgres(&source("postgresql", url)).unwrap();
        assert_eq!(executor.force_transactions, expected, "{}", url);
    }
}

#[test]
fn postgres_query_is_decoded_and_last_schema_wins() {
    let (name, _) =
        postgres(&source("postgresql", "postgres://h/db?schema=a%20b&schema=c%2Fd")).unwrap();
    assert_eq!(name, "c/d");
}

#[test]
fn postgres_invalid_url() {
    let r = load(&source("postgresql", "no url at all"), &flags(false));
    assert_eq!(
        r,
        Err(Error::InvalidDatabaseUrl {
            details: "The specified database url Error parsing database connection string. is invalid"
                .to_string(),
            url: "no url at all".to_string()
        })
    );
}

#[test]
fn postgres_url_of_another_backend() {
    let r = load(&source("postgresql", "mysql://h/db"), &flags(false));
    assert_eq!(
        r,
        Err(Error::InvalidDatabaseUrl {
            details: "The specified database url mysql is not a supported database URL scheme. is invalid"
                .to_string(),
            url: "mysql://h/db".to_string()
        })
    );
    assert!(postgres(&source("postgresql", "postgresql://h/db")).is_ok());
}

#[test]
fn postgres_mistyped_connection_parameter() {
    let r = postgres(&source("postgresql", "postgres://h/db?connection_limit=many"));
    assert_eq!(
        r,
        Err(Error::InvalidDatabaseUrl {
            details: "The provided arguments are not supported".to_string(),
            url: "postgres://h/db?connection_limit=many".to_string()
        })
    );
}

#[test]
fn postgres_from_each_answer() {
    let s = source("postgresql", "postgres://h/db");
    let parts = ParsedUrl {
        query_pairs: vec![
            ("schema".to_string(), "one".to_string()),
            ("pgbouncer".to_string(), "true".to_string()),
            ("schema".to_string(), "two".to_string()),
        ],
        path_segments: None,
    };
    let (name, executor) = postgres_from(&s, None, Ok(parts)).unwrap();
    assert_eq!(name, "two");
    assert!(executor.force_transactions);
    assert_eq!(
        postgres_from(&s, None, Err("bad".to_string())),
        Err(Error::InvalidDatabaseUrl { details: "bad".to_string(), url: "postgres://h/db".to_string() })
    );
    let empty = ParsedUrl { query_pairs: vec![], path_segments: None };
    assert_eq!(
        postgres_from(&s, Some("refused".to_string()), Ok(empty)),
        Err(Error::InvalidDatabaseUrl {
            details: "refused".to_string(),
            url: "postgres://h/db".to_string()
        })
    );
    assert_eq!(
        postgres_from(&s, Some("refused".to_string()), Err("bad".to_string())),
        Err(Error::InvalidDatabaseUrl {
            details: "refused".to_string(),
            url: "postgres://h/db".to_string()
        })
    );
}

#[test]
fn mysql_database_is_first_segment() {
    let (name, executor) = load(&source("mysql", "mysql://h/mydb"), &flags(false)).unwrap();
    assert_eq!(name, "mydb");
    assert!(!executor.force_transactions);
    assert_eq!(executor.connector.name(), "mysql");
    let (name, _) = mysql(&source("mysql", "mysql://h/first/second?x=1")).unwrap();
    assert_eq!(name, "first");
}

#[test]
fn mysql_without_path_is_configuration_error() {
    let r = load(&source("mysql", "mysql://h"), &flags(false));
    assert_eq!(
        r,
        Err(Error::Configuration { message: "No database found in connection string".to_string() })
    );
}

#[test]
fn mysql_from_each_answer() {
    let s = source("mysql", "mysql://h/x");
    let none = ParsedUrl { query_pairs: vec![], path_segments: None };
    let empty = ParsedUrl { query_pairs: vec![], path_segments: Some(vec![]) };
    let two = ParsedUrl {
        query_pairs: vec![],
        path_segments: Some(vec!["a".to_string(), "b".to_string()]),
    };
    let missing =
        Err(Error::Configuration { message: "No database found in connection string".to_string() });
    assert_eq!(mysql_from(&s, Ok(none)), missing);
    assert_eq!(mysql_from(&s, Ok(empty)), missing);
    assert_eq!(mysql_from(&s, Ok(two)).unwrap().0, "a");
    assert_eq!(
        mysql_from(&s, Err("bad".to_string())),
        Err(Error::InvalidDatabaseUrl { details: "bad".to_string(), url: "mysql://h/x".to_string() })
    );
}

#[test]
fn sqlite_name_is_file_stem() {
    let (name, executor) = load(&source("sqlite", "file:./dev.db"), &flags(false)).unwrap();
    assert_eq!(name, "dev");
    assert!(!executor.force_transactions);
    assert_eq!(executor.connector.name(), "sqlite");
    let (name, _) = sqlite(&source("sqlite", "file:/tmp/data/app.v2.sqlite?connection_limit=1")).unwrap();
    assert_eq!(name, "app.v2");
    let (name, _) = sqlite(&source("sqlite", "sqlite:db")).unwrap();
    assert_eq!(name, "db");
}

#[test]
fn sqlite_without_file_is_logic_fatal() {
    let fatal = Err(Error::LogicFatal { violation: Violation::MissingFileStem });
    assert_eq!(load(&source("sqlite", "file:"), &flags(false)), fatal);
    assert_eq!(load(&source("sqlite", "file:/"), &flags(false)), fatal);
    assert_eq!(load(&source("sqlite", "file:/tmp/.."), &flags(false)), fatal);
    assert_eq!(load(&source("sqlite", "file:?x=1"), &flags(false)), fatal);
}

#[test]
fn file_path_of_cuts_prefix_and_query() {
    assert_eq!(file_path_of("file:dev.db"), "dev.db");
    assert_eq!(file_path_of("sqlite:dev.db?a=b?c"), "dev.db");
    assert_eq!(file_path_of("dev.db"), "dev.db");
    assert_eq!(file_path_of("file:file:dev.db"), "dev.db");
    assert_eq!(file_path_of("sqlite:sqlite:dev.db"), "dev.db");
    assert_eq!(file_path_of("file:sqlite:dev.db"), "sqlite:dev.db");
    assert_eq!(file_path_of("sqlite:file:dev.db"), "file:dev.db");
    assert_eq!(strip_all("ababc", "ab"), "c");
    assert_eq!(strip_all("abc", ""), "abc");
    assert_eq!(strip_all("aaa", "a"), "");
    assert_eq!(file_path_of(""), "");
}

#[test]
fn stem_of_follows_the_last_dot() {
    assert_eq!(stem_of("a/b/c.tar.gz"), Some("c.tar".to_string()));
    assert_eq!(stem_of("c"), Some("c".to_string()));
    assert_eq!(stem_of(".hidden"), Some(".hidden".to_string()));
    assert_eq!(stem_of("dir/.hidden.db"), Some(".hidden".to_string()));
    assert_eq!(stem_of("a."), Some("a".to_string()));
    assert_eq!(stem_of("..."), Some("..".to_string()));
    assert_eq!(stem_of(""), None);
    assert_eq!(stem_of("/"), None);
    assert_eq!(stem_of("."), None);
    assert_eq!(stem_of("./"), None);
    assert_eq!(stem_of("/."), None);
    assert_eq!(stem_of(".."), None);
    assert_eq!(stem_of("a/.."), None);
    assert_eq!(stem_of("a/../"), None);
    assert_eq!(stem_of("a/"), Some("a".to_string()));
    assert_eq!(stem_of("/data/"), Some("data".to_string()));
    assert_eq!(stem_of("a/b.db/."), Some("b".to_string()));
    assert_eq!(stem_of("a/b.db//./"), Some("b".to_string()));
    assert_eq!(stem_of("..a"), Some(".".to_string()));
    assert_eq!(trim_trailing_separators("a/b/./"), "a/b");
    assert_eq!(trim_trailing_separators("a/b."), "a/b.");
    assert_eq!(trim_trailing_separators("///"), "");
    assert_eq!(stem_of("päth/dätei.db"), Some("dätei".to_string()));
}

#[test]
fn unknown_provider_is_named() {
    let r = load(&source("mongodb", "mongodb://h/db"), &flags(true));
    assert_eq!(
        r,
        Err(Error::Configuration { message: "Unsupported connector type: mongodb".to_string() })
    );
    let r = load(&source("postgres", "postgres://h/db"), &flags(true));
    assert_eq!(
        r,
        Err(Error::Configuration { message: "Unsupported connector type: postgres".to_string() })
    );
}

#[test]
fn connectors_from_source() {
    let p = PostgreSql::from_source(&source("postgresql", "postgres://h/db")).unwrap();
    assert_eq!(p.name(), "postgres");
    assert_eq!(p.url(), "postgres://h/db");
    assert_eq!(
        p.pool(),
        PoolPolicy { max_idle_lifetime: 300, health_check_interval: 15, test_on_check_out: true }
    );
    assert_eq!(p.pool(), PoolPolicy::standard());
    assert!(matches!(
        PostgreSql::from_source(&source("postgresql", "::")),
        Err(Error::InvalidDatabaseUrl { .. })
    ));
    let m = Mysql::from_source(&source("mysql", "mysql://h/db")).unwrap();
    assert_eq!(m.name(), "mysql");
    assert_eq!(m.pool(), PoolPolicy::standard());
    assert!(matches!(
        Mysql::from_source(&source("mysql", "")),
        Err(Error::InvalidDatabaseUrl { .. })
    ));
    let s = Mssql::from_source(&source("sqlserver", "sqlserver://h:1433;database=x")).unwrap();
    assert_eq!(s.name(), "mssql");
    assert_eq!(s.url(), "sqlserver://h:1433;database=x");
    assert!(matches!(
        Mssql::from_source(&source("sqlserver", "sqlserver://h;novalue")),
        Err(Error::InvalidDatabaseUrl { .. })
    ));
    let l = Sqlite::from_source(&source("sqlite", "file:a/b.db?x=1")).unwrap();
    assert_eq!(l.name(), "sqlite");
    assert_eq!(l.file_path(), "a/b.db");
    assert_eq!(l.pool(), PoolPolicy::standard());
}

#[test]
fn connector_new_with_complaint() {
    assert_eq!(
        PostgreSql::new("u", Some("d".to_string())),
        Err(Error::InvalidDatabaseUrl { details: "d".to_string(), url: "u".to_string() })
    );
    assert_eq!(PostgreSql::new("u", None).unwrap().url(), "u");
}

#[test]
fn backend_names() {
    assert_eq!(Backend::Sqlite.name(), "sqlite");
    assert_eq!(Backend::Mysql.name(), "mysql");
    assert_eq!(Backend::PostgreSql.name(), "postgres");
    assert_eq!(Backend::Mssql.name(), "mssql");
    let c = SqlConnector::Mysql(Mysql::new("mysql://h/d", None).unwrap());
    assert_eq!(c.name(), "mysql");
}

#[test]
fn lookup_takes_the_last_pair() {
    let pairs = vec![
        ("a".to_string(), "1".to_string()),
        ("b".to_string(), "2".to_string()),
        ("a".to_string(), "3".to_string()),
    ];
    assert_eq!(lookup(&pairs, "a"), Some("3".to_string()));
    assert_eq!(lookup(&pairs, "b"), Some("2".to_string()));
    assert_eq!(lookup(&pairs, "c"), None);
    assert_eq!(lookup(&vec![], "a"), None);
}

#[test]
fn parse_flag_knows_two_words() {
    assert_eq!(parse_flag("true"), Some(true));
    assert_eq!(parse_flag("false"), Some(false));
    assert_eq!(parse_flag("True"), None);
    assert_eq!(parse_flag(""), None);
}

#[test]
fn transient_errors() {
    assert!(Error::PoolTimeout.transient());
    assert!(Error::ConnectionFailed.transient());
    assert!(!Error::Configuration { message: String::new() }.transient());
    assert!(!Error::UnsupportedFeature { name: String::new() }.transient());
    assert!(!Error::LogicFatal { violation: Violation::UnsupportedType }.transient());
}

#[test]
fn backend_failures_become_canonical_errors() {
    let text = || "reset".to_string();
    assert_eq!(Error::from_backend(FailureClass::Unreachable, text(), "u"), Error::ConnectionFailed);
    assert_eq!(Error::from_backend(FailureClass::TimedOut, text(), "u"), Error::PoolTimeout);
    assert_eq!(
        Error::from_backend(FailureClass::Transport, text(), "u"),
        Error::QueryFailed { cause: "reset".to_string() }
    );
    assert_eq!(
        Error::from_backend(FailureClass::UrlRefused, text(), "u"),
        Error::InvalidDatabaseUrl { details: "reset".to_string(), url: "u".to_string() }
    );
    assert!(Error::from_backend(FailureClass::TimedOut, text(), "u").transient());
    assert!(!Error::from_backend(FailureClass::Transport, text(), "u").transient());
}

#[test]
fn pool_errors_by_class() {
    let s = || "x".to_string();
    let cases = vec![
        (PoolError::DatabaseUrlIsInvalid(s()), FailureClass::UrlRefused),
        (PoolError::InvalidConnectionArguments, FailureClass::UrlRefused),
        (PoolError::ConnectionError(s()), FailureClass::Unreachable),
        (PoolError::IoError(s()), FailureClass::Unreachable),
        (PoolError::TlsError { message: s() }, FailureClass::Unreachable),
        (PoolError::AuthenticationFailed { user: s() }, FailureClass::Unreachable),
        (PoolError::DatabaseDoesNotExist { db_name: s() }, FailureClass::Unreachable),
        (PoolError::DatabaseAccessDenied { db_name: s() }, FailureClass::Unreachable),
        (PoolError::ConnectTimeout, FailureClass::TimedOut),
        (PoolError::Timeout, FailureClass::TimedOut),
        (PoolError::QueryError(s()), FailureClass::Transport),
        (PoolError::DatabaseAlreadyExists { db_name: s() }, FailureClass::Transport),
        (PoolError::NotFound, FailureClass::Transport),
        (PoolError::UniqueConstraintViolation { field_name: s() }, FailureClass::Transport),
        (PoolError::NullConstraintViolation { field_name: s() }, FailureClass::Transport),
        (PoolError::ColumnReadFailure(s()), FailureClass::Transport),
        (PoolError::ResultIndexOutOfBounds(3), FailureClass::Transport),
        (PoolError::ColumnNotFound(s()), FailureClass::Transport),
        (PoolError::ResultTypeMismatch(s()), FailureClass::Transport),
        (PoolError::ConversionError(s()), FailureClass::Transport),
    ];
    for (error, class) in cases {
        assert_eq!(error.class(), class, "{:?}", error);
        assert_eq!(
            Error::from_pool(&error, "said".to_string(), "u"),
            Error::from_backend(class, "said".to_string(), "u")
        );
    }
    assert_eq!(
        Error::from_pool(&PoolError::Timeout, "Operation timed out".to_string(), "u"),
        Error::PoolTimeout
    );
    assert_eq!(
        Error::from_pool(&PoolError::InvalidConnectionArguments, "no".to_string(), "u"),
        Error::InvalidDatabaseUrl { details: "no".to_string(), url: "u".to_string() }
    );
}

#[test]
fn errors_are_cloned_as_they_are() {
    for e in [
        Error::InvalidDatabaseUrl { details: "d".to_string(), url: "u".to_string() },
        Error::Configuration { message: "m".to_string() },
        Error::UnsupportedFeature { name: "n".to_string() },
        Error::ConnectionFailed,
        Error::PoolTimeout,
        Error::QueryFailed { cause: "c".to_string() },
        Error::LogicFatal { violation: Violation::MissingRelationTable },
    ] {
        assert_eq!(e.clone(), e);
    }
}

#[test]
fn stem_of_agrees_with_the_standard_library() {
    for path in [
        "dev.db", "./dev.db", "/tmp/data/app.v2.sqlite", "a/", "/data/", "a/.", "a/./", "a//",
        ".", "..", "./", "/", "", "a/..", "a/../", ".hidden", "dir/.hidden.db", "a.", "...",
        "..a", "a/b/./.", "x.tar.gz", "/.", "//", "a/.b/", "a/b../", ".a.b",
    ] {
        let expected = std::path::Path::new(path)
            .file_stem()
            .map(|s| s.to_str().unwrap().to_string());
        assert_eq!(stem_of(path), expected, "{:?}", path);
    }
}

#[test]
fn sqlite_connector_keeps_the_file_path() {
    let (name, executor) =
        load(&source("sqlite", "file:file:/tmp/db/dev.db/?x=1"), &flags(false)).unwrap();
    assert_eq!(name, "dev");
    match executor.connector {
        SqlConnector::Sqlite(c) => assert_eq!(c.file_path(), "/tmp/db/dev.db/"),
        other => panic!("unexpected connector: {:?}", other),
    }
}
