//! Choosing the backend for a datasource and binding an executor to it.

use vstd::prelude::*;
use crate::connector::{
    connector_for, file_stem, jdbc_string, jdbc_text, sqlite_file_path, stem_of, Backend,
    ConnectorView, Datasource, Mssql, Mysql, PoolPolicy, PostgreSql, Sqlite,
};
use crate::error::{Error, ErrorView, Violation};
use crate::text::str_eq;
use crate::urls::{
    connection_complaint, connection_info_complaint, jdbc_lookup, jdbc_property, last_value,
    lookup, lookup_outcome, parse_outcome, parse_url, text_view, url_parse, ParsedUrl,
    ParsedUrlView,
};

verus! {

/// The experimental features that are switched on, as the caller found them.
#[derive(Clone, Copy, Debug, PartialEq, Eq, Structural)]
pub struct FeatureFlags {
    pub microsoft_sql_server: bool,
}

/// The connector of one of the four backends.
#[derive(Debug, PartialEq, Eq)]
pub enum SqlConnector {
    Sqlite(Sqlite),
    Mysql(Mysql),
    PostgreSql(PostgreSql),
    Mssql(Mssql),
}

impl View for SqlConnector {
    type V = ConnectorView;

    open spec fn view(&self) -> ConnectorView {
        match self {
            SqlConnector::Sqlite(c) => c@,
            SqlConnector::Mysql(c) => c@,
            SqlConnector::PostgreSql(c) => c@,
            SqlConnector::Mssql(c) => c@,
        }
    }
}

impl SqlConnector {
    /// The name under which the connector reports itself.
    pub fn name(&self) -> (r: String)
        ensures
            r@ == self@.backend.name_spec(),
    {
        match self {
            SqlConnector::Sqlite(c) => c.name(),
            SqlConnector::Mysql(c) => c.name(),
            SqlConnector::PostgreSql(c) => c.name(),
            SqlConnector::Mssql(c) => c.name(),
        }
    }
}

/// What is handed to the engine that runs queries: the connector, and
/// whether even a single statement must run inside a transaction.
#[derive(Debug, PartialEq, Eq)]
pub struct Executor {
    pub connector: SqlConnector,
    pub force_transactions: bool,
}

/// The mathematical content of an [`Executor`].
pub struct ExecutorView {
    pub connector: ConnectorView,
    pub force_transactions: bool,
}

impl View for Executor {
    type V = ExecutorView;

    open spec fn view(&self) -> ExecutorView {
        ExecutorView { connector: self.connector@, force_transactions: self.force_transactions }
    }
}

/// Binds an executor to `connector`.
pub fn sql_executor(connector: SqlConnector, force_transactions: bool) -> (r: Executor)
    ensures
        r.connector == connector,
        r.force_transactions == force_transactions,
{
    Executor { connector, force_transactions }
}

/// The outcome of a load: the logical name of the database and the executor.
pub type Loaded = Result<(String, Executor), Error>;

/// The mathematical content of a [`Loaded`].
pub type LoadedView = Result<(Seq<char>, ExecutorView), ErrorView>;

/// The contents of the outcome of a load.
pub open spec fn loaded_view(r: Loaded) -> LoadedView {
    match r {
        Ok((name, executor)) => Ok((name@, executor@)),
        Err(e) => Err(e@),
    }
}

/// The executor for `backend` and `url` with the standard pool policy.
pub open spec fn executor_for(backend: Backend, url: Seq<char>, force_transactions: bool) -> ExecutorView {
    ExecutorView { connector: connector_for(backend, url), force_transactions }
}

/// The schema that a PostgreSQL URL selects: the value of `schema` in its
/// query, `public` where there is none.
pub open spec fn postgres_schema(pairs: Seq<(Seq<char>, Seq<char>)>) -> Seq<char> {
    match last_value(pairs, "schema"@) {
        Some(schema) => schema,
        None => "public"@,
    }
}

/// Whether a PostgreSQL URL announces a connection pooler in front of the
/// server, behind which prepared statements cannot be cached: `pgbouncer` is
/// `true` in its query.
pub open spec fn postgres_pgbouncer(pairs: Seq<(Seq<char>, Seq<char>)>) -> bool {
    last_value(pairs, "pgbouncer"@) == Some("true"@)
}

/// What loading a PostgreSQL datasource comes to, given the pool's complaint
/// about the URL, if it has one, and the URL parser's answer.
pub open spec fn postgres_outcome(
    url: Seq<char>,
    complaint: Option<Seq<char>>,
    parsed: Result<ParsedUrlView, Seq<char>>,
) -> LoadedView {
    match (complaint, parsed) {
        (Some(details), _) => Err(ErrorView::InvalidDatabaseUrl { details, url }),
        (None, Err(details)) => Err(ErrorView::InvalidDatabaseUrl { details, url }),
        (None, Ok(parts)) => Ok(
            (
                postgres_schema(parts.query_pairs),
                executor_for(Backend::PostgreSql, url, postgres_pgbouncer(parts.query_pairs)),
            ),
        ),
    }
}

/// What loading a MySQL datasource comes to, given the URL parser's answer:
/// the database is the first segment of the path.
pub open spec fn mysql_outcome(url: Seq<char>, parsed: Result<ParsedUrlView, Seq<char>>) -> LoadedView {
    match parsed {
        Err(details) => Err(ErrorView::InvalidDatabaseUrl { details, url }),
        Ok(parts) => match parts.path_segments {
            Some(segments) if segments.len() > 0 => Ok(
                (segments[0], executor_for(Backend::Mysql, url, false)),
            ),
            _ => Err(
                ErrorView::Configuration { message: "No database found in connection string"@ },
            ),
        },
    }
}

/// What loading a SQL Server datasource comes to, given what the JDBC parser
/// holds under `schema`: that schema, `dbo` where there is none.
pub open spec fn mssql_outcome(url: Seq<char>, schema: Result<Option<Seq<char>>, Seq<char>>) -> LoadedView {
    match schema {
        Err(details) => Err(ErrorView::InvalidDatabaseUrl { details, url }),
        Ok(Some(schema)) => Ok((schema, executor_for(Backend::Mssql, url, false))),
        Ok(None) => Ok(("dbo"@, executor_for(Backend::Mssql, url, false))),
    }
}

/// What loading a SQLite datasource comes to: the database is named after
/// the stem of its file.
pub open spec fn sqlite_outcome(url: Seq<char>) -> LoadedView {
    match file_stem(sqlite_file_path(url)) {
        Some(stem) => Ok((stem, executor_for(Backend::Sqlite, url, false))),
        None => Err(ErrorView::LogicFatal { violation: Violation::MissingFileStem }),
    }
}

/// Loads a SQLite datasource.
pub fn sqlite(source: &Datasource) -> (r: Loaded)
    ensures
        loaded_view(r) == sqlite_outcome(source.url@),
{
    let sqlite = match Sqlite::from_source(source) {
        Ok(c) => c,
        Err(e) => { return Err(e); },
    };
    match stem_of(sqlite.file_path()) {
        Some(db_name) => Ok((db_name, sql_executor(SqlConnector::Sqlite(sqlite), false))),
        None => Err(Error::LogicFatal { violation: Violation::MissingFileStem }),
    }
}

/// Reads a flag as `true` or `false`; anything else is no flag.
pub fn parse_flag(text: &str) -> (r: Option<bool>)
    ensures
        r == if text@ == "true"@ {
            Some(true)
        } else if text@ == "false"@ {
            Some(false)
        } else {
            None::<bool>
        },
{
    if str_eq(text, "true") {
        Some(true)
    } else if str_eq(text, "false") {
        Some(false)
    } else {
        None
    }
}

/// Loads a PostgreSQL datasource from the pool's complaint about the URL, if
/// it has one, and the URL parser's answer.
pub fn postgres_from(
    source: &Datasource,
    complaint: Option<String>,
    parsed: Result<ParsedUrl, String>,
) -> (r: Loaded)
    ensures
        loaded_view(r) == postgres_outcome(
            source.url@,
            text_view(complaint),
            parse_outcome(parsed),
        ),
{
    let psql = match PostgreSql::new(source.url.as_str(), complaint) {
        Ok(c) => c,
        Err(e) => { return Err(e); },
    };
    let parts = match parsed {
        Ok(parts) => parts,
        Err(details) => {
            return Err(Error::InvalidDatabaseUrl { details, url: source.url.clone() });
        },
    };
    let db_name = match lookup(&parts.query_pairs, "schema") {
        Some(schema) => schema,
        None => "public".to_owned(),
    };
    let force_transactions = match lookup(&parts.query_pairs, "pgbouncer") {
        Some(flag) => match parse_flag(flag.as_str()) {
            Some(b) => b,
            None => false,
        },
        None => false,
    };
    proof {
        reveal_strlit("true");
        reveal_strlit("false");
        assert("true"@ != "false"@) by {
            assert("false"@.len() == 5);
        }
    }
    Ok((db_name, sql_executor(SqlConnector::PostgreSql(psql), force_transactions)))
}

/// Loads a PostgreSQL datasource.
pub fn postgres(source: &Datasource) -> (r: Loaded)
    ensures
        loaded_view(r) == postgres_outcome(
            source.url@,
            connection_info_complaint(source.url@),
            url_parse(source.url@),
        ),
{
    let complaint = connection_complaint(source.url.as_str());
    let parsed = parse_url(source.url.as_str());
    postgres_from(source, complaint, parsed)
}

/// Loads a MySQL datasource from the URL parser's answer.
pub fn mysql_from(source: &Datasource, parsed: Result<ParsedUrl, String>) -> (r: Loaded)
    ensures
        loaded_view(r) == mysql_outcome(source.url@, parse_outcome(parsed)),
{
    let parts = match parsed {
        Ok(parts) => parts,
        Err(details) => {
            return Err(Error::InvalidDatabaseUrl { details, url: source.url.clone() });
        },
    };
    let mysql = match Mysql::new(source.url.as_str(), None) {
        Ok(c) => c,
        Err(e) => { return Err(e); },
    };
    match &parts.path_segments {
        Some(segments) => {
            if segments.len() > 0 {
                let db_name = segments[0].clone();
                Ok((db_name, sql_executor(SqlConnector::Mysql(mysql), false)))
            } else {
                Err(
                    Error::Configuration {
                        message: "No database found in connection string".to_owned(),
                    },
                )
            }
        },
        None => Err(
            Error::Configuration { message: "No database found in connection string".to_owned() },
        ),
    }
}

/// Loads a MySQL datasource.
pub fn mysql(source: &Datasource) -> (r: Loaded)
    ensures
        loaded_view(r) == mysql_outcome(source.url@, url_parse(source.url@)),
{
    let parsed = parse_url(source.url.as_str());
    mysql_from(source, parsed)
}

/// Loads a SQL Server datasource from what the JDBC parser holds under
/// `schema`.
pub fn mssql_from(source: &Datasource, schema: Result<Option<String>, String>) -> (r: Loaded)
    ensures
        loaded_view(r) == mssql_outcome(source.url@, lookup_outcome(schema)),
{
    let found = match schema {
        Ok(found) => found,
        Err(details) => {
            return Err(Error::InvalidDatabaseUrl { details, url: source.url.clone() });
        },
    };
    let mssql = match Mssql::new(source.url.as_str(), None) {
        Ok(c) => c,
        Err(e) => { return Err(e); },
    };
    let db_name = match found {
        Some(schema) => schema,
        None => "dbo".to_owned(),
    };
    Ok((db_name, sql_executor(SqlConnector::Mssql(mssql), false)))
}

/// Loads a SQL Server datasource.
pub fn mssql(source: &Datasource) -> (r: Loaded)
    ensures
        loaded_view(r) == mssql_outcome(
            source.url@,
            jdbc_property(jdbc_text(source.url@), "schema"@),
        ),
{
    let text = jdbc_string(source.url.as_str());
    let schema = jdbc_lookup(text.as_str(), "schema");
    mssql_from(source, schema)
}

/// The name under which the SQL Server backend is refused while its flag is
/// not set.
pub open spec fn mssql_feature() -> Seq<char> {
    "Microsoft SQL Server (experimental feature, needs to be enabled)"@
}

/// What loading a datasource comes to. The provider alone selects the
/// backend. SQL Server is refused before its connection string is looked at
/// unless its flag is set; an unknown provider is a configuration error that
/// names it.
pub open spec fn load_outcome(source: Datasource, flags: FeatureFlags) -> LoadedView {
    let provider = source.active_provider@;
    let url = source.url@;
    if provider == "sqlite"@ {
        sqlite_outcome(url)
    } else if provider == "mysql"@ {
        mysql_outcome(url, url_parse(url))
    } else if provider == "postgresql"@ {
        postgres_outcome(url, connection_info_complaint(url), url_parse(url))
    } else if provider == "sqlserver"@ {
        if flags.microsoft_sql_server {
            mssql_outcome(url, jdbc_property(jdbc_text(url), "schema"@))
        } else {
            Err(ErrorView::UnsupportedFeature { name: mssql_feature() })
        }
    } else {
        Err(ErrorView::Configuration { message: "Unsupported connector type: "@ + provider })
    }
}

/// Selects the backend that the datasource names and binds an executor to it.
pub fn load(source: &Datasource, flags: &FeatureFlags) -> (r: Loaded)
    ensures
        loaded_view(r) == load_outcome(*source, *flags),
{
    let provider = source.active_provider.as_str();
    if str_eq(provider, "sqlite") {
        sqlite(source)
    } else if str_eq(provider, "mysql") {
        mysql(source)
    } else if str_eq(provider, "postgresql") {
        postgres(source)
    } else if str_eq(provider, "sqlserver") {
        if !flags.microsoft_sql_server {
            return Err(
                Error::UnsupportedFeature {
                    name: "Microsoft SQL Server (experimental feature, needs to be enabled)".to_owned(),
                },
            );
        }
        mssql(source)
    } else {
        Err(
            Error::Configuration {
                message: "Unsupported connector type: ".to_owned().concat(provider),
            },
        )
    }
}

/// The four provider names are pairwise different.
proof fn lemma_providers_differ()
    ensures
        "sqlite"@ != "mysql"@,
        "sqlite"@ != "postgresql"@,
        "sqlite"@ != "sqlserver"@,
        "mysql"@ != "postgresql"@,
        "mysql"@ != "sqlserver"@,
        "postgresql"@ != "sqlserver"@,
{
    reveal_strlit("sqlite");
    reveal_strlit("mysql");
    reveal_strlit("postgresql");
    reveal_strlit("sqlserver");
    assert("mysql"@.len() == 5);
    assert("postgresql"@.len() == 10);
    assert("sqlserver"@.len() == 9);
}

/// While its flag is not set, SQL Server is refused whatever the connection
/// string holds.
pub proof fn lemma_sqlserver_is_gated(source: Datasource, flags: FeatureFlags)
    requires
        source.active_provider@ == "sqlserver"@,
    ensures
        !flags.microsoft_sql_server ==> load_outcome(source, flags) == Err::<
            (Seq<char>, ExecutorView),
            ErrorView,
        >(ErrorView::UnsupportedFeature { name: mssql_feature() }),
        flags.microsoft_sql_server ==> load_outcome(source, flags) == mssql_outcome(
            source.url@,
            jdbc_property(jdbc_text(source.url@), "schema"@),
        ),
{
    lemma_providers_differ();
}

/// A provider other than the four known ones is a configuration error that
/// names it, whatever the flags and the connection string hold.
pub proof fn lemma_unknown_provider(source: Datasource, flags: FeatureFlags)
    requires
        source.active_provider@ != "sqlite"@,
        source.active_provider@ != "mysql"@,
        source.active_provider@ != "postgresql"@,
        source.active_provider@ != "sqlserver"@,
    ensures
        load_outcome(source, flags) == Err::<(Seq<char>, ExecutorView), ErrorView>(
            ErrorView::Configuration {
                message: "Unsupported connector type: "@ + source.active_provider@,
            },
        ),
{
}

/// Transactions are forced only for PostgreSQL, and only where the last
/// `pgbouncer` of the query is `true`. Every executor is bound to the backend
/// that the provider names, for the connection string of the datasource,
/// with the standard pool policy; the SQLite connector, and no other, knows
/// the path of its file.
pub proof fn lemma_loaded_executor(source: Datasource, flags: FeatureFlags)
    ensures
        load_outcome(source, flags) matches Ok((_, executor)) ==> {
            &&& executor.connector.url == source.url@
            &&& executor.connector.pool == PoolPolicy::standard_spec()
            &&& executor.connector.file_path == if source.active_provider@ == "sqlite"@ {
                Some(sqlite_file_path(source.url@))
            } else {
                None
            }
            &&& (source.active_provider@ == "sqlite"@ <==> executor.connector.backend
                == Backend::Sqlite)
            &&& (source.active_provider@ == "mysql"@ <==> executor.connector.backend
                == Backend::Mysql)
            &&& (source.active_provider@ == "postgresql"@ <==> executor.connector.backend
                == Backend::PostgreSql)
            &&& (source.active_provider@ == "sqlserver"@ <==> executor.connector.backend
                == Backend::Mssql)
            &&& (executor.force_transactions <==> source.active_provider@ == "postgresql"@
                && postgres_pgbouncer(url_parse(source.url@)->Ok_0.query_pairs))
            &&& (source.active_provider@ == "postgresql"@ ==> connection_info_complaint(
                source.url@,
            ) is None)
        },
        load_outcome(source, flags) matches Err(e) ==> !(e is ConnectionFailed) && !(e
            is PoolTimeout) && !(e is QueryFailed),
{
    lemma_providers_differ();
}

} // verus!
