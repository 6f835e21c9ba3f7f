//! The four backends behind one description of a connector.

use vstd::prelude::*;
use crate::error::{Error, ErrorView};
use crate::text::{
    after_last, find_after_last, find_first, first_index_of, lemma_after_last,
    lemma_first_index_of, slice, starts_with,
};
use crate::urls::{
    connection_complaint, connection_info_complaint, jdbc_lookup, jdbc_property, parse_url,
    text_view, url_parse,
};

verus! {

/// A datasource as the schema declares it.
#[derive(Debug, PartialEq, Eq)]
pub struct Datasource {
    pub name: String,
    /// One of `sqlite`, `mysql`, `postgresql` and `sqlserver`.
    pub active_provider: String,
    /// The connection string.
    pub url: String,
}

/// The backends that a connector can speak to.
#[derive(Clone, Copy, Debug, PartialEq, Eq, Structural)]
pub enum Backend {
    Sqlite,
    Mysql,
    PostgreSql,
    Mssql,
}

impl Backend {
    /// The name under which a connector of this backend reports itself.
    pub open spec fn name_spec(self) -> Seq<char> {
        match self {
            Backend::Sqlite => "sqlite"@,
            Backend::Mysql => "mysql"@,
            Backend::PostgreSql => "postgres"@,
            Backend::Mssql => "mssql"@,
        }
    }

    pub fn name(&self) -> (r: String)
        ensures
            r@ == self.name_spec(),
    {
        match self {
            Backend::Sqlite => "sqlite".to_owned(),
            Backend::Mysql => "mysql".to_owned(),
            Backend::PostgreSql => "postgres".to_owned(),
            Backend::Mssql => "mssql".to_owned(),
        }
    }
}

/// How a pool treats its connections.
#[derive(Clone, Copy, Debug, PartialEq, Eq, Structural)]
pub struct PoolPolicy {
    /// Seconds after which an idle connection is closed.
    pub max_idle_lifetime: u64,
    /// Seconds between two health checks of the idle connections.
    pub health_check_interval: u64,
    /// Whether a connection is tested before it is handed out.
    pub test_on_check_out: bool,
}

impl PoolPolicy {
    /// The policy of every connector: idle connections live for five minutes,
    /// are checked every fifteen seconds, and every connection is tested on
    /// checkout, so that a worker survives a reset of a proxy in between.
    pub open spec fn standard_spec() -> PoolPolicy {
        PoolPolicy { max_idle_lifetime: 300, health_check_interval: 15, test_on_check_out: true }
    }

    #[verifier::when_used_as_spec(standard_spec)]
    pub fn standard() -> (r: PoolPolicy)
        ensures
            r == PoolPolicy::standard_spec(),
    {
        PoolPolicy { max_idle_lifetime: 300, health_check_interval: 15, test_on_check_out: true }
    }
}

/// The mathematical content of a connector.
pub struct ConnectorView {
    pub backend: Backend,
    pub url: Seq<char>,
    pub pool: PoolPolicy,
    /// The path of the database file; only a SQLite connector has one.
    pub file_path: Option<Seq<char>>,
}

/// The connector of `backend` for `url`, with the standard pool policy and,
/// for SQLite, the path of the file that `url` names.
pub open spec fn connector_for(backend: Backend, url: Seq<char>) -> ConnectorView {
    ConnectorView {
        backend,
        url,
        pool: PoolPolicy::standard_spec(),
        file_path: if backend == Backend::Sqlite {
            Some(sqlite_file_path(url))
        } else {
            None
        },
    }
}

/// What comes of making a connector for `url` once the parser has answered
/// with or without a complaint.
pub open spec fn connector_outcome(
    backend: Backend,
    url: Seq<char>,
    complaint: Option<Seq<char>>,
) -> Result<ConnectorView, ErrorView> {
    match complaint {
        Some(details) => Err(ErrorView::InvalidDatabaseUrl { details, url }),
        None => Ok(connector_for(backend, url)),
    }
}

/// The complaint in a parser's answer, if it is one.
pub open spec fn complaint_of<T>(answer: Result<T, Seq<char>>) -> Option<Seq<char>> {
    match answer {
        Ok(_) => None,
        Err(details) => Some(details),
    }
}

/// The connection string that the JDBC parser is given for `url`: `url`
/// itself where it starts with `jdbc:`, and `url` behind `jdbc:` otherwise.
pub open spec fn jdbc_text(url: Seq<char>) -> Seq<char> {
    if "jdbc:"@.is_prefix_of(url) {
        url
    } else {
        "jdbc:"@ + url
    }
}

/// Makes the connection string that the JDBC parser is given for `url`.
pub fn jdbc_string(url: &str) -> (r: String)
    ensures
        r@ == jdbc_text(url@),
{
    if starts_with(url, "jdbc:") {
        url.to_owned()
    } else {
        "jdbc:".to_owned().concat(url)
    }
}

/// `s` without every `prefix` in front of it.
pub open spec fn without_leading(prefix: Seq<char>, s: Seq<char>) -> Seq<char>
    decreases s.len(),
{
    if prefix.len() > 0 && prefix.is_prefix_of(s) {
        without_leading(prefix, s.skip(prefix.len() as int))
    } else {
        s
    }
}

/// The part of a SQLite connection string that names the database file: what
/// stands before the first `?`, once every leading `file:` has been taken
/// off a string that starts with one, and every leading `sqlite:` off any
/// other string.
pub open spec fn sqlite_file_path(url: Seq<char>) -> Seq<char> {
    let rest = if "file:"@.is_prefix_of(url) {
        without_leading("file:"@, url)
    } else {
        without_leading("sqlite:"@, url)
    };
    rest.take(first_index_of(rest, '?'))
}

/// `path` without the separators, and the segments `.`, that end it.
pub open spec fn without_trailing_separators(path: Seq<char>) -> Seq<char>
    decreases path.len(),
{
    if path.len() >= 1 && path.last() == '/' {
        without_trailing_separators(path.drop_last())
    } else if path.len() >= 2 && path.last() == '.' && path[path.len() - 2] == '/' {
        without_trailing_separators(path.take(path.len() - 2))
    } else {
        path
    }
}

/// The last segment of `path`, where segments are separated by `/` and
/// separators and segments `.` at the end of `path` do not count.
pub open spec fn file_name(path: Seq<char>) -> Seq<char> {
    let trimmed = without_trailing_separators(path);
    trimmed.skip(after_last(trimmed, '/'))
}

/// The stem of the file that `path` names: its file name without the
/// extension. A name without a dot, or with its only dot in front, is its
/// own stem. A path whose last segment is empty, `.` or `..` names no file.
pub open spec fn file_stem(path: Seq<char>) -> Option<Seq<char>> {
    let name = file_name(path);
    let dot = after_last(name, '.');
    if name.len() == 0 || name == seq!['.'] || name == seq!['.', '.'] {
        None
    } else if dot <= 1 {
        Some(name)
    } else {
        Some(name.take(dot - 1))
    }
}

/// Takes every `prefix` off the front of `s`.
pub fn strip_all(s: &str, prefix: &str) -> (r: String)
    ensures
        r@ == without_leading(prefix@, s@),
{
    let n = s.unicode_len();
    let m = prefix.unicode_len();
    let mut rest = s.to_owned();
    let mut left: usize = n;
    while m > 0 && starts_with(rest.as_str(), prefix)
        invariant
            m == prefix@.len(),
            left == rest@.len(),
            without_leading(prefix@, s@) == without_leading(prefix@, rest@),
        decreases left,
    {
        let next = slice(rest.as_str(), m, left);
        assert(next@ =~= rest@.skip(m as int));
        rest = next;
        left = left - m;
    }
    rest
}

/// Cuts the path of the database file out of a SQLite connection string.
/// The pool's own reading of such a string also asks the disk whether the
/// path is a directory, which is why the path is cut out here.
pub fn file_path_of(url: &str) -> (r: String)
    ensures
        r@ == sqlite_file_path(url@),
{
    let rest = if starts_with(url, "file:") {
        strip_all(url, "file:")
    } else {
        strip_all(url, "sqlite:")
    };
    let end = find_first(rest.as_str(), '?');
    proof {
        lemma_first_index_of(rest@, '?');
    }
    slice(rest.as_str(), 0, end)
}

/// Takes the separators, and the segments `.`, off the end of `path`.
pub fn trim_trailing_separators(path: &str) -> (r: String)
    ensures
        r@ == without_trailing_separators(path@),
{
    let mut end: usize = path.unicode_len();
    assert(path@.take(end as int) =~= path@);
    loop
        invariant
            end <= path@.len(),
            without_trailing_separators(path@) == without_trailing_separators(
                path@.take(end as int),
            ),
        ensures
            end <= path@.len(),
            without_trailing_separators(path@) == path@.take(end as int),
        decreases end,
    {
        let ghost s = path@.take(end as int);
        if end >= 1 && path.get_char(end - 1) == '/' {
            assert(s.last() == '/');
            assert(s.drop_last() =~= path@.take(end - 1));
            end = end - 1;
        } else if end >= 2 && path.get_char(end - 1) == '.' && path.get_char(end - 2) == '/' {
            assert(s.last() == '.');
            assert(s[s.len() - 2] == '/');
            assert(s.take(s.len() - 2) =~= path@.take(end - 2));
            end = end - 2;
        } else {
            if end >= 1 {
                assert(s.last() == path@[end - 1]);
            }
            if end >= 2 {
                assert(s[s.len() - 2] == path@[end - 2]);
            }
            break;
        }
    }
    slice(path, 0, end)
}

/// Finds the stem of the file that `path` names.
pub fn stem_of(path: &str) -> (r: Option<String>)
    ensures
        match r {
            Some(stem) => file_stem(path@) == Some(stem@),
            None => file_stem(path@) is None,
        },
{
    let trimmed = trim_trailing_separators(path);
    let n = trimmed.as_str().unicode_len();
    let from = find_after_last(trimmed.as_str(), '/');
    proof {
        lemma_after_last(trimmed@, '/');
    }
    let name = slice(trimmed.as_str(), from, n);
    assert(name@ =~= file_name(path@));
    let len = name.as_str().unicode_len();
    if len == 0 {
        return None;
    }
    if len == 1 && name.as_str().get_char(0) == '.' {
        assert(name@ =~= seq!['.']);
        return None;
    }
    if len == 2 && name.as_str().get_char(0) == '.' && name.as_str().get_char(1) == '.' {
        assert(name@ =~= seq!['.', '.']);
        return None;
    }
    let dot = find_after_last(name.as_str(), '.');
    proof {
        lemma_after_last(name@, '.');
    }
    if dot <= 1 {
        Some(name)
    } else {
        Some(slice(name.as_str(), 0, dot - 1))
    }
}

/// A connector to a PostgreSQL server.
#[derive(Debug, PartialEq, Eq)]
pub struct PostgreSql {
    url: String,
    pool: PoolPolicy,
}

/// A connector to a MySQL server.
#[derive(Debug, PartialEq, Eq)]
pub struct Mysql {
    url: String,
    pool: PoolPolicy,
}

/// A connector to a SQL Server instance.
#[derive(Debug, PartialEq, Eq)]
pub struct Mssql {
    url: String,
    pool: PoolPolicy,
}

/// A connector to a SQLite database file.
#[derive(Debug, PartialEq, Eq)]
pub struct Sqlite {
    url: String,
    file_path: String,
    pool: PoolPolicy,
}

/// The contents of a connector or of the failure to make one.
pub open spec fn made<C: View<V = ConnectorView>>(r: Result<C, Error>) -> Result<
    ConnectorView,
    ErrorView,
> {
    match r {
        Ok(c) => Ok(c@),
        Err(e) => Err(e@),
    }
}

impl View for PostgreSql {
    type V = ConnectorView;

    closed spec fn view(&self) -> ConnectorView {
        ConnectorView { backend: Backend::PostgreSql, url: self.url@, pool: self.pool, file_path: None }
    }
}

impl PostgreSql {
    /// The connector for `url`, or `InvalidDatabaseUrl` with the parser's
    /// complaint where it has one.
    pub fn new(url: &str, complaint: Option<String>) -> (r: Result<Self, Error>)
        ensures
            made(r) == connector_outcome(Backend::PostgreSql, url@, text_view(complaint)),
    {
        match complaint {
            Some(details) => Err(Error::InvalidDatabaseUrl { details, url: url.to_owned() }),
            None => Ok(PostgreSql { url: url.to_owned(), pool: PoolPolicy::standard() }),
        }
    }

    /// The connector for the datasource: its connection string must be a
    /// URL that the pool takes. Nothing is connected yet.
    pub fn from_source(source: &Datasource) -> (r: Result<Self, Error>)
        ensures
            made(r) == connector_outcome(
                Backend::PostgreSql,
                source.url@,
                connection_info_complaint(source.url@),
            ),
    {
        PostgreSql::new(source.url.as_str(), connection_complaint(source.url.as_str()))
    }

    pub fn name(&self) -> (r: String)
        ensures
            r@ == self@.backend.name_spec(),
            r@ == "postgres"@,
    {
        Backend::PostgreSql.name()
    }

    pub fn url(&self) -> (r: &String)
        ensures
            r@ == self@.url,
    {
        &self.url
    }

    pub fn pool(&self) -> (r: PoolPolicy)
        ensures
            r == self@.pool,
    {
        self.pool
    }
}

impl View for Mysql {
    type V = ConnectorView;

    closed spec fn view(&self) -> ConnectorView {
        ConnectorView { backend: Backend::Mysql, url: self.url@, pool: self.pool, file_path: None }
    }
}

impl Mysql {
    /// The connector for `url`, or `InvalidDatabaseUrl` with the parser's
    /// complaint where it has one.
    pub fn new(url: &str, complaint: Option<String>) -> (r: Result<Self, Error>)
        ensures
            made(r) == connector_outcome(Backend::Mysql, url@, text_view(complaint)),
    {
        match complaint {
            Some(details) => Err(Error::InvalidDatabaseUrl { details, url: url.to_owned() }),
            None => Ok(Mysql { url: url.to_owned(), pool: PoolPolicy::standard() }),
        }
    }

    /// The connector for the datasource: its connection string must be a
    /// URL. Nothing is connected yet.
    pub fn from_source(source: &Datasource) -> (r: Result<Self, Error>)
        ensures
            made(r) == connector_outcome(
                Backend::Mysql,
                source.url@,
                complaint_of(url_parse(source.url@)),
            ),
    {
        match parse_url(source.url.as_str()) {
            Ok(_) => Mysql::new(source.url.as_str(), None),
            Err(details) => Mysql::new(source.url.as_str(), Some(details)),
        }
    }

    pub fn name(&self) -> (r: String)
        ensures
            r@ == self@.backend.name_spec(),
            r@ == "mysql"@,
    {
        Backend::Mysql.name()
    }

    pub fn url(&self) -> (r: &String)
        ensures
            r@ == self@.url,
    {
        &self.url
    }

    pub fn pool(&self) -> (r: PoolPolicy)
        ensures
            r == self@.pool,
    {
        self.pool
    }
}

impl View for Mssql {
    type V = ConnectorView;

    closed spec fn view(&self) -> ConnectorView {
        ConnectorView { backend: Backend::Mssql, url: self.url@, pool: self.pool, file_path: None }
    }
}

impl Mssql {
    /// The connector for `url`, or `InvalidDatabaseUrl` with the parser's
    /// complaint where it has one.
    pub fn new(url: &str, complaint: Option<String>) -> (r: Result<Self, Error>)
        ensures
            made(r) == connector_outcome(Backend::Mssql, url@, text_view(complaint)),
    {
        match complaint {
            Some(details) => Err(Error::InvalidDatabaseUrl { details, url: url.to_owned() }),
            None => Ok(Mssql { url: url.to_owned(), pool: PoolPolicy::standard() }),
        }
    }

    /// The connector for the datasource: its connection string must be a
    /// JDBC string, with or without the leading `jdbc:`. Nothing is connected
    /// yet.
    pub fn from_source(source: &Datasource) -> (r: Result<Self, Error>)
        ensures
            made(r) == connector_outcome(
                Backend::Mssql,
                source.url@,
                complaint_of(jdbc_property(jdbc_text(source.url@), "schema"@)),
            ),
    {
        let text = jdbc_string(source.url.as_str());
        match jdbc_lookup(text.as_str(), "schema") {
            Ok(_) => Mssql::new(source.url.as_str(), None),
            Err(details) => Mssql::new(source.url.as_str(), Some(details)),
        }
    }

    pub fn name(&self) -> (r: String)
        ensures
            r@ == self@.backend.name_spec(),
            r@ == "mssql"@,
    {
        Backend::Mssql.name()
    }

    pub fn url(&self) -> (r: &String)
        ensures
            r@ == self@.url,
    {
        &self.url
    }

    pub fn pool(&self) -> (r: PoolPolicy)
        ensures
            r == self@.pool,
    {
        self.pool
    }
}

impl View for Sqlite {
    type V = ConnectorView;

    closed spec fn view(&self) -> ConnectorView {
        ConnectorView {
            backend: Backend::Sqlite,
            url: self.url@,
            pool: self.pool,
            file_path: Some(self.file_path@),
        }
    }
}

impl Sqlite {
    /// The connector for the datasource; any connection string names a file.
    /// Nothing is opened yet.
    pub fn from_source(source: &Datasource) -> (r: Result<Self, Error>)
        ensures
            made(r) == Ok::<ConnectorView, ErrorView>(connector_for(Backend::Sqlite, source.url@)),
    {
        Ok(
            Sqlite {
                url: source.url.clone(),
                file_path: file_path_of(source.url.as_str()),
                pool: PoolPolicy::standard(),
            },
        )
    }

    pub fn name(&self) -> (r: String)
        ensures
            r@ == self@.backend.name_spec(),
            r@ == "sqlite"@,
    {
        Backend::Sqlite.name()
    }

    /// The path of the database file.
    pub fn file_path(&self) -> (r: &str)
        ensures
            self@.file_path == Some(r@),
    {
        self.file_path.as_str()
    }

    pub fn url(&self) -> (r: &String)
        ensures
            r@ == self@.url,
    {
        &self.url
    }

    pub fn pool(&self) -> (r: PoolPolicy)
        ensures
            r == self@.pool,
    {
        self.pool
    }
}

} // verus!
