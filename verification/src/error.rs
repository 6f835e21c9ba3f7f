//! The one error shape that crosses the boundary of this crate.

use vstd::prelude::*;

verus! {

/// A breach of a contract that callers are expected to honour.
#[derive(Clone, Copy, Debug, PartialEq, Eq, Structural)]
pub enum Violation {
    /// A field of an unsupported type reached physical binding.
    UnsupportedType,
    /// A many-to-many relation has no relation table.
    MissingRelationTable,
    /// The path of a database file names no file.
    MissingFileStem,
}

/// Every failure that this crate reports.
#[derive(Debug, PartialEq, Eq)]
pub enum Error {
    /// The connection string does not follow the grammar of its backend.
    InvalidDatabaseUrl { details: String, url: String },
    /// The datasource is configured in a way that no backend can serve.
    Configuration { message: String },
    /// The backend is behind a feature flag that is not set.
    UnsupportedFeature { name: String },
    /// No connection to the database could be established.
    ConnectionFailed,
    /// No connection became free in time.
    PoolTimeout,
    /// The transport failed while a statement ran.
    QueryFailed { cause: String },
    /// A caller broke a contract; never coerced into another outcome.
    LogicFatal { violation: Violation },
}

/// The mathematical content of an [`Error`].
pub enum ErrorView {
    InvalidDatabaseUrl { details: Seq<char>, url: Seq<char> },
    Configuration { message: Seq<char> },
    UnsupportedFeature { name: Seq<char> },
    ConnectionFailed,
    PoolTimeout,
    QueryFailed { cause: Seq<char> },
    LogicFatal { violation: Violation },
}

impl View for Error {
    type V = ErrorView;

    open spec fn view(&self) -> ErrorView {
        match self {
            Error::InvalidDatabaseUrl { details, url } => ErrorView::InvalidDatabaseUrl {
                details: details@,
                url: url@,
            },
            Error::Configuration { message } => ErrorView::Configuration { message: message@ },
            Error::UnsupportedFeature { name } => ErrorView::UnsupportedFeature { name: name@ },
            Error::ConnectionFailed => ErrorView::ConnectionFailed,
            Error::PoolTimeout => ErrorView::PoolTimeout,
            Error::QueryFailed { cause } => ErrorView::QueryFailed { cause: cause@ },
            Error::LogicFatal { violation } => ErrorView::LogicFatal { violation: *violation },
        }
    }
}

/// An error of the connection pool, variant for variant as the pool has it.
/// What the pool keeps as an error of another library is kept as that
/// error's text.
#[derive(Debug, PartialEq, Eq)]
pub enum PoolError {
    QueryError(String),
    DatabaseDoesNotExist { db_name: String },
    DatabaseAccessDenied { db_name: String },
    DatabaseAlreadyExists { db_name: String },
    AuthenticationFailed { user: String },
    NotFound,
    UniqueConstraintViolation { field_name: String },
    NullConstraintViolation { field_name: String },
    ConnectionError(String),
    ColumnReadFailure(String),
    ResultIndexOutOfBounds(usize),
    ColumnNotFound(String),
    ResultTypeMismatch(String),
    DatabaseUrlIsInvalid(String),
    ConversionError(String),
    InvalidConnectionArguments,
    IoError(String),
    ConnectTimeout,
    Timeout,
    TlsError { message: String },
}

/// What this crate tells apart among the failures of a backend.
#[derive(Clone, Copy, Debug, PartialEq, Eq, Structural)]
pub enum FailureClass {
    /// The backend refused the connection string.
    UrlRefused,
    /// The server could not be reached or turned the connection down.
    Unreachable,
    /// A deadline passed while waiting for a connection or an answer.
    TimedOut,
    /// The transport failed while a statement ran.
    Transport,
}

impl PoolError {
    /// The class of the error. A connection string or a connection argument
    /// that the pool does not take is a refused URL. A server that cannot be
    /// reached, that denies access or does not know the user or the
    /// database, and a failure of the socket or of TLS, is unreachable. Both
    /// timeouts are timeouts. Everything else happened while a statement
    /// ran.
    pub open spec fn class_spec(&self) -> FailureClass {
        match self {
            PoolError::DatabaseUrlIsInvalid(_) | PoolError::InvalidConnectionArguments =>
                FailureClass::UrlRefused,
            PoolError::ConnectionError(_) | PoolError::IoError(_) | PoolError::TlsError { .. }
            | PoolError::AuthenticationFailed { .. } | PoolError::DatabaseDoesNotExist { .. }
            | PoolError::DatabaseAccessDenied { .. } => FailureClass::Unreachable,
            PoolError::ConnectTimeout | PoolError::Timeout => FailureClass::TimedOut,
            PoolError::QueryError(_) | PoolError::DatabaseAlreadyExists { .. }
            | PoolError::NotFound | PoolError::UniqueConstraintViolation { .. }
            | PoolError::NullConstraintViolation { .. } | PoolError::ColumnReadFailure(_)
            | PoolError::ResultIndexOutOfBounds(_) | PoolError::ColumnNotFound(_)
            | PoolError::ResultTypeMismatch(_) | PoolError::ConversionError(_) =>
                FailureClass::Transport,
        }
    }

    /// Finds the class of the error.
    #[verifier::when_used_as_spec(class_spec)]
    pub fn class(&self) -> (r: FailureClass)
        ensures
            r == self.class_spec(),
    {
        match self {
            PoolError::DatabaseUrlIsInvalid(_) | PoolError::InvalidConnectionArguments =>
                FailureClass::UrlRefused,
            PoolError::ConnectionError(_) | PoolError::IoError(_) | PoolError::TlsError { .. }
            | PoolError::AuthenticationFailed { .. } | PoolError::DatabaseDoesNotExist { .. }
            | PoolError::DatabaseAccessDenied { .. } => FailureClass::Unreachable,
            PoolError::ConnectTimeout | PoolError::Timeout => FailureClass::TimedOut,
            PoolError::QueryError(_) | PoolError::DatabaseAlreadyExists { .. }
            | PoolError::NotFound | PoolError::UniqueConstraintViolation { .. }
            | PoolError::NullConstraintViolation { .. } | PoolError::ColumnReadFailure(_)
            | PoolError::ResultIndexOutOfBounds(_) | PoolError::ColumnNotFound(_)
            | PoolError::ResultTypeMismatch(_) | PoolError::ConversionError(_) =>
                FailureClass::Transport,
        }
    }
}

/// The error that stands for a failure of `class` of the backend behind
/// `url`, which the backend words as `text`.
pub open spec fn backend_error(class: FailureClass, text: Seq<char>, url: Seq<char>) -> ErrorView {
    match class {
        FailureClass::UrlRefused => ErrorView::InvalidDatabaseUrl { details: text, url },
        FailureClass::Unreachable => ErrorView::ConnectionFailed,
        FailureClass::TimedOut => ErrorView::PoolTimeout,
        FailureClass::Transport => ErrorView::QueryFailed { cause: text },
    }
}

impl Clone for Error {
    fn clone(&self) -> (r: Self)
        ensures
            r@ == self@,
    {
        match self {
            Error::InvalidDatabaseUrl { details, url } => Error::InvalidDatabaseUrl {
                details: details.clone(),
                url: url.clone(),
            },
            Error::Configuration { message } => Error::Configuration { message: message.clone() },
            Error::UnsupportedFeature { name } => Error::UnsupportedFeature { name: name.clone() },
            Error::ConnectionFailed => Error::ConnectionFailed,
            Error::PoolTimeout => Error::PoolTimeout,
            Error::QueryFailed { cause } => Error::QueryFailed { cause: cause.clone() },
            Error::LogicFatal { violation } => Error::LogicFatal { violation: *violation },
        }
    }
}

impl Error {
    /// Whether a load attempt that ended in this error may be tried again.
    /// Only the transient pool failures are; everything found before any
    /// network traffic is final.
    pub open spec fn is_transient(self) -> bool {
        self is PoolTimeout || self is ConnectionFailed
    }

    /// Turns a failure of `class` of the backend behind `url`, worded as
    /// `text`, into the error that stands for it.
    pub fn from_backend(class: FailureClass, text: String, url: &str) -> (r: Error)
        ensures
            r@ == backend_error(class, text@, url@),
    {
        match class {
            FailureClass::UrlRefused => Error::InvalidDatabaseUrl {
                details: text,
                url: url.to_owned(),
            },
            FailureClass::Unreachable => Error::ConnectionFailed,
            FailureClass::TimedOut => Error::PoolTimeout,
            FailureClass::Transport => Error::QueryFailed { cause: text },
        }
    }

    /// Turns an error of the pool behind `url`, worded by the pool as
    /// `text`, into the error that stands for it. This is the one place
    /// where the pool's errors are told apart.
    pub fn from_pool(error: &PoolError, text: String, url: &str) -> (r: Error)
        ensures
            r@ == backend_error(error.class_spec(), text@, url@),
    {
        Error::from_backend(error.class(), text, url)
    }

    /// Decides whether the failure is transient.
    pub fn transient(&self) -> (r: bool)
        ensures
            r == self.is_transient(),
    {
        match self {
            Error::PoolTimeout => true,
            Error::ConnectionFailed => true,
            _ => false,
        }
    }
}

} // verus!
