//! Failures that operations report, and how failures of the database driver
//! become them.

use vstd::prelude::*;

use crate::clock::{representable, seconds_to_midnight, seconds_until_utc_midnight};
use crate::text::same_text;

verus! {

/// A ceiling that an upload can run into.
#[derive(Clone, Copy, Debug, PartialEq, Eq, Structural)]
pub enum UploadLimit {
    /// The bytes an organization may upload during one UTC day.
    DailyUpload,
    /// The bytes an organization may keep stored.
    Storage,
}

impl UploadLimit {
    /// Whether the limit frees up by itself when the UTC day ends.
    pub open spec fn resets_spec(self) -> bool {
        self == UploadLimit::DailyUpload
    }

    /// Whether the limit frees up by itself when the UTC day ends.
    pub fn resets(self) -> (answer: bool)
        ensures
            answer == self.resets_spec(),
    {
        match self {
            UploadLimit::DailyUpload => true,
            UploadLimit::Storage => false,
        }
    }
}

/// Failure of a metadata repository operation.
#[derive(Clone, Copy, Debug)]
pub enum MetadataRepositoryError {
    /// The target does not exist for the caller.
    NotFound,
    /// The current state does not admit the operation.
    Conflict,
    /// The database cannot be reached.
    Unavailable,
    /// A page cursor does not decode.
    InvalidCursor,
    /// Stored data or the database failed in a way the caller cannot mend.
    Internal {
        /// What failed.
        reason: &'static str,
    },
}

/// Failure of an application operation.
#[derive(Clone, Copy, Debug)]
pub enum AppError {
    /// The caller presented no acceptable credential.
    Unauthenticated,
    /// The caller is known and not permitted.
    Forbidden,
    /// The target does not exist for the caller.
    NotFound,
    /// The request is malformed.
    BadRequest {
        /// Stable code.
        code: &'static str,
    },
    /// The request is well formed and not acceptable.
    Validation {
        /// Stable code.
        code: &'static str,
    },
    /// The current state does not admit the operation.
    Conflict {
        /// Stable code.
        code: &'static str,
    },
    /// The organization has no room for the upload.
    UploadLimitExhausted {
        /// The ceiling reached.
        limit: UploadLimit,
        /// Seconds until the ceiling frees up by itself.
        retry_after_seconds: Option<u64>,
    },
    /// A service this one depends on is unavailable.
    DependencyUnavailable {
        /// The service.
        dependency: &'static str,
    },
    /// A commit was sent and its outcome never arrived.
    DatabaseCommitOutcomeUnknown {
        /// The operation that committed.
        operation: &'static str,
    },
    /// Something failed that the caller cannot mend.
    Internal {
        /// Stable category.
        category: &'static str,
    },
    /// A repository failure that the interface layer renders.
    Repository {
        /// The failure.
        error: MetadataRepositoryError,
    },
}

/// A conflict with the given code.
pub fn conflict(code: &'static str) -> (error: AppError)
    ensures
        error == (AppError::Conflict { code }),
{
    AppError::Conflict { code }
}

/// A validation failure with the given code.
pub fn validation(code: &'static str) -> (error: AppError)
    ensures
        error == (AppError::Validation { code }),
{
    AppError::Validation { code }
}

/// A stored value that its own type does not accept.
pub fn internal_error() -> (error: AppError)
    ensures
        error == (AppError::Internal { category: "persisted_data" }),
{
    AppError::Internal { category: "persisted_data" }
}

/// Stored values that contradict each other.
pub fn internal_integrity() -> (error: AppError)
    ensures
        error == (AppError::Internal { category: "persisted_data" }),
{
    AppError::Internal { category: "persisted_data" }
}

/// An internal repository failure with the given reason.
pub fn internal(message: &'static str) -> (error: MetadataRepositoryError)
    ensures
        error == (MetadataRepositoryError::Internal { reason: message }),
{
    MetadataRepositoryError::Internal { reason: message }
}

/// A stored value that its own type does not accept.
pub fn internal_data() -> (error: MetadataRepositoryError)
    ensures
        error == (MetadataRepositoryError::Internal { reason: "invalid persisted data" }),
{
    MetadataRepositoryError::Internal { reason: "invalid persisted data" }
}

/// A stored value that its own type does not accept.
pub fn invalid_data() -> (error: MetadataRepositoryError)
    ensures
        error == (MetadataRepositoryError::Internal { reason: "invalid persisted data" }),
{
    MetadataRepositoryError::Internal { reason: "invalid persisted data" }
}

/// How a content operation reports a repository failure.
pub open spec fn map_metadata_spec(error: MetadataRepositoryError) -> AppError {
    match error {
        MetadataRepositoryError::NotFound => AppError::NotFound,
        MetadataRepositoryError::Conflict => AppError::Conflict { code: "metadata_conflict" },
        MetadataRepositoryError::Unavailable => AppError::DependencyUnavailable {
            dependency: "postgresql",
        },
        MetadataRepositoryError::InvalidCursor => AppError::BadRequest { code: "invalid_cursor" },
        MetadataRepositoryError::Internal { .. } => AppError::Internal {
            category: "database_operation",
        },
    }
}

/// How a content operation reports a repository failure.
pub fn map_metadata(error: MetadataRepositoryError) -> (mapped: AppError)
    ensures
        mapped == map_metadata_spec(error),
{
    match error {
        MetadataRepositoryError::NotFound => AppError::NotFound,
        MetadataRepositoryError::Conflict => conflict("metadata_conflict"),
        MetadataRepositoryError::Unavailable => AppError::DependencyUnavailable {
            dependency: "postgresql",
        },
        MetadataRepositoryError::InvalidCursor => AppError::BadRequest { code: "invalid_cursor" },
        MetadataRepositoryError::Internal { .. } => AppError::Internal {
            category: "database_operation",
        },
    }
}

/// How a sharing, invitation or lifetime operation reports a repository
/// failure: unchanged, for the interface layer to render.
pub fn repo_error(value: MetadataRepositoryError) -> (mapped: AppError)
    ensures
        mapped == (AppError::Repository { error: value }),
{
    AppError::Repository { error: value }
}

/// The outcome of a repository step inside a sharing operation.
pub fn error(value: Result<(), MetadataRepositoryError>) -> (mapped: Result<(), AppError>)
    ensures
        value is Ok ==> mapped == Ok::<(), AppError>(()),
        value matches Err(cause) ==> mapped == Err::<(), AppError>(
            AppError::Repository { error: cause },
        ),
{
    match value {
        Ok(()) => Ok(()),
        Err(cause) => Err(repo_error(cause)),
    }
}

/// A failed commit of an operation whose outcome is then unknown, whatever the
/// driver says of the failure.
pub fn unknown_commit_error(_error: sqlx::Error, operation: &'static str) -> (reported: AppError)
    ensures
        reported == (AppError::DatabaseCommitOutcomeUnknown { operation }),
{
    AppError::DatabaseCommitOutcomeUnknown { operation }
}

/// An upload refused by a limit, with the wait after which it frees up.
pub fn exhausted(limit: UploadLimit, now: i128) -> (error: AppError)
    requires
        representable(now as int),
    ensures
        error == (AppError::UploadLimitExhausted {
            limit,
            retry_after_seconds: if limit.resets_spec() {
                Some(seconds_to_midnight(now as int) as u64)
            } else {
                None
            },
        }),
{
    let retry_after_seconds: Option<u64> = if limit.resets() {
        Some(seconds_until_utc_midnight(now))
    } else {
        None
    };
    AppError::UploadLimitExhausted { limit, retry_after_seconds }
}

/// Failure classes of the database driver that operations tell apart.
#[derive(Clone, Debug)]
pub enum SqlFailure {
    /// A query that must give a row gave none.
    RowNotFound,
    /// No connection became free in time.
    PoolTimedOut,
    /// The pool is closed.
    PoolClosed,
    /// The connection failed.
    Io,
    /// The database refused the statement.
    Database {
        /// The SQLSTATE code.
        code: Option<String>,
    },
    /// Anything else.
    Other,
}

/// Whether a SQLSTATE code reports a violated constraint or a lost race.
pub open spec fn is_conflict_code(code: Seq<char>) -> bool {
    code == "23503"@ || code == "23505"@ || code == "23514"@ || code == "40001"@ || code
        == "40P01"@
}

/// The repository failure that a driver failure stands for.
pub open spec fn map_sql_spec(failure: SqlFailure) -> MetadataRepositoryError {
    match failure {
        SqlFailure::RowNotFound => MetadataRepositoryError::NotFound,
        SqlFailure::PoolTimedOut | SqlFailure::PoolClosed
        | SqlFailure::Io => MetadataRepositoryError::Unavailable,
        SqlFailure::Database { code: Some(code) } => if is_conflict_code(code@) {
            MetadataRepositoryError::Conflict
        } else {
            MetadataRepositoryError::Internal { reason: "database" }
        },
        SqlFailure::Database { code: None }
        | SqlFailure::Other => MetadataRepositoryError::Internal { reason: "database" },
    }
}

/// The repository failure that a driver failure stands for.
pub fn map_sql_failure(failure: &SqlFailure) -> (error: MetadataRepositoryError)
    ensures
        error == map_sql_spec(*failure),
{
    match failure {
        SqlFailure::RowNotFound => MetadataRepositoryError::NotFound,
        SqlFailure::PoolTimedOut | SqlFailure::PoolClosed
        | SqlFailure::Io => MetadataRepositoryError::Unavailable,
        SqlFailure::Database { code: Some(code) } => {
            if same_text(code.as_str(), "23503") || same_text(code.as_str(), "23505") || same_text(
                code.as_str(),
                "23514",
            ) || same_text(code.as_str(), "40001") || same_text(code.as_str(), "40P01") {
                MetadataRepositoryError::Conflict
            } else {
                internal("database")
            }
        },
        SqlFailure::Database { code: None } | SqlFailure::Other => internal("database"),
    }
}

/// `sqlx::Error`, carried as an opaque value.
#[verifier::external_type_specification]
#[verifier::external_body]
pub struct ExSqlxError(sqlx::Error);

/// The failure class of an error of the database driver.
pub uninterp spec fn sql_failure(error: sqlx::Error) -> SqlFailure;

/// Tells the variants of `sqlx::Error` apart; `DatabaseError::code` gives the
/// SQLSTATE code. The class depends on the error alone and is only named.
#[verifier::external_body]
pub(crate) fn classify(error: sqlx::Error) -> (failure: SqlFailure)
    ensures
        failure == sql_failure(error),
{
    match error {
        sqlx::Error::RowNotFound => SqlFailure::RowNotFound,
        sqlx::Error::PoolTimedOut => SqlFailure::PoolTimedOut,
        sqlx::Error::PoolClosed => SqlFailure::PoolClosed,
        sqlx::Error::Io(_) => SqlFailure::Io,
        sqlx::Error::Database(database) => SqlFailure::Database {
            code: database.code().map(|code| code.into_owned()),
        },
        _ => SqlFailure::Other,
    }
}

/// The repository failure that an error of the database driver stands for.
/// [`map_sql_failure`] says which failure each class of error becomes.
pub fn map_sql(error: sqlx::Error) -> (mapped: MetadataRepositoryError)
    ensures
        mapped == map_sql_spec(sql_failure(error)),
{
    let failure = classify(error);
    map_sql_failure(&failure)
}

/// How a content operation reports an error of the database driver.
pub fn database_error(error: sqlx::Error) -> (mapped: AppError)
    ensures
        mapped == map_metadata_spec(map_sql_spec(sql_failure(error))),
{
    map_metadata(map_sql(error))
}

/// How a usage counter reports a repository failure.
pub open spec fn usage_error_spec(error: MetadataRepositoryError) -> AppError {
    match error {
        MetadataRepositoryError::NotFound => AppError::NotFound,
        MetadataRepositoryError::Conflict => AppError::Conflict {
            code: "organization_usage_conflict",
        },
        _ => AppError::Internal { category: "organization_usage" },
    }
}

/// How a usage counter reports a repository failure.
pub fn usage_error(error: MetadataRepositoryError) -> (mapped: AppError)
    ensures
        mapped == usage_error_spec(error),
{
    match error {
        MetadataRepositoryError::NotFound => AppError::NotFound,
        MetadataRepositoryError::Conflict => conflict("organization_usage_conflict"),
        _ => AppError::Internal { category: "organization_usage" },
    }
}

} // verus!
