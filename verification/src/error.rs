//! The error taxonomy of the store.
use vstd::prelude::*;

verus! {

/// Why a single migration step could not be applied.
#[derive(Clone, Copy, Debug, PartialEq, Eq, Structural)]
pub enum MigrationCause {
    /// The step's script is not a well-formed DDL script.
    InvalidScript,
    /// The script creates a table that the schema already holds.
    TableAlreadyExists,
    /// The script names a table that the schema does not hold.
    NoSuchTable,
    /// The script adds a column that its table already holds, or
    /// renames a column to a name that is already taken.
    ColumnAlreadyExists,
    /// The script renames a column that its table does not hold.
    NoSuchColumn,
    /// The script creates a table whose column names repeat.
    DuplicateColumn,
    /// The storage engine could not carry the step out (a locked or
    /// unwritable file).  The in-memory engine never produces this
    /// cause; it is for the host layer, which runs the same steps
    /// against the on-disk store, where such a failure is transient
    /// and the run may be retried.
    StorageUnavailable,
}

/// Every failure the store reports to its callers.
#[derive(Clone, Copy, Debug, PartialEq, Eq, Structural)]
pub enum StoreError {
    /// The underlying file or connection is unavailable; retryable.
    IoError,
    /// A specific catalog step failed; the store stays at the version
    /// reached by the last successful step.
    MigrationError { version: u32, cause: MigrationCause },
    /// A referenced row id is absent.
    NotFound,
    /// An entity invariant would be violated by the requested write.
    ConstraintViolation,
}

impl MigrationCause {
    /// A short diagnostic label for the cause.
    pub fn label(&self) -> (r: &'static str)
        ensures
            r@ =~= match self {
                MigrationCause::InvalidScript => "invalid script"@,
                MigrationCause::TableAlreadyExists => "table already exists"@,
                MigrationCause::NoSuchTable => "no such table"@,
                MigrationCause::ColumnAlreadyExists => "column already exists"@,
                MigrationCause::NoSuchColumn => "no such column"@,
                MigrationCause::DuplicateColumn => "duplicate column"@,
                MigrationCause::StorageUnavailable => "storage unavailable"@,
            },
    {
        match self {
            MigrationCause::InvalidScript => "invalid script",
            MigrationCause::TableAlreadyExists => "table already exists",
            MigrationCause::NoSuchTable => "no such table",
            MigrationCause::ColumnAlreadyExists => "column already exists",
            MigrationCause::NoSuchColumn => "no such column",
            MigrationCause::DuplicateColumn => "duplicate column",
            MigrationCause::StorageUnavailable => "storage unavailable",
        }
    }
}

} // verus!
