//! The error taxonomy of a bootstrap run.
//!
//! Every error is fatal: nothing is recovered locally, the run aborts and
//! the error is surfaced with enough context to correct configuration or
//! schema and re-run.

use vstd::prelude::*;

verus! {

/// One fatal failure of a bootstrap run.
#[derive(Debug, PartialEq, Eq)]
pub enum ProvisionError {
    /// The database server or the secrets service cannot be reached, or a
    /// connection URL is malformed.
    Connection { detail: String },
    /// The secrets service answered with a non-success HTTP status.
    SecretUnavailable { status: u16 },
    /// A required key is absent from a fetched secret document, or its
    /// value is not a string.
    SecretFieldMissing { key: String },
    /// A DDL/DML statement failed inside a schema-application transaction;
    /// the transaction was rolled back.
    SchemaApplication { statement: String, detail: String },
    /// The workspace is already bound to a different database.
    WorkspaceConflict { workspace: String, existing: String, requested: String },
    /// A permission-grant statement failed; earlier grants of the same pass
    /// remain and are repaired by a re-run.
    PermissionGrant { statement: String, detail: String },
    /// A name does not satisfy the SQL-identifier rules.
    InvalidIdentifier { value: String },
}

} // verus!
