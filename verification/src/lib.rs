//! Provisioning logic for a multi-tenant relational-database deployment.
//!
//! The crate builds the fixed schema catalog, validates SQL identifiers,
//! resolves role passwords, and decides every step of an idempotent
//! bootstrap run: database and role creation, transactional schema
//! application with rollback on error, workspace-to-database binding with
//! conflict detection, and staged permission grants.

pub mod conn;
pub mod errors;
pub mod ident;
pub mod laws;
pub mod model;
pub mod provision;
pub mod schema;
pub mod secrets;
pub mod section;
