//! The database layer: its errors, its models and the safety of its paths.

pub mod error;
pub mod migrations;
pub mod models;
pub mod path_security;

pub use error::{DatabaseError, DatabaseResult};
