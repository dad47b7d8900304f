//! Verified core of a personal productivity backend: a migration ledger and a
//! cascading archive engine over a hierarchy of life areas, goals, projects,
//! tasks and notes.

pub mod clock;
pub mod commands;
pub mod database;
pub mod db;
pub mod error;
pub mod ids;
pub mod logger;
pub mod text;
pub mod validation;
