//! The requests that the user interface sends, and what is computed for them
//! before and after the database is touched.

pub mod goals;
pub mod life_areas;
pub mod logging;
pub mod notes;
pub mod projects;
pub mod repository;
pub mod tasks;
