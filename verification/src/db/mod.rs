//! The data of the hierarchy and the engines that work on it.

pub mod cascade_laws;
pub mod migrations;
pub mod models;
pub mod record;
pub mod repository;
pub mod rows;
pub mod selection;
pub mod store;
