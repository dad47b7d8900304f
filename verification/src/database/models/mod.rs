//! The records as the user interface exchanges them, and the requests to
//! create and to change them.

pub mod goal;
pub mod life_area;
pub mod project;
pub mod task;
