//! Who may do what through the JSON API. Each handler's check is decided here before
//! the database is touched.

pub mod delete;
pub mod get;
pub mod post;
pub mod put;
