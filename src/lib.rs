//! A small portfolio site: a fixed catalog of projects, two HTML pages built
//! from it, a JSON view of it, and the table that maps GET requests to them.

pub mod catalog;
pub mod text;
pub mod json;
pub mod html;
pub mod routes;
pub mod laws;
