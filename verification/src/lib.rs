//! A verified library for managing user records in a single-table relational
//! store: schema initialization, insert, list, update-by-name and
//! delete-by-name, together with the text the command-line surface prints.

pub mod cli;
pub mod laws;
pub mod model;
pub mod ops;
pub mod render;
pub mod store;
