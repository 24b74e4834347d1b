//! Schemas of tables, and how they are carried from one database to another.
//!
//! The portable data model lives in [`schema`]; each backend's native types,
//! their text grammar and the mappings to and from the portable model live
//! under [`drivers`].

pub mod args;
pub mod drivers;
pub mod error;
pub mod json;
pub mod locator;
pub mod planner;
pub mod schema;
pub mod schema_json;
pub mod text;
