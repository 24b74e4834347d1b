//! BigQuery's native types, shared by every driver that talks to BigQuery.

pub mod array_nesting;
pub mod column;
pub mod column_name;
pub mod data_type;
pub mod display;
pub mod grammar;
pub mod mapping_laws;
pub mod round_trip;
pub mod schema_file;
