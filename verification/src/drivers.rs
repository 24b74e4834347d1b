//! One module per backend.

pub mod bigquery_shared;
pub mod postgres;
pub mod redshift;
