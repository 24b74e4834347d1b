//! PostgreSQL.

pub mod count;
