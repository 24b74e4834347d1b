//! Amazon Redshift.

pub mod write_local_data;
