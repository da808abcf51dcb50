//! Harvests dataset metadata from a CKAN catalog and lays it out as a table.

pub mod ckan;
pub mod config;
pub mod csv_writer;
pub mod error;
pub mod fetch;
pub mod json;
pub mod markup;
pub mod run;
pub mod s3_upload;
pub mod scheduler;
pub mod table;
pub mod text;

pub use crate::fetch::DatasetMetadata;
