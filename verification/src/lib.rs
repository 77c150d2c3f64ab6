//! Password-based file encryption: the container format, the sealing and
//! opening pipelines, and the bookkeeping of batch runs and directory scans.
//!
//! The library works on bytes and plain values. Reading and writing files,
//! walking directories and turning the metadata record into text belong to
//! the caller.

pub mod error;
pub mod types;
pub mod primitives;
pub mod container;
pub mod crypto;
pub mod pipeline;
pub mod policy;
pub mod batch;
pub mod file_ops;
pub mod scan;
pub mod text;
pub mod humor;



