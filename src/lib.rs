//! Reproducible vector + scalar test data: configuration, size estimation,
//! row generation and the plan that splits a run into bounded files.

pub mod config;
pub mod generator;
pub mod naming;
pub mod split;
pub mod writer;
