//! Page-processing pipeline: an abstract vocabulary of page operations,
//! its compilation into concrete backends, compound per-page operations,
//! plans over many pages and the aggregation of their results.
pub mod page;
pub mod results;
pub mod page_ops;
pub mod compound;
pub mod entries;
pub mod plan;
pub mod text;
pub mod shell;
pub mod imagemagick;
