//! Column-aligned text tables for the results of a package-registry search.

pub mod models;
pub mod registry;
pub mod render;
pub mod text;
pub mod widths;
