//! The musical model: what a project holds and how its parts relate.
pub mod event;
pub mod index_map;
pub mod instrument;
pub mod laws;
pub mod parameter;
pub mod percent;
pub mod project;
