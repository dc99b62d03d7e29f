//! A filterable, navigable tab picker: the state engine behind a terminal
//! overlay that narrows a list of tabs by substring and moves a single
//! selection through what is left.

pub mod text;
pub mod matcher;
pub mod style;
pub mod config;
pub mod picker;
pub mod laws;
pub mod render;
