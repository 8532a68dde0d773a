//! The decisions of a media search tool: which media its grid shows under the
//! toolbar's filter, how its zoom steps, and what each page does with each
//! message. The widgets and the search service stand outside this crate.

pub mod csam;
pub mod face;
pub mod factories;
pub mod foreign;
pub mod models;
pub mod searchbar;
pub mod text;
