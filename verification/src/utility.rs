//! Helpers that the analysis is built on.

pub mod join;
pub mod scoped;
pub mod text;

pub use crate::utility::scoped::Scoped;
pub use crate::utility::text::write_comma_seperated;
