//! The backends, one module for each target language.

pub mod typescript;
