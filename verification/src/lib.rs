//! A static-analysis library for compiled JVM class files.
//!
//! The library decodes the class-file binary format into a structural
//! summary, runs naming and string heuristics over it to produce typed
//! findings, deduplicates work through a content-addressed cache, and
//! turns finding sets into a deterministic danger score with a
//! human-readable explanation.

pub mod hashing;
pub mod lang;
pub mod names;
pub mod parser;
pub mod scan;
pub mod state;
pub mod score;
pub mod strings;
pub mod text;
pub mod types;
