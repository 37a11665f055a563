//! Locates known cryptographic constant tables inside binary data.
//!
//! The library encodes typed constant tables in either byte order, compiles
//! every table of a signature catalog into one multi-pattern automaton, and
//! scans byte views for occurrences, recovering the catalog entry and the
//! byte order of every match.
pub mod automaton;
pub mod endian;
pub mod patterns;
pub mod stream;
