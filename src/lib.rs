//! Decoding and inspection of the fixed 100-byte header of an SQLite database
//! file: a big-endian field reader, the typed header record, and a uniform
//! field/value model with hexadecimal and human-readable renderings.
pub mod bytefield;
pub mod error;
pub mod field;
pub mod header;
pub mod parts;
pub mod reader;
pub mod text;
pub mod viewer;
