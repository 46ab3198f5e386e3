//! Synchronization and format-conversion orchestration for GBLN sources and
//! their canonical I/O artifacts.
//!
//! A source file (`*.gbln`) and a derived artifact (`*.io.gbln` or
//! `*.io.gbln.xz`) are related purely by filename convention. This crate
//! holds the logic that decides which artifact corresponds to a source file,
//! keeps the two representations consistent, detects and repairs formatting
//! drift, and dispatches between external representations. The grammar
//! parser, pretty-printer and artifact codec are outside collaborators: the
//! functions here take their outputs as plain values and state exactly what
//! is decided for every such value.

pub mod strings;
pub mod format;
pub mod paths;
pub mod locate;
pub mod sync;
pub mod validate;
pub mod value;
pub mod json;
pub mod render;
pub mod convert;
