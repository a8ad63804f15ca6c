//! Interpreter core for a small CAD modeling language.
//!
//! Programs in the language declare constants, functions and pipelines of
//! modeling operations.  The interpreter walks the syntax tree against a
//! program memory (a map from names to runtime values) and drives an external
//! modeling engine through a command channel.  This crate holds the verified
//! core: the value universe and its JSON form, the program memory, the
//! evaluator with its argument binder and function dispatcher, and the
//! segment query primitives.  Everything the core needs from its embedder
//! (the engine transport, the host-implemented builtins and the IEEE-754
//! numeric kernel) is reached through the [`host::Host`] trait.

pub mod util;
pub mod source_range;
pub mod errors;
pub mod json;
pub mod ast;
pub mod values;
pub mod memory;
pub mod host;
pub mod serialize;
pub mod executor;
pub mod segment;
