//! Execution engine of a small stack-based scripting language.
//!
//! A program is a tree of blocks. Every expression works on one shared operand
//! stack; names are looked up first in the running frame and then in a map that
//! the caller hands down; a block literal becomes a closure that snapshots the
//! names it marked for capture. The engine is a machine that can stop and go on:
//! whatever it cannot do itself (printing, reading a file, arithmetic on
//! decimals, an external capability) it asks of its host as an `Action`, and it
//! goes on when the host answers with an `Event`.
//!
//! From text to a running program: `scanner` makes tokens of a text, `parser`
//! makes the syntax tree (`ast`) of the tokens, `run_tree` makes of it the tree
//! that runs, and `interpreter` runs that tree, with the native operations of
//! `builtins`, on the values of `data`. `laws` holds what is true of all of
//! this whatever the program.

pub mod text;
pub mod token;
pub mod scanner;
pub mod ast;
pub mod parser;
pub mod diagram;
pub mod run_tree;
pub mod data;
pub mod defs;
pub mod names;
pub mod error;
pub mod effect;
pub mod render;
pub mod interpreter;
pub mod builtins;
pub mod external;
pub mod utils;
pub mod laws;
