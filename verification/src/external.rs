//! Capabilities from outside the engine.
//!
//! A program holds a capability as a handle and never looks inside it. When
//! the program uses one, the engine asks its host, and the host calls the
//! capability through this interface. The engine promises nothing about
//! what a capability does and relies on nothing.

use vstd::prelude::*;
use crate::data::Data;

verus! {

/// What a capability can be asked to do.
pub trait External {
    /// Does the operation `func` on the stack.
    fn apply(&mut self, func: String, stack: &mut Vec<Data>) -> Result<(), String>;

    /// The name of the capability.
    fn name(&mut self) -> String;
}

} // verus!
