//! Engineering catalog library: device kind vocabularies, calculator routing,
//! workflow provenance, binding/protocol catalogs and generated documentation text.
use vstd::prelude::*;

pub mod architecture;
pub mod bindings;
pub mod cli;
pub mod devices;
pub mod docs;
pub mod invoke;
pub mod meta;
pub mod solve;
pub mod strings;
pub mod text;

verus! {
} // verus!
