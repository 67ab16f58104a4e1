//! Building C test programs whose expected output is worked out as they are built.
//!
//! Every program a facet generator writes prints numbers, and the generator records the
//! numbers it will print while it writes the statements that print them. The arithmetic is
//! C's own, modelled here for the integer types the programs use, so an answer never comes
//! from running a compiler.

pub mod cexpr;
pub mod emit;
pub mod facets;
pub mod lang;
pub mod text;

use vstd::prelude::*;

verus! {

} // verus!
