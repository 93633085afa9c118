//! Loading the species names of the Pokémon dataset from its JSON file.
use vstd::prelude::*;

pub mod json;
pub mod pokemon;

verus! {

} // verus!
