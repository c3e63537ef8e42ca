//! Kernel map declarations: the rules by which an annotated declaration is
//! named and placed, and a typed accessor over a hash map's helper results.
use vstd::prelude::*;

pub mod args;
pub mod expand;
pub mod hash_map;

pub use args::{ArgToken, Args, ArgsError, NameValue};
pub use expand::{BtfMap, Expansion};
pub use hash_map::HashMap;

verus! {

} // verus!
