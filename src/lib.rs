use vstd::prelude::*;

pub mod types;
pub mod watcher;
pub mod fetcher;
pub mod witness;
pub mod keygen;
pub mod layout;

verus! {

} // verus!
