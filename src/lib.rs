use vstd::prelude::*;

pub mod laws;
pub mod logging;
pub mod models;
pub mod reconcile;
pub mod updater;

verus! {

} // verus!
