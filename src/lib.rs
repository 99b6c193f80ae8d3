//! A registry of local services, each with optional start, stop and restart
//! shell commands: the operations on the collection, the choice of what to run,
//! the location of the store, and the state of the dashboard that shows it.
use vstd::prelude::*;

pub mod dispatch;
pub mod laws;
pub mod service;
pub mod store;
pub mod table;
pub mod tabs;

verus! {

} // verus!
