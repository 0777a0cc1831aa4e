use vstd::prelude::*;

pub mod catalog;
pub mod events;
pub mod status;
pub mod tray;

verus! {

} // verus!
