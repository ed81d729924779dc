use vstd::prelude::*;

pub mod cli;
pub mod events;
pub mod sysinfo;
pub mod text;
pub mod ui;

verus! {

} // verus!
